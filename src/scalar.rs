//! Single-precision scalars held as their IEEE-754 bit patterns.
//!
//! The library only compares scalars; arithmetic on them is left to the
//! drawing toolkit. Comparison follows IEEE-754: a NaN is unordered, and
//! both zeros compare equal.
use vstd::prelude::*;

verus! {

/// Bits of `0.0`.
pub const ZERO_BITS: u32 = 0x0000_0000;

/// Bits of `1.0`.
pub const ONE_BITS: u32 = 0x3f80_0000;

/// Bit pattern of the sign.
pub const SIGN_BIT: u32 = 0x8000_0000;

/// Bits of positive infinity; a larger magnitude is a NaN.
pub const INFINITY_BITS: u32 = 0x7f80_0000;

/// The bits of `b` without the sign.
pub open spec fn magnitude(b: u32) -> int {
    if b >= SIGN_BIT { b - SIGN_BIT } else { b as int }
}

/// `b` encodes a NaN.
pub open spec fn is_nan(b: u32) -> bool {
    magnitude(b) > INFINITY_BITS
}

/// An integer that orders all non-NaN encodings as their values are ordered.
pub open spec fn order_key(b: u32) -> int {
    if b >= SIGN_BIT { -magnitude(b) } else { magnitude(b) }
}

/// IEEE-754 `a < b` on encodings.
pub open spec fn less(a: u32, b: u32) -> bool {
    !is_nan(a) && !is_nan(b) && order_key(a) < order_key(b)
}

/// A single-precision value, held as its bit pattern.
#[derive(Clone, Copy, Debug, PartialEq, Eq, Structural)]
pub struct Scalar {
    pub bits: u32,
}

/// A NaN is out of every range: it becomes the lower bound, or the upper
/// bound where there is no lower one. Any other value meets the upper bound
/// first, then the lower: with inverted bounds the lower wins, and applying
/// the policy again changes nothing.
pub open spec fn clamped(v: Scalar, min: Option<Scalar>, max: Option<Scalar>) -> Scalar {
    if is_nan(v.bits) {
        match min {
            Some(lo) => lo,
            None => match max {
                Some(hi) => hi,
                None => v,
            },
        }
    } else {
        let capped = match max {
            Some(hi) => if less(hi.bits, v.bits) { hi } else { v },
            None => v,
        };
        match min {
            Some(lo) => if less(capped.bits, lo.bits) { lo } else { capped },
            None => capped,
        }
    }
}

impl Scalar {
    pub fn from_bits(bits: u32) -> (r: Scalar)
        ensures
            r.bits == bits,
    {
        Scalar { bits }
    }

    pub fn zero() -> (r: Scalar)
        ensures
            r.bits == ZERO_BITS,
    {
        Scalar { bits: ZERO_BITS }
    }

    pub fn one() -> (r: Scalar)
        ensures
            r.bits == ONE_BITS,
    {
        Scalar { bits: ONE_BITS }
    }

    pub fn to_bits(&self) -> (r: u32)
        ensures
            r == self.bits,
    {
        self.bits
    }

    pub fn is_nan(&self) -> (r: bool)
        ensures
            r == is_nan(self.bits),
    {
        let m: u32 = if self.bits >= SIGN_BIT { self.bits - SIGN_BIT } else { self.bits };
        m > INFINITY_BITS
    }

    /// IEEE-754 `self < other`.
    pub fn lt(&self, other: &Scalar) -> (r: bool)
        ensures
            r == less(self.bits, other.bits),
    {
        if self.is_nan() || other.is_nan() {
            return false;
        }
        let a_neg = self.bits >= SIGN_BIT;
        let b_neg = other.bits >= SIGN_BIT;
        let a_mag: u32 = if a_neg { self.bits - SIGN_BIT } else { self.bits };
        let b_mag: u32 = if b_neg { other.bits - SIGN_BIT } else { other.bits };
        if a_neg && b_neg {
            a_mag > b_mag
        } else if a_neg {
            a_mag != 0 || b_mag != 0
        } else if b_neg {
            false
        } else {
            a_mag < b_mag
        }
    }

    /// Brings `self` into the optional bounds.
    pub fn clamp_to(&self, min: Option<Scalar>, max: Option<Scalar>) -> (r: Scalar)
        ensures
            r == clamped(*self, min, max),
    {
        if self.is_nan() {
            return match min {
                Some(lo) => lo,
                None => match max {
                    Some(hi) => hi,
                    None => *self,
                },
            };
        }
        let capped = match max {
            Some(hi) => if hi.lt(self) { hi } else { *self },
            None => *self,
        };
        match min {
            Some(lo) => if capped.lt(&lo) { lo } else { capped },
            None => capped,
        }
    }
}

/// Applying the bounds a second time changes nothing.
pub proof fn lemma_clamped_stable(v: Scalar, min: Option<Scalar>, max: Option<Scalar>)
    ensures
        clamped(clamped(v, min, max), min, max) == clamped(v, min, max),
{
}

/// With a lower bound of zero the result is a number, and not below zero.
pub proof fn lemma_clamped_not_negative(v: Scalar, max: Option<Scalar>)
    ensures
        !is_nan(clamped(v, Some(Scalar { bits: ZERO_BITS }), max).bits),
        !less(clamped(v, Some(Scalar { bits: ZERO_BITS }), max).bits, ZERO_BITS),
{
}

} // verus!

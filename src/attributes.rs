//! Per-kind editing policies, chosen by the caller for each field.
use vstd::prelude::*;
use crate::scalar::{Scalar, ZERO_BITS, ONE_BITS};

verus! {

/// Bounds and drag speed of a numeric editor. Vector editors apply the
/// bounds to each component. A speed of zero leaves the toolkit's default.
#[derive(Clone, Copy, Debug, PartialEq, Eq, Structural)]
pub struct NumberAttributes {
    pub min: Option<Scalar>,
    pub max: Option<Scalar>,
    pub speed: Scalar,
}

impl Default for NumberAttributes {
    fn default() -> (r: NumberAttributes)
        ensures
            r == NumberAttributes::unbounded(),
    {
        NumberAttributes { min: None, max: None, speed: Scalar { bits: ZERO_BITS } }
    }
}

impl NumberAttributes {
    /// No bounds, the toolkit's speed.
    pub open spec fn unbounded() -> NumberAttributes {
        NumberAttributes { min: None, max: None, speed: Scalar { bits: ZERO_BITS } }
    }

    /// At least zero, no upper bound, the toolkit's speed.
    pub open spec fn spec_positive() -> NumberAttributes {
        NumberAttributes {
            min: Some(Scalar { bits: ZERO_BITS }),
            max: None,
            speed: Scalar { bits: ZERO_BITS },
        }
    }

    /// At least zero, no upper bound.
    pub fn positive() -> (r: NumberAttributes)
        ensures
            r == NumberAttributes::spec_positive(),
    {
        NumberAttributes { min: Some(Scalar::zero()), max: None, speed: Scalar::zero() }
    }

    /// Between zero and one.
    pub fn normalized() -> (r: NumberAttributes)
        ensures
            r.min == Some(Scalar { bits: ZERO_BITS }),
            r.max == Some(Scalar { bits: ONE_BITS }),
            r.speed.bits == ZERO_BITS,
    {
        NumberAttributes { min: Some(Scalar::zero()), max: Some(Scalar::one()), speed: Scalar::zero() }
    }

    /// Between `min` and `max`. Inverted bounds are taken as given: the
    /// lower one wins.
    pub fn between(min: Scalar, max: Scalar) -> (r: NumberAttributes)
        ensures
            r.min == Some(min),
            r.max == Some(max),
            r.speed.bits == ZERO_BITS,
    {
        NumberAttributes { min: Some(min), max: Some(max), speed: Scalar::zero() }
    }

    /// The same bounds with drag speed `speed`.
    pub fn speed(self, speed: Scalar) -> (r: NumberAttributes)
        ensures
            r == (NumberAttributes { speed, ..self }),
    {
        NumberAttributes { speed, ..self }
    }
}

/// Whether a color editor shows and edits the alpha channel.
#[derive(Clone, Copy, Debug, PartialEq, Eq, Structural)]
pub struct ColorAttributes {
    pub alpha: bool,
}

impl Default for ColorAttributes {
    fn default() -> (r: ColorAttributes)
        ensures
            !r.alpha,
    {
        ColorAttributes { alpha: false }
    }
}

/// Policy of an editor for an optional value. `replacement` is what the
/// replacement factory produced for this frame: an absent value may be
/// created from it when there is one. A present value may be cleared when
/// `deletable`, and is otherwise edited with `inner`.
#[derive(Clone, Copy, Debug, PartialEq, Eq)]
pub struct OptionAttributes<T, A> {
    pub replacement: Option<T>,
    pub deletable: bool,
    pub inner: A,
}

impl<T, A> OptionAttributes<T, A> {
    /// No replacement, deletable, the inner value edited with `inner`.
    pub fn with_inner(inner: A) -> (r: OptionAttributes<T, A>)
        ensures
            r.replacement == None::<T>,
            r.deletable,
            r.inner == inner,
    {
        OptionAttributes { replacement: None, deletable: true, inner }
    }

    /// The same policy, with `replacement` offered for an absent value.
    pub fn replaceable_by(self, replacement: T) -> (r: OptionAttributes<T, A>)
        ensures
            r.replacement == Some(replacement),
            r.deletable == self.deletable,
            r.inner == self.inner,
    {
        OptionAttributes { replacement: Some(replacement), deletable: self.deletable, inner: self.inner }
    }

    /// The same policy, with clearing allowed or not.
    pub fn deletable(self, deletable: bool) -> (r: OptionAttributes<T, A>)
        ensures
            r.replacement == self.replacement,
            r.deletable == deletable,
            r.inner == self.inner,
    {
        OptionAttributes { replacement: self.replacement, deletable, inner: self.inner }
    }
}

} // verus!

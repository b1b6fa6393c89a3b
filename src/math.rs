//! Vectors, rotations and matrices: each component is a child widget.
use vstd::prelude::*;
use crate::attributes::NumberAttributes;
use crate::context::{child, Context};
use crate::input::{Input, Value};
use crate::inspect::Inspectable;
use crate::scalar::{Scalar, ONE_BITS, ZERO_BITS};

verus! {

#[derive(Clone, Copy, Debug, PartialEq, Eq, Structural)]
pub struct Vec3 {
    pub x: Scalar,
    pub y: Scalar,
    pub z: Scalar,
}

#[derive(Clone, Copy, Debug, PartialEq, Eq, Structural)]
pub struct Vec4 {
    pub x: Scalar,
    pub y: Scalar,
    pub z: Scalar,
    pub w: Scalar,
}

/// A rotation quaternion. Its components are edited without bounds; keeping
/// it of unit length is up to whoever owns the arithmetic.
#[derive(Clone, Copy, Debug, PartialEq, Eq, Structural)]
pub struct Quat {
    pub x: Scalar,
    pub y: Scalar,
    pub z: Scalar,
    pub w: Scalar,
}

/// A 3x3 matrix by column vectors.
#[derive(Clone, Copy, Debug, PartialEq, Eq, Structural)]
pub struct Mat3 {
    pub x_axis: Vec3,
    pub y_axis: Vec3,
    pub z_axis: Vec3,
}

/// A 4x4 matrix by column vectors.
#[derive(Clone, Copy, Debug, PartialEq, Eq, Structural)]
pub struct Mat4 {
    pub x_axis: Vec4,
    pub y_axis: Vec4,
    pub z_axis: Vec4,
    pub w_axis: Vec4,
}

impl Vec3 {
    pub fn new(x: Scalar, y: Scalar, z: Scalar) -> (r: Vec3)
        ensures
            r == (Vec3 { x, y, z }),
    {
        Vec3 { x, y, z }
    }

    pub open spec fn spec_splat(v: Scalar) -> Vec3 {
        Vec3 { x: v, y: v, z: v }
    }

    pub fn splat(v: Scalar) -> (r: Vec3)
        ensures
            r == Vec3::spec_splat(v),
    {
        Vec3 { x: v, y: v, z: v }
    }
}

impl Vec4 {
    pub fn new(x: Scalar, y: Scalar, z: Scalar, w: Scalar) -> (r: Vec4)
        ensures
            r == (Vec4 { x, y, z, w }),
    {
        Vec4 { x, y, z, w }
    }
}

impl Quat {
    /// The rotation by nothing: (0, 0, 0, 1).
    pub open spec fn spec_identity() -> Quat {
        Quat {
            x: Scalar { bits: ZERO_BITS },
            y: Scalar { bits: ZERO_BITS },
            z: Scalar { bits: ZERO_BITS },
            w: Scalar { bits: ONE_BITS },
        }
    }

    pub fn identity() -> (r: Quat)
        ensures
            r == Quat::spec_identity(),
    {
        Quat { x: Scalar::zero(), y: Scalar::zero(), z: Scalar::zero(), w: Scalar::one() }
    }
}

impl Inspectable for Vec3 {
    type Attributes = NumberAttributes;

    open spec fn drawn(
        self,
        attributes: NumberAttributes,
        id: Seq<u64>,
        input: Seq<(Seq<u64>, Value)>,
    ) -> Vec3 {
        Vec3 {
            x: self.x.drawn(attributes, child(id, 0), input),
            y: self.y.drawn(attributes, child(id, 1), input),
            z: self.z.drawn(attributes, child(id, 2), input),
        }
    }

    fn ui(&mut self, attributes: NumberAttributes, context: &Context, input: &Input) -> (changed:
        bool) {
        let cx = self.x.ui(attributes, &context.with_id(0), input);
        let cy = self.y.ui(attributes, &context.with_id(1), input);
        let cz = self.z.ui(attributes, &context.with_id(2), input);
        cx || cy || cz
    }

    proof fn lemma_redraw_settled(
        self,
        attributes: NumberAttributes,
        id: Seq<u64>,
        input: Seq<(Seq<u64>, Value)>,
    ) {
        self.x.lemma_redraw_settled(attributes, child(id, 0), input);
        self.y.lemma_redraw_settled(attributes, child(id, 1), input);
        self.z.lemma_redraw_settled(attributes, child(id, 2), input);
    }
}

impl Inspectable for Vec4 {
    type Attributes = NumberAttributes;

    open spec fn drawn(
        self,
        attributes: NumberAttributes,
        id: Seq<u64>,
        input: Seq<(Seq<u64>, Value)>,
    ) -> Vec4 {
        Vec4 {
            x: self.x.drawn(attributes, child(id, 0), input),
            y: self.y.drawn(attributes, child(id, 1), input),
            z: self.z.drawn(attributes, child(id, 2), input),
            w: self.w.drawn(attributes, child(id, 3), input),
        }
    }

    fn ui(&mut self, attributes: NumberAttributes, context: &Context, input: &Input) -> (changed:
        bool) {
        let cx = self.x.ui(attributes, &context.with_id(0), input);
        let cy = self.y.ui(attributes, &context.with_id(1), input);
        let cz = self.z.ui(attributes, &context.with_id(2), input);
        let cw = self.w.ui(attributes, &context.with_id(3), input);
        cx || cy || cz || cw
    }

    proof fn lemma_redraw_settled(
        self,
        attributes: NumberAttributes,
        id: Seq<u64>,
        input: Seq<(Seq<u64>, Value)>,
    ) {
        self.x.lemma_redraw_settled(attributes, child(id, 0), input);
        self.y.lemma_redraw_settled(attributes, child(id, 1), input);
        self.z.lemma_redraw_settled(attributes, child(id, 2), input);
        self.w.lemma_redraw_settled(attributes, child(id, 3), input);
    }
}

impl Inspectable for Quat {
    type Attributes = ();

    open spec fn drawn(self, attributes: (), id: Seq<u64>, input: Seq<(Seq<u64>, Value)>) -> Quat {
        let a = NumberAttributes::unbounded();
        Quat {
            x: self.x.drawn(a, child(id, 0), input),
            y: self.y.drawn(a, child(id, 1), input),
            z: self.z.drawn(a, child(id, 2), input),
            w: self.w.drawn(a, child(id, 3), input),
        }
    }

    fn ui(&mut self, attributes: (), context: &Context, input: &Input) -> (changed: bool) {
        let cx = self.x.ui(NumberAttributes::default(), &context.with_id(0), input);
        let cy = self.y.ui(NumberAttributes::default(), &context.with_id(1), input);
        let cz = self.z.ui(NumberAttributes::default(), &context.with_id(2), input);
        let cw = self.w.ui(NumberAttributes::default(), &context.with_id(3), input);
        cx || cy || cz || cw
    }

    proof fn lemma_redraw_settled(
        self,
        attributes: (),
        id: Seq<u64>,
        input: Seq<(Seq<u64>, Value)>,
    ) {
        let a = NumberAttributes::unbounded();
        self.x.lemma_redraw_settled(a, child(id, 0), input);
        self.y.lemma_redraw_settled(a, child(id, 1), input);
        self.z.lemma_redraw_settled(a, child(id, 2), input);
        self.w.lemma_redraw_settled(a, child(id, 3), input);
    }
}

impl Inspectable for Mat3 {
    type Attributes = ();

    open spec fn drawn(self, attributes: (), id: Seq<u64>, input: Seq<(Seq<u64>, Value)>) -> Mat3 {
        let a = NumberAttributes::unbounded();
        Mat3 {
            x_axis: self.x_axis.drawn(a, child(id, 0), input),
            y_axis: self.y_axis.drawn(a, child(id, 1), input),
            z_axis: self.z_axis.drawn(a, child(id, 2), input),
        }
    }

    fn ui(&mut self, attributes: (), context: &Context, input: &Input) -> (changed: bool) {
        let cx = self.x_axis.ui(NumberAttributes::default(), &context.with_id(0), input);
        let cy = self.y_axis.ui(NumberAttributes::default(), &context.with_id(1), input);
        let cz = self.z_axis.ui(NumberAttributes::default(), &context.with_id(2), input);
        cx || cy || cz
    }

    proof fn lemma_redraw_settled(
        self,
        attributes: (),
        id: Seq<u64>,
        input: Seq<(Seq<u64>, Value)>,
    ) {
        let a = NumberAttributes::unbounded();
        self.x_axis.lemma_redraw_settled(a, child(id, 0), input);
        self.y_axis.lemma_redraw_settled(a, child(id, 1), input);
        self.z_axis.lemma_redraw_settled(a, child(id, 2), input);
    }
}

impl Inspectable for Mat4 {
    type Attributes = ();

    open spec fn drawn(self, attributes: (), id: Seq<u64>, input: Seq<(Seq<u64>, Value)>) -> Mat4 {
        let a = NumberAttributes::unbounded();
        Mat4 {
            x_axis: self.x_axis.drawn(a, child(id, 0), input),
            y_axis: self.y_axis.drawn(a, child(id, 1), input),
            z_axis: self.z_axis.drawn(a, child(id, 2), input),
            w_axis: self.w_axis.drawn(a, child(id, 3), input),
        }
    }

    fn ui(&mut self, attributes: (), context: &Context, input: &Input) -> (changed: bool) {
        let cx = self.x_axis.ui(NumberAttributes::default(), &context.with_id(0), input);
        let cy = self.y_axis.ui(NumberAttributes::default(), &context.with_id(1), input);
        let cz = self.z_axis.ui(NumberAttributes::default(), &context.with_id(2), input);
        let cw = self.w_axis.ui(NumberAttributes::default(), &context.with_id(3), input);
        cx || cy || cz || cw
    }

    proof fn lemma_redraw_settled(
        self,
        attributes: (),
        id: Seq<u64>,
        input: Seq<(Seq<u64>, Value)>,
    ) {
        let a = NumberAttributes::unbounded();
        self.x_axis.lemma_redraw_settled(a, child(id, 0), input);
        self.y_axis.lemma_redraw_settled(a, child(id, 1), input);
        self.z_axis.lemma_redraw_settled(a, child(id, 2), input);
        self.w_axis.lemma_redraw_settled(a, child(id, 3), input);
    }
}

} // verus!

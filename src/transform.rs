//! Spatial transforms: translation, rotation and scale rows.
use vstd::prelude::*;
use crate::attributes::NumberAttributes;
use crate::context::{child, Context};
use crate::input::{edit_at, Input, Value};
use crate::inspect::{edited_number, Inspectable};
use crate::math::{Quat, Vec3};
use crate::scalar::{is_nan, lemma_clamped_not_negative, less, Scalar, ZERO_BITS};

verus! {

/// Discriminators of the three rows below a transform's identity.
pub const TRANSLATION_ROW: u64 = 0;

pub const ROTATION_ROW: u64 = 1;

pub const SCALE_ROW: u64 = 2;

/// A 3D affine transform, drawn as three rows. The scale row keeps each
/// component at or above zero. Bringing the rotation back to unit length is
/// float arithmetic, done by whoever owns it after the draw.
#[derive(Clone, Copy, Debug, PartialEq, Eq, Structural)]
pub struct Transform {
    pub translation: Vec3,
    pub rotation: Quat,
    pub scale: Vec3,
}

/// A transform derived from a primary one and its ancestry.
#[derive(Clone, Copy, Debug, PartialEq, Eq, Structural)]
pub struct GlobalTransform {
    pub translation: Vec3,
    pub rotation: Quat,
    pub scale: Vec3,
}

/// Scale is edited component-wise at or above zero.
pub open spec fn scale_attributes() -> NumberAttributes {
    NumberAttributes::spec_positive()
}

impl Transform {
    /// No translation, no rotation, unit scale.
    pub fn identity() -> (r: Transform)
        ensures
            r.translation == Vec3::spec_splat(Scalar { bits: ZERO_BITS }),
            r.rotation == Quat::spec_identity(),
            r.scale == Vec3::spec_splat(Scalar { bits: crate::scalar::ONE_BITS }),
    {
        Transform {
            translation: Vec3::splat(Scalar::zero()),
            rotation: Quat::identity(),
            scale: Vec3::splat(Scalar::one()),
        }
    }
}

impl Inspectable for Transform {
    type Attributes = ();

    open spec fn drawn(
        self,
        attributes: (),
        id: Seq<u64>,
        input: Seq<(Seq<u64>, Value)>,
    ) -> Transform {
        Transform {
            translation: self.translation.drawn(
                NumberAttributes::unbounded(),
                child(id, TRANSLATION_ROW),
                input,
            ),
            rotation: self.rotation.drawn((), child(id, ROTATION_ROW), input),
            scale: self.scale.drawn(scale_attributes(), child(id, SCALE_ROW), input),
        }
    }

    fn ui(&mut self, attributes: (), context: &Context, input: &Input) -> (changed: bool) {
        let ct = self.translation.ui(
            NumberAttributes::default(),
            &context.with_id(TRANSLATION_ROW),
            input,
        );
        let cr = self.rotation.ui((), &context.with_id(ROTATION_ROW), input);
        let cs = self.scale.ui(NumberAttributes::positive(), &context.with_id(SCALE_ROW), input);
        ct || cr || cs
    }

    proof fn lemma_redraw_settled(
        self,
        attributes: (),
        id: Seq<u64>,
        input: Seq<(Seq<u64>, Value)>,
    ) {
        self.translation.lemma_redraw_settled(
            NumberAttributes::unbounded(),
            child(id, TRANSLATION_ROW),
            input,
        );
        self.rotation.lemma_redraw_settled((), child(id, ROTATION_ROW), input);
        self.scale.lemma_redraw_settled(scale_attributes(), child(id, SCALE_ROW), input);
    }
}

impl GlobalTransform {
    /// The primary transform with the same translation, rotation and scale.
    pub open spec fn spec_as_transform(self) -> Transform {
        Transform { translation: self.translation, rotation: self.rotation, scale: self.scale }
    }

    pub open spec fn spec_from_transform(t: Transform) -> GlobalTransform {
        GlobalTransform { translation: t.translation, rotation: t.rotation, scale: t.scale }
    }
}

impl Inspectable for GlobalTransform {
    type Attributes = ();

    open spec fn drawn(
        self,
        attributes: (),
        id: Seq<u64>,
        input: Seq<(Seq<u64>, Value)>,
    ) -> GlobalTransform {
        GlobalTransform::spec_from_transform(self.spec_as_transform().drawn((), id, input))
    }

    fn ui(&mut self, attributes: (), context: &Context, input: &Input) -> (changed: bool) {
        let mut transform = Transform {
            translation: self.translation,
            rotation: self.rotation,
            scale: self.scale,
        };
        let changed = transform.ui(attributes, context, input);
        *self = GlobalTransform {
            translation: transform.translation,
            rotation: transform.rotation,
            scale: transform.scale,
        };
        changed
    }

    proof fn lemma_redraw_settled(
        self,
        attributes: (),
        id: Seq<u64>,
        input: Seq<(Seq<u64>, Value)>,
    ) {
        self.spec_as_transform().lemma_redraw_settled((), id, input);
    }
}

/// Every row is drawn whatever the other rows did, and the transform changes
/// exactly when one of its rows does.
pub proof fn lemma_transform_rows(t: Transform, id: Seq<u64>, input: Seq<(Seq<u64>, Value)>)
    ensures
        t.drawn((), id, input).translation == t.translation.drawn(
            NumberAttributes::unbounded(),
            child(id, TRANSLATION_ROW),
            input,
        ),
        t.drawn((), id, input).rotation == t.rotation.drawn((), child(id, ROTATION_ROW), input),
        t.drawn((), id, input).scale == t.scale.drawn(
            scale_attributes(),
            child(id, SCALE_ROW),
            input,
        ),
        t.drawn((), id, input) != t <==> (t.drawn((), id, input).translation != t.translation
            || t.drawn((), id, input).rotation != t.rotation || t.drawn((), id, input).scale
            != t.scale),
{
}

/// After a draw every scale component is a number and none is below zero,
/// whatever the input.
pub proof fn lemma_scale_not_negative(t: Transform, id: Seq<u64>, input: Seq<(Seq<u64>, Value)>)
    ensures
        !is_nan(t.drawn((), id, input).scale.x.bits),
        !is_nan(t.drawn((), id, input).scale.y.bits),
        !is_nan(t.drawn((), id, input).scale.z.bits),
        !less(t.drawn((), id, input).scale.x.bits, ZERO_BITS),
        !less(t.drawn((), id, input).scale.y.bits, ZERO_BITS),
        !less(t.drawn((), id, input).scale.z.bits, ZERO_BITS),
{
    let a = scale_attributes();
    lemma_clamped_not_negative(edited_number(t.scale.x, edit_at(input, child(child(id, SCALE_ROW), 0))), a.max);
    lemma_clamped_not_negative(edited_number(t.scale.y, edit_at(input, child(child(id, SCALE_ROW), 1))), a.max);
    lemma_clamped_not_negative(edited_number(t.scale.z, edit_at(input, child(child(id, SCALE_ROW), 2))), a.max);
}

} // verus!

//! A point light: each field a row below the light's identity.
use vstd::prelude::*;
use crate::attributes::{ColorAttributes, NumberAttributes};
use crate::color::Color;
use crate::context::{child, Context};
use crate::input::{Input, Value};
use crate::inspect::Inspectable;
use crate::scalar::{Scalar, ONE_BITS};

verus! {

#[derive(Clone, Copy, Debug, PartialEq, Eq, Structural)]
pub struct PointLight {
    pub color: Color,
    pub intensity: Scalar,
    pub range: Scalar,
    pub radius: Scalar,
}

/// At least zero, dragged one unit per step.
pub open spec fn intensity_attributes() -> NumberAttributes {
    NumberAttributes { speed: Scalar { bits: ONE_BITS }, ..NumberAttributes::spec_positive() }
}

impl Inspectable for PointLight {
    type Attributes = ();

    open spec fn drawn(
        self,
        attributes: (),
        id: Seq<u64>,
        input: Seq<(Seq<u64>, Value)>,
    ) -> PointLight {
        PointLight {
            color: self.color.drawn(ColorAttributes { alpha: false }, child(id, 0), input),
            intensity: self.intensity.drawn(intensity_attributes(), child(id, 1), input),
            range: self.range.drawn(NumberAttributes::spec_positive(), child(id, 2), input),
            radius: self.radius.drawn(NumberAttributes::spec_positive(), child(id, 3), input),
        }
    }

    fn ui(&mut self, attributes: (), context: &Context, input: &Input) -> (changed: bool) {
        let intensity = NumberAttributes::positive().speed(Scalar::one());
        let c0 = self.color.ui(ColorAttributes::default(), &context.with_id(0), input);
        let c1 = self.intensity.ui(intensity, &context.with_id(1), input);
        let c2 = self.range.ui(NumberAttributes::positive(), &context.with_id(2), input);
        let c3 = self.radius.ui(NumberAttributes::positive(), &context.with_id(3), input);
        c0 || c1 || c2 || c3
    }

    proof fn lemma_redraw_settled(
        self,
        attributes: (),
        id: Seq<u64>,
        input: Seq<(Seq<u64>, Value)>,
    ) {
        self.color.lemma_redraw_settled(ColorAttributes { alpha: false }, child(id, 0), input);
        self.intensity.lemma_redraw_settled(intensity_attributes(), child(id, 1), input);
        self.range.lemma_redraw_settled(NumberAttributes::spec_positive(), child(id, 2), input);
        self.radius.lemma_redraw_settled(NumberAttributes::spec_positive(), child(id, 3), input);
    }
}

} // verus!

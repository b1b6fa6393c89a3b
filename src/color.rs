//! Colors, edited as one picker whose channels are child widgets.
use vstd::prelude::*;
use crate::attributes::ColorAttributes;
use crate::context::{child, Context};
use crate::input::{edit_at, lemma_no_edit, Input, Value};
use crate::inspect::{edited_number, Inspectable};
use crate::scalar::Scalar;

verus! {

/// A color by red, green, blue and alpha channels.
#[derive(Clone, Copy, Debug, PartialEq, Eq, Structural)]
pub struct Color {
    pub r: Scalar,
    pub g: Scalar,
    pub b: Scalar,
    pub a: Scalar,
}

/// The channel `v` of the picker `id` after the user's edit, if any.
pub open spec fn edited_channel(
    v: Scalar,
    id: Seq<u64>,
    channel: u64,
    input: Seq<(Seq<u64>, Value)>,
) -> Scalar {
    edited_number(v, edit_at(input, child(id, channel)))
}

impl Color {
    pub fn rgba(r: Scalar, g: Scalar, b: Scalar, a: Scalar) -> (c: Color)
        ensures
            c == (Color { r, g, b, a }),
    {
        Color { r, g, b, a }
    }
}

/// Reads the edit of one channel of the picker `context`.
fn channel_ui(v: Scalar, context: &Context, channel: u64, input: &Input) -> (r: Scalar)
    ensures
        r == edited_channel(v, context@, channel, input@),
{
    let key = context.with_id(channel).id();
    match input.get(&key) {
        Some(Value::Number(b)) => Scalar { bits: b },
        _ => v,
    }
}

impl Inspectable for Color {
    type Attributes = ColorAttributes;

    /// With the alpha attribute off, the picker shows red, green and blue
    /// only, and alpha passes through.
    open spec fn drawn(
        self,
        attributes: ColorAttributes,
        id: Seq<u64>,
        input: Seq<(Seq<u64>, Value)>,
    ) -> Color {
        Color {
            r: edited_channel(self.r, id, 0, input),
            g: edited_channel(self.g, id, 1, input),
            b: edited_channel(self.b, id, 2, input),
            a: if attributes.alpha {
                edited_channel(self.a, id, 3, input)
            } else {
                self.a
            },
        }
    }

    fn ui(&mut self, attributes: ColorAttributes, context: &Context, input: &Input) -> (changed:
        bool) {
        let old = *self;
        let r = channel_ui(old.r, context, 0, input);
        let g = channel_ui(old.g, context, 1, input);
        let b = channel_ui(old.b, context, 2, input);
        let a = if attributes.alpha {
            channel_ui(old.a, context, 3, input)
        } else {
            old.a
        };
        *self = Color { r, g, b, a };
        r.bits != old.r.bits || g.bits != old.g.bits || b.bits != old.b.bits || a.bits
            != old.a.bits
    }

    proof fn lemma_redraw_settled(
        self,
        attributes: ColorAttributes,
        id: Seq<u64>,
        input: Seq<(Seq<u64>, Value)>,
    ) {
        lemma_no_edit(child(id, 0));
        lemma_no_edit(child(id, 1));
        lemma_no_edit(child(id, 2));
        lemma_no_edit(child(id, 3));
    }
}

/// With the alpha attribute off, alpha is kept whatever the user did.
pub proof fn lemma_alpha_kept(
    c: Color,
    attributes: ColorAttributes,
    id: Seq<u64>,
    input: Seq<(Seq<u64>, Value)>,
)
    requires
        !attributes.alpha,
    ensures
        c.drawn(attributes, id, input).a == c.a,
{
}

} // verus!

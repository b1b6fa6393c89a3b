//! The capability contract; its leaf kinds, optional values and indirection.
use vstd::prelude::*;
use crate::attributes::{NumberAttributes, OptionAttributes};
use crate::context::{child, Context};
use crate::input::{edit_at, lemma_no_edit, Input, Value};
use crate::scalar::{clamped, lemma_clamped_stable, Scalar};

verus! {

/// A type whose values can be drawn and edited in one immediate-mode pass.
///
/// `drawn` is what one draw call makes of a value, given the caller's
/// attributes, the identity of the widget and the user's edits of the frame.
/// `ui` performs that call and reports whether the value changed.
pub trait Inspectable: Sized {
    type Attributes;

    spec fn drawn(
        self,
        attributes: Self::Attributes,
        id: Seq<u64>,
        input: Seq<(Seq<u64>, Value)>,
    ) -> Self;

    fn ui(&mut self, attributes: Self::Attributes, context: &Context, input: &Input) -> (changed:
        bool)
        ensures
            *final(self) == old(self).drawn(attributes, context@, input@),
            changed == (*final(self) != *old(self)),
    ;

    /// Drawing again in a frame without interaction reports no change and
    /// leaves the value exactly as the previous draw left it.
    proof fn lemma_redraw_settled(
        self,
        attributes: Self::Attributes,
        id: Seq<u64>,
        input: Seq<(Seq<u64>, Value)>,
    )
        ensures
            self.drawn(attributes, id, input).drawn(attributes, id, Seq::empty()) == self.drawn(
                attributes,
                id,
                input,
            ),
    ;
}

/// Draws `value` as the top-level inspection seeded by `seed`.
pub fn inspect<T: Inspectable>(
    value: &mut T,
    attributes: T::Attributes,
    seed: u64,
    input: &Input,
) -> (changed: bool)
    ensures
        *final(value) == old(value).drawn(attributes, seq![seed], input@),
        changed == (*final(value) != *old(value)),
{
    let context = Context::root(seed);
    value.ui(attributes, &context, input)
}

/// The number the widget holds after the user's edit, if any.
pub open spec fn edited_number(v: Scalar, e: Option<Value>) -> Scalar {
    match e {
        Some(Value::Number(b)) => Scalar { bits: b },
        _ => v,
    }
}

impl Inspectable for Scalar {
    type Attributes = NumberAttributes;

    open spec fn drawn(
        self,
        attributes: NumberAttributes,
        id: Seq<u64>,
        input: Seq<(Seq<u64>, Value)>,
    ) -> Scalar {
        clamped(edited_number(self, edit_at(input, id)), attributes.min, attributes.max)
    }

    fn ui(&mut self, attributes: NumberAttributes, context: &Context, input: &Input) -> (changed:
        bool) {
        let key = context.id();
        let proposed = match input.get(&key) {
            Some(Value::Number(b)) => Scalar { bits: b },
            _ => *self,
        };
        let next = proposed.clamp_to(attributes.min, attributes.max);
        let changed = next.bits != self.bits;
        *self = next;
        changed
    }

    proof fn lemma_redraw_settled(
        self,
        attributes: NumberAttributes,
        id: Seq<u64>,
        input: Seq<(Seq<u64>, Value)>,
    ) {
        lemma_no_edit(id);
        lemma_clamped_stable(
            edited_number(self, edit_at(input, id)),
            attributes.min,
            attributes.max,
        );
    }
}

impl Inspectable for bool {
    type Attributes = ();

    open spec fn drawn(self, attributes: (), id: Seq<u64>, input: Seq<(Seq<u64>, Value)>) -> bool {
        match edit_at(input, id) {
            Some(Value::Flag(b)) => b,
            _ => self,
        }
    }

    fn ui(&mut self, attributes: (), context: &Context, input: &Input) -> (changed: bool) {
        let key = context.id();
        let next = match input.get(&key) {
            Some(Value::Flag(b)) => b,
            _ => *self,
        };
        let changed = next != *self;
        *self = next;
        changed
    }

    proof fn lemma_redraw_settled(
        self,
        attributes: (),
        id: Seq<u64>,
        input: Seq<(Seq<u64>, Value)>,
    ) {
        lemma_no_edit(id);
    }
}

/// A reference to a loadable asset, by its identifier. Shown, never edited.
#[derive(Clone, Copy, Debug, PartialEq, Eq, Structural)]
pub struct Handle {
    pub id: u64,
}

impl Inspectable for Handle {
    type Attributes = ();

    open spec fn drawn(self, attributes: (), id: Seq<u64>, input: Seq<(Seq<u64>, Value)>) -> Handle {
        self
    }

    fn ui(&mut self, attributes: (), context: &Context, input: &Input) -> (changed: bool) {
        false
    }

    proof fn lemma_redraw_settled(
        self,
        attributes: (),
        id: Seq<u64>,
        input: Seq<(Seq<u64>, Value)>,
    ) {
    }
}

/// An optional value: a present one is cleared or drawn below discriminator
/// zero; an absent one may be created from the replacement, which is then
/// drawn in the same pass.
impl<T: Inspectable> Inspectable for Option<T> {
    type Attributes = OptionAttributes<T, T::Attributes>;

    open spec fn drawn(
        self,
        attributes: OptionAttributes<T, T::Attributes>,
        id: Seq<u64>,
        input: Seq<(Seq<u64>, Value)>,
    ) -> Option<T> {
        let e = edit_at(input, id);
        match self {
            Some(v) => if e == Some(Value::Clear) && attributes.deletable {
                None
            } else {
                Some(v.drawn(attributes.inner, child(id, 0), input))
            },
            None => if e == Some(Value::Create) {
                match attributes.replacement {
                    Some(r) => Some(r.drawn(attributes.inner, child(id, 0), input)),
                    None => None,
                }
            } else {
                None
            },
        }
    }

    fn ui(
        &mut self,
        attributes: OptionAttributes<T, T::Attributes>,
        context: &Context,
        input: &Input,
    ) -> (changed: bool) {
        let e = input.get(&context.id());
        let clear = match e {
            Some(Value::Clear) => true,
            _ => false,
        };
        let create = match e {
            Some(Value::Create) => true,
            _ => false,
        };
        let OptionAttributes { replacement, deletable, inner } = attributes;
        let present = match self {
            Some(_) => true,
            None => false,
        };
        if present {
            if clear && deletable {
                *self = None;
                true
            } else {
                match self {
                    Some(v) => v.ui(inner, &context.with_id(0), input),
                    None => false,
                }
            }
        } else if create {
            match replacement {
                Some(r) => {
                    let mut r = r;
                    r.ui(inner, &context.with_id(0), input);
                    *self = Some(r);
                    true
                },
                None => false,
            }
        } else {
            false
        }
    }

    proof fn lemma_redraw_settled(
        self,
        attributes: OptionAttributes<T, T::Attributes>,
        id: Seq<u64>,
        input: Seq<(Seq<u64>, Value)>,
    ) {
        lemma_no_edit(id);
        match self {
            Some(v) => v.lemma_redraw_settled(attributes.inner, child(id, 0), input),
            None => match attributes.replacement {
                Some(r) => r.lemma_redraw_settled(attributes.inner, child(id, 0), input),
                None => {},
            },
        }
    }
}

/// A display name: shown, never edited.
#[derive(Clone, Debug, PartialEq, Eq)]
pub struct Name {
    pub text: String,
}

impl Name {
    pub fn new(text: String) -> (r: Name)
        ensures
            r.text@ == text@,
    {
        Name { text }
    }

    pub fn as_str(&self) -> (r: &str)
        ensures
            r@ == self.text@,
    {
        self.text.as_str()
    }
}

impl Inspectable for Name {
    type Attributes = ();

    open spec fn drawn(self, attributes: (), id: Seq<u64>, input: Seq<(Seq<u64>, Value)>) -> Name {
        self
    }

    fn ui(&mut self, attributes: (), context: &Context, input: &Input) -> (changed: bool) {
        false
    }

    proof fn lemma_redraw_settled(
        self,
        attributes: (),
        id: Seq<u64>,
        input: Seq<(Seq<u64>, Value)>,
    ) {
    }
}

/// A value edited through an indirection draws as the value itself: same
/// attributes, same identity, same result.
impl<T: Inspectable> Inspectable for Box<T> {
    type Attributes = T::Attributes;

    open spec fn drawn(
        self,
        attributes: T::Attributes,
        id: Seq<u64>,
        input: Seq<(Seq<u64>, Value)>,
    ) -> Box<T> {
        Box::new((*self).drawn(attributes, id, input))
    }

    fn ui(&mut self, attributes: T::Attributes, context: &Context, input: &Input) -> (changed:
        bool) {
        (**self).ui(attributes, context, input)
    }

    proof fn lemma_redraw_settled(
        self,
        attributes: T::Attributes,
        id: Seq<u64>,
        input: Seq<(Seq<u64>, Value)>,
    ) {
        (*self).lemma_redraw_settled(attributes, id, input);
    }
}

} // verus!

//! What the user did to the widgets of one frame, keyed by widget identity.
use vstd::prelude::*;
use crate::context::{copy_path, same_path};

verus! {

/// One widget's outcome: the value the user left in it.
#[derive(Clone, Copy, Debug, PartialEq, Eq, Structural)]
pub enum Value {
    /// A numeric widget now holds this single-precision bit pattern.
    Number(u32),
    /// A check box now holds this state.
    Flag(bool),
    /// The user asked to empty an optional value.
    Clear,
    /// The user asked to fill an absent optional value.
    Create,
}

/// An edit of the widget at `path`.
pub struct Edit {
    pub path: Vec<u64>,
    pub value: Value,
}

/// The edits of one frame; the first edit of a widget is the one that counts.
pub struct Input {
    pub edits: Vec<Edit>,
}

/// The edit of `key` among `s` from position `i` on.
pub open spec fn edit_from(s: Seq<(Seq<u64>, Value)>, key: Seq<u64>, i: nat) -> Option<Value>
    decreases s.len() - i,
{
    if i >= s.len() {
        None
    } else if s[i as int].0 == key {
        Some(s[i as int].1)
    } else {
        edit_from(s, key, i + 1)
    }
}

/// The edit that the widget `key` received.
pub open spec fn edit_at(s: Seq<(Seq<u64>, Value)>, key: Seq<u64>) -> Option<Value> {
    edit_from(s, key, 0)
}

/// A frame without interaction leaves every widget alone.
pub proof fn lemma_no_edit(key: Seq<u64>)
    ensures
        edit_at(Seq::empty(), key) == None::<Value>,
{
}

impl View for Input {
    type V = Seq<(Seq<u64>, Value)>;

    open spec fn view(&self) -> Seq<(Seq<u64>, Value)> {
        self.edits@.map_values(|e: Edit| (e.path@, e.value))
    }
}

impl Input {
    /// A frame in which the user did nothing.
    pub fn none() -> (r: Input)
        ensures
            r@ == Seq::<(Seq<u64>, Value)>::empty(),
    {
        let r = Input { edits: Vec::new() };
        assert(r@ =~= Seq::<(Seq<u64>, Value)>::empty());
        r
    }

    /// Records that the widget `path` now holds `value`.
    pub fn push(&mut self, path: &Vec<u64>, value: Value)
        ensures
            final(self)@ == old(self)@.push((path@, value)),
    {
        let p = copy_path(path);
        self.edits.push(Edit { path: p, value });
        assert(self@ =~= old(self)@.push((path@, value)));
    }

    /// The edit of the widget `key`, if it got one.
    pub fn get(&self, key: &Vec<u64>) -> (r: Option<Value>)
        ensures
            r == edit_at(self@, key@),
    {
        let mut i: usize = 0;
        while i < self.edits.len()
            invariant
                i <= self.edits.len(),
                edit_at(self@, key@) == edit_from(self@, key@, i as nat),
            decreases self.edits.len() - i,
        {
            let e = &self.edits[i];
            if same_path(&e.path, key) {
                return Some(e.value);
            }
            i = i + 1;
        }
        None
    }
}

} // verus!

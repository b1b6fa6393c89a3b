//! Hierarchical widget identities.
//!
//! An identity is the path of discriminators from the root of one
//! inspection down to a widget. Deriving a child appends a discriminator,
//! so the same parent and discriminator always give the same child, and
//! siblings with distinct discriminators never collide.
use vstd::prelude::*;

verus! {

/// The identity derived from `parent` for discriminator `d`.
pub open spec fn child(parent: Seq<u64>, d: u64) -> Seq<u64> {
    parent.push(d)
}

/// A copy of a path.
pub fn copy_path(v: &Vec<u64>) -> (r: Vec<u64>)
    ensures
        r@ == v@,
{
    let mut r: Vec<u64> = Vec::new();
    let mut i: usize = 0;
    while i < v.len()
        invariant
            i <= v.len(),
            r@ == v@.subrange(0, i as int),
        decreases v.len() - i,
    {
        r.push(v[i]);
        i = i + 1;
    }
    assert(r@ =~= v@);
    r
}

/// Whether two paths are equal.
pub fn same_path(a: &Vec<u64>, b: &Vec<u64>) -> (r: bool)
    ensures
        r == (a@ == b@),
{
    if a.len() != b.len() {
        return false;
    }
    let mut i: usize = 0;
    while i < a.len()
        invariant
            i <= a.len(),
            a.len() == b.len(),
            a@.subrange(0, i as int) == b@.subrange(0, i as int),
        decreases a.len() - i,
    {
        if a[i] != b[i] {
            assert(a@[i as int] != b@[i as int]);
            return false;
        }
        assert(a@.subrange(0, i + 1) =~= a@.subrange(0, i as int).push(a@[i as int]));
        assert(b@.subrange(0, i + 1) =~= b@.subrange(0, i as int).push(b@[i as int]));
        i = i + 1;
    }
    assert(a@ =~= a@.subrange(0, a.len() as int));
    assert(b@ =~= b@.subrange(0, b.len() as int));
    true
}

/// The identity context threaded through every draw call.
pub struct Context {
    path: Vec<u64>,
}

impl View for Context {
    type V = Seq<u64>;

    closed spec fn view(&self) -> Seq<u64> {
        self.path@
    }
}

impl Context {
    /// The context of one top-level inspection, seeded by the caller.
    pub fn root(seed: u64) -> (r: Context)
        ensures
            r@ == seq![seed],
    {
        let mut path: Vec<u64> = Vec::new();
        path.push(seed);
        Context { path }
    }

    /// The context of a field or element `id` below `self`.
    pub fn with_id(&self, id: u64) -> (r: Context)
        ensures
            r@ == child(self@, id),
    {
        let mut path = copy_path(&self.path);
        path.push(id);
        Context { path }
    }

    /// The key under which the toolkit keeps this widget's state.
    pub fn id(&self) -> (r: Vec<u64>)
        ensures
            r@ == self@,
    {
        copy_path(&self.path)
    }
}

/// Deriving from one parent: two children are the same identity exactly when
/// their discriminators are equal, and no child is its parent.
pub proof fn lemma_child_identity(parent: Seq<u64>, a: u64, b: u64)
    ensures
        child(parent, a) == child(parent, b) <==> a == b,
        child(parent, a) != parent,
{
    if child(parent, a) == child(parent, b) {
        assert(child(parent, a)[parent.len() as int] == a);
        assert(child(parent, b)[parent.len() as int] == b);
    }
    assert(child(parent, a).len() != parent.len());
}

} // verus!

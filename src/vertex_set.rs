use vstd::prelude::*;

verus! {

/// A set of vertex indices, kept in a `hashbrown::HashSet`.
#[verifier::external_body]
pub struct VertexSet {
    set: hashbrown::HashSet<usize>,
}

/// The vertex indices that `s` holds.
pub uninterp spec fn vertex_set_contents(s: VertexSet) -> Set<usize>;

impl VertexSet {
    /// Relies on `hashbrown::HashSet::new`: the set starts empty.
    #[verifier::external_body]
    pub(crate) fn new() -> (r: Self)
        ensures
            vertex_set_contents(r) == Set::<usize>::empty(),
    {
        VertexSet { set: hashbrown::HashSet::new() }
    }

    /// Relies on `hashbrown::HashSet::insert`: `v` is added and nothing else changes.
    #[verifier::external_body]
    pub(crate) fn insert(&mut self, v: usize)
        ensures
            vertex_set_contents(*final(self)) == vertex_set_contents(*old(self)).insert(v),
    {
        self.set.insert(v);
    }

    /// Relies on `hashbrown::HashSet::contains`: whether `v` is in the set.
    #[verifier::external_body]
    pub(crate) fn contains(&self, v: usize) -> (r: bool)
        ensures
            r == vertex_set_contents(*self).contains(v),
    {
        self.set.contains(&v)
    }
}

} // verus!

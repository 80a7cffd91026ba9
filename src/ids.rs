use vstd::prelude::*;

verus! {

/// Identifier of a changeset in the commit graph.
#[derive(Clone, Copy, Debug, PartialEq, Eq, Hash, Structural)]
pub struct ChangesetId(pub u64);

/// Identifier of a changeset in the Mercurial protocol.
#[derive(Clone, Copy, Debug, PartialEq, Eq, Hash, Structural)]
pub struct HgChangesetId(pub u64);

/// Identifier of a raw bundle kept for replay.
#[derive(Clone, Copy, Debug, PartialEq, Eq, Hash, Structural)]
pub struct RawBundle2Id(pub u64);

/// Name of a bookmark: a named, mutable pointer to a changeset.
#[derive(Debug)]
pub struct BookmarkName {
    name: String,
}

impl View for BookmarkName {
    type V = Seq<char>;

    closed spec fn view(&self) -> Seq<char> {
        self.name@
    }
}

impl BookmarkName {
    pub fn new(name: String) -> (r: BookmarkName)
        ensures
            r@ == name@,
    {
        BookmarkName { name }
    }

    pub fn as_str(&self) -> (r: &str)
        ensures
            r@ == self@,
    {
        self.name.as_str()
    }

    pub fn duplicate(&self) -> (r: BookmarkName)
        ensures
            r == *self,
    {
        BookmarkName { name: self.name.clone() }
    }
}

impl PartialEq for BookmarkName {
    fn eq(&self, other: &BookmarkName) -> (r: bool) {
        self.name == other.name
    }
}

impl vstd::std_specs::cmp::PartialEqSpecImpl for BookmarkName {
    open spec fn obeys_eq_spec() -> bool {
        true
    }

    open spec fn eq_spec(&self, other: &BookmarkName) -> bool {
        self@ == other@
    }
}

} // verus!

use vstd::prelude::*;

use crate::ids::{BookmarkName, ChangesetId, RawBundle2Id};

verus! {

/// Why a bookmark moved; recorded with every bookmark transition for audit
/// and replication.
#[derive(Clone, Copy, Debug, PartialEq, Eq, Structural)]
pub enum BookmarkUpdateReason {
    Push,
    Pushrebase,
    ManualMove,
}

/// A bookmark and the changeset it points to.
#[derive(Debug)]
pub struct BookmarkEntry {
    pub name: BookmarkName,
    pub target: ChangesetId,
}

/// One compare-and-swap transition of a bookmark, as written to storage
/// together with the changesets it introduces.
#[derive(Debug)]
pub struct BookmarkTransaction {
    pub name: BookmarkName,
    /// The value the bookmark must hold for the transaction to apply
    /// (`None`: the bookmark must not exist).
    pub expected: Option<ChangesetId>,
    /// The value to store (`None`: delete the bookmark).
    pub new: Option<ChangesetId>,
    pub reason: BookmarkUpdateReason,
    /// Replay metadata attached to the transition for downstream consumers.
    pub bundle_replay: Option<RawBundle2Id>,
    /// Changesets whose storage metadata is persisted with the transition.
    pub new_changesets: Vec<ChangesetId>,
}

/// What the bookmark update log keeps of an applied transition.
#[derive(Clone, Copy, Debug, PartialEq, Eq, Structural)]
pub struct BookmarkLogEntry {
    pub from: Option<ChangesetId>,
    pub to: Option<ChangesetId>,
    pub reason: BookmarkUpdateReason,
    pub bundle_replay: Option<RawBundle2Id>,
}

/// The bookmarks of a repository: unique names, each with its target.
struct BookmarkStore {
    bookmarks: Vec<BookmarkEntry>,
    bookmark_map: Ghost<Map<Seq<char>, ChangesetId>>,
}

impl BookmarkStore {
    /// Internal consistency: bookmark names are unique and the entries are
    /// exactly the bookmark map.
    spec fn wf(&self) -> bool {
        &&& forall|i: int, j: int|
            0 <= i < j < self.bookmarks@.len() ==> self.bookmarks@[i].name@
                != self.bookmarks@[j].name@
        &&& forall|i: int|
            0 <= i < self.bookmarks@.len() ==> #[trigger] self.bookmark_map@.contains_key(
                self.bookmarks@[i].name@,
            ) && self.bookmark_map@[self.bookmarks@[i].name@] == self.bookmarks@[i].target
        &&& forall|k: Seq<char>|
            #[trigger] self.bookmark_map@.contains_key(k) ==> exists|i: int|
                0 <= i < self.bookmarks@.len() && self.bookmarks@[i].name@ == k
    }

    fn get(&self, name: &BookmarkName) -> (r: Option<ChangesetId>)
        requires
            self.wf(),
        ensures
            r == value_in(self.bookmark_map@, name@),
    {
        match self.find(name) {
            Some(i) => Some(self.bookmarks[i].target),
            None => None,
        }
    }

    fn find(&self, name: &BookmarkName) -> (r: Option<usize>)
        requires
            self.wf(),
        ensures
            match r {
                Some(i) => i < self.bookmarks@.len() && self.bookmarks@[i as int].name@ == name@,
                None => !self.bookmark_map@.contains_key(name@),
            },
    {
        let mut i: usize = 0;
        while i < self.bookmarks.len()
            invariant
                self.wf(),
                i <= self.bookmarks@.len(),
                forall|j: int| 0 <= j < i ==> self.bookmarks@[j].name@ != name@,
            decreases self.bookmarks@.len() - i,
        {
            if self.bookmarks[i].name == *name {
                return Some(i);
            }
            i = i + 1;
        }
        None
    }

    fn set(&mut self, name: BookmarkName, new: Option<ChangesetId>)
        requires
            old(self).wf(),
        ensures
            final(self).wf(),
            final(self).bookmark_map@ == map_after(old(self).bookmark_map@, name@, new),
    {
        let ghost k = name@;
        match self.find(&name) {
            Some(i) => {
                match new {
                    Some(v) => {
                        self.bookmarks.set(i, BookmarkEntry { name, target: v });
                        proof {
                            self.bookmark_map@ = self.bookmark_map@.insert(k, v);
                        }
                        assert forall|k2: Seq<char>| #[trigger]
                            self.bookmark_map@.contains_key(k2) implies exists|j: int|
                                0 <= j < self.bookmarks@.len() && self.bookmarks@[j].name@
                                    == k2 by {
                            if k2 != k {
                                let j = choose|j: int|
                                    0 <= j < old(self).bookmarks@.len()
                                        && old(self).bookmarks@[j].name@ == k2;
                                assert(self.bookmarks@[j].name@ == k2);
                            } else {
                                assert(self.bookmarks@[i as int].name@ == k2);
                            }
                        }
                    },
                    None => {
                        self.bookmarks.remove(i);
                        proof {
                            self.bookmark_map@ = self.bookmark_map@.remove(k);
                        }
                        assert forall|j: int|
                            0 <= j < self.bookmarks@.len() implies #[trigger] self.bookmark_map@.contains_key(
                                self.bookmarks@[j].name@,
                            ) && self.bookmark_map@[self.bookmarks@[j].name@]
                                == self.bookmarks@[j].target by {
                            if j < i {
                                assert(old(self).bookmarks@[j] == self.bookmarks@[j]);
                            } else {
                                assert(old(self).bookmarks@[j + 1] == self.bookmarks@[j]);
                            }
                        }
                        assert forall|k2: Seq<char>| #[trigger]
                            self.bookmark_map@.contains_key(k2) implies exists|j: int|
                                0 <= j < self.bookmarks@.len() && self.bookmarks@[j].name@
                                    == k2 by {
                            let j = choose|j: int|
                                0 <= j < old(self).bookmarks@.len()
                                    && old(self).bookmarks@[j].name@ == k2;
                            if j < i {
                                assert(self.bookmarks@[j].name@ == k2);
                            } else {
                                assert(self.bookmarks@[j - 1].name@ == k2);
                            }
                        }
                    },
                }
            },
            None => {
                match new {
                    Some(v) => {
                        self.bookmarks.push(BookmarkEntry { name, target: v });
                        proof {
                            self.bookmark_map@ = self.bookmark_map@.insert(k, v);
                        }
                        assert forall|k2: Seq<char>| #[trigger]
                            self.bookmark_map@.contains_key(k2) implies exists|j: int|
                                0 <= j < self.bookmarks@.len() && self.bookmarks@[j].name@
                                    == k2 by {
                            if k2 != k {
                                let j = choose|j: int|
                                    0 <= j < old(self).bookmarks@.len()
                                        && old(self).bookmarks@[j].name@ == k2;
                                assert(self.bookmarks@[j].name@ == k2);
                            } else {
                                assert(self.bookmarks@[old(self).bookmarks@.len() as int].name@
                                    == k2);
                            }
                        }
                    },
                    None => {
                        assert(self.bookmark_map@.remove(k) =~= self.bookmark_map@);
                    },
                }
            },
        }
    }

}

/// Storage of one repository: its bookmarks, the changesets known to the
/// commit graph, the changesets marked public, and the log of bookmark
/// transitions. Bookmark writes go through `commit_transaction` only, which
/// applies a transition atomically and only if the bookmark still holds the
/// expected value.
pub struct Repo {
    name: String,
    store: BookmarkStore,
    changesets: Vec<ChangesetId>,
    public: Vec<ChangesetId>,
    update_log: Vec<BookmarkLogEntry>,
}

/// The value a bookmark holds in a bookmark map, if any.
pub open spec fn value_in(m: Map<Seq<char>, ChangesetId>, k: Seq<char>) -> Option<ChangesetId> {
    if m.contains_key(k) {
        Some(m[k])
    } else {
        None
    }
}

/// The bookmark map after a transition to `new` (`None` removes the bookmark).
pub open spec fn map_after(
    m: Map<Seq<char>, ChangesetId>,
    k: Seq<char>,
    new: Option<ChangesetId>,
) -> Map<Seq<char>, ChangesetId> {
    match new {
        Some(v) => m.insert(k, v),
        None => m.remove(k),
    }
}

impl Repo {
    /// Internal consistency of the bookmark storage.
    pub closed spec fn wf(&self) -> bool {
        self.store.wf()
    }

    pub closed spec fn name_view(&self) -> Seq<char> {
        self.name@
    }

    /// Every bookmark and the changeset it points to.
    pub closed spec fn bookmarks(&self) -> Map<Seq<char>, ChangesetId> {
        self.store.bookmark_map@
    }

    /// The changesets stored in the commit graph, in the order they came.
    pub closed spec fn changesets(&self) -> Seq<ChangesetId> {
        self.changesets@
    }

    /// The changesets marked public, in the order they were marked.
    pub closed spec fn public(&self) -> Seq<ChangesetId> {
        self.public@
    }

    /// The applied bookmark transitions, oldest first.
    pub closed spec fn update_log(&self) -> Seq<BookmarkLogEntry> {
        self.update_log@
    }

    pub open spec fn stored(&self, k: Seq<char>) -> Option<ChangesetId> {
        value_in(self.bookmarks(), k)
    }

    /// An empty repository with the given name.
    pub fn new(name: String) -> (r: Repo)
        ensures
            r.wf(),
            r.name_view() == name@,
            r.bookmarks() == Map::<Seq<char>, ChangesetId>::empty(),
            r.changesets() == Seq::<ChangesetId>::empty(),
            r.public() == Seq::<ChangesetId>::empty(),
            r.update_log() == Seq::<BookmarkLogEntry>::empty(),
    {
        Repo {
            name,
            store: BookmarkStore { bookmarks: Vec::new(), bookmark_map: Ghost(Map::empty()) },
            changesets: Vec::new(),
            public: Vec::new(),
            update_log: Vec::new(),
        }
    }

    pub fn name(&self) -> (r: &str)
        ensures
            r@ == self.name_view(),
    {
        self.name.as_str()
    }

    /// The changeset a bookmark points to, if the bookmark exists.
    pub fn get_bookmark(&self, name: &BookmarkName) -> (r: Option<ChangesetId>)
        requires
            self.wf(),
        ensures
            r == self.stored(name@),
    {
        self.store.get(name)
    }

    /// Applies a bookmark transition atomically: when the bookmark holds
    /// `txn.expected`, it is set to `txn.new`, the new changesets are
    /// persisted and the transition is logged, and `true` is returned.
    /// Otherwise nothing changes and `false` is returned.
    pub fn commit_transaction(&mut self, txn: BookmarkTransaction) -> (r: bool)
        requires
            old(self).wf(),
        ensures
            final(self).wf(),
            final(self).name_view() == old(self).name_view(),
            final(self).public() == old(self).public(),
            r == (old(self).stored(txn.name@) == txn.expected),
            r ==> final(self).bookmarks() == map_after(old(self).bookmarks(), txn.name@, txn.new),
            r ==> final(self).changesets() == old(self).changesets() + txn.new_changesets@,
            r ==> final(self).update_log() == old(self).update_log().push(
                BookmarkLogEntry {
                    from: txn.expected,
                    to: txn.new,
                    reason: txn.reason,
                    bundle_replay: txn.bundle_replay,
                },
            ),
            !r ==> final(self).bookmarks() == old(self).bookmarks(),
            !r ==> final(self).changesets() == old(self).changesets(),
            !r ==> final(self).update_log() == old(self).update_log(),
    {
        let current = self.get_bookmark(&txn.name);
        if current != txn.expected {
            return false;
        }
        let BookmarkTransaction { name, expected, new, reason, bundle_replay, new_changesets } =
            txn;
        self.store.set(name, new);
        let mut added = new_changesets;
        self.changesets.append(&mut added);
        self.update_log.push(BookmarkLogEntry { from: expected, to: new, reason, bundle_replay });
        true
    }

    /// The changesets stored in the commit graph.
    pub fn stored_changesets(&self) -> (r: &Vec<ChangesetId>)
        ensures
            r@ == self.changesets(),
    {
        &self.changesets
    }

    /// The changesets marked public.
    pub fn public_changesets(&self) -> (r: &Vec<ChangesetId>)
        ensures
            r@ == self.public(),
    {
        &self.public
    }

    /// The applied bookmark transitions, oldest first.
    pub fn update_log_entries(&self) -> (r: &Vec<BookmarkLogEntry>)
        ensures
            r@ == self.update_log(),
    {
        &self.update_log
    }

    /// Marks a changeset as public (an irrevocable promotion from draft).
    pub fn mark_public(&mut self, id: ChangesetId)
        requires
            old(self).wf(),
        ensures
            final(self).wf(),
            final(self).name_view() == old(self).name_view(),
            final(self).bookmarks() == old(self).bookmarks(),
            final(self).changesets() == old(self).changesets(),
            final(self).update_log() == old(self).update_log(),
            final(self).public() == old(self).public().push(id),
    {
        self.public.push(id);
    }

    /// Whether a changeset has been marked public.
    pub fn is_public(&self, id: ChangesetId) -> (r: bool)
        ensures
            r == self.public().contains(id),
    {
        let mut i: usize = 0;
        while i < self.public.len()
            invariant
                i <= self.public@.len(),
                forall|j: int| 0 <= j < i ==> self.public@[j] != id,
            decreases self.public@.len() - i,
        {
            if self.public[i] == id {
                assert(self.public@[i as int] == id);
                return true;
            }
            i = i + 1;
        }
        false
    }
}

} // verus!

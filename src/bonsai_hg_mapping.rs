use vstd::prelude::*;

use crate::ids::{ChangesetId, HgChangesetId};

verus! {

/// Identifier of a repository.
#[derive(Clone, Copy, Debug, PartialEq, Eq, Hash, Structural)]
pub struct RepositoryId(pub i32);

/// One row of the mapping between bonsai changesets and Mercurial
/// changesets of a repository.
#[derive(Clone, Copy, Debug, PartialEq, Eq, Hash, Structural)]
pub struct BonsaiHgMappingEntry {
    pub repo_id: RepositoryId,
    pub hg_cs_id: HgChangesetId,
    pub bcs_id: ChangesetId,
}

impl BonsaiHgMappingEntry {
    pub fn new(repo_id: RepositoryId, hg_cs_id: HgChangesetId, bcs_id: ChangesetId) -> (r: Self)
        ensures
            r == (BonsaiHgMappingEntry { repo_id, hg_cs_id, bcs_id }),
    {
        BonsaiHgMappingEntry { repo_id, hg_cs_id, bcs_id }
    }
}

/// Changesets to look up, all by bonsai id or all by Mercurial id.
#[derive(Debug)]
pub enum BonsaiOrHgChangesetIds {
    Bonsai(Vec<ChangesetId>),
    Hg(Vec<HgChangesetId>),
}

impl BonsaiOrHgChangesetIds {
    pub fn is_empty(&self) -> (r: bool)
        ensures
            r == match self {
                BonsaiOrHgChangesetIds::Bonsai(v) => v@.len() == 0,
                BonsaiOrHgChangesetIds::Hg(v) => v@.len() == 0,
            },
    {
        match self {
            BonsaiOrHgChangesetIds::Bonsai(v) => v.len() == 0,
            BonsaiOrHgChangesetIds::Hg(v) => v.len() == 0,
        }
    }

    /// A lookup of one bonsai changeset.
    pub fn from_bonsai(cs_id: ChangesetId) -> (r: Self)
        ensures
            r is Bonsai && r->Bonsai_0@ == seq![cs_id],
    {
        let mut v: Vec<ChangesetId> = Vec::new();
        v.push(cs_id);
        BonsaiOrHgChangesetIds::Bonsai(v)
    }

    /// A lookup of one Mercurial changeset.
    pub fn from_hg(cs_id: HgChangesetId) -> (r: Self)
        ensures
            r is Hg && r->Hg_0@ == seq![cs_id],
    {
        let mut v: Vec<HgChangesetId> = Vec::new();
        v.push(cs_id);
        BonsaiOrHgChangesetIds::Hg(v)
    }
}

pub open spec fn bonsai_fetched(mappings: Seq<BonsaiHgMappingEntry>, cs: ChangesetId) -> bool {
    exists|j: int| 0 <= j < mappings.len() && #[trigger] mappings[j].bcs_id == cs
}

pub open spec fn hg_fetched(mappings: Seq<BonsaiHgMappingEntry>, cs: HgChangesetId) -> bool {
    exists|j: int| 0 <= j < mappings.len() && #[trigger] mappings[j].hg_cs_id == cs
}

fn contains_bonsai(mappings: &Vec<BonsaiHgMappingEntry>, cs: ChangesetId) -> (r: bool)
    ensures
        r == bonsai_fetched(mappings@, cs),
{
    let mut i: usize = 0;
    while i < mappings.len()
        invariant
            i <= mappings@.len(),
            forall|j: int| 0 <= j < i ==> mappings@[j].bcs_id != cs,
        decreases mappings@.len() - i,
    {
        if mappings[i].bcs_id == cs {
            return true;
        }
        i = i + 1;
    }
    false
}

fn contains_hg(mappings: &Vec<BonsaiHgMappingEntry>, cs: HgChangesetId) -> (r: bool)
    ensures
        r == hg_fetched(mappings@, cs),
{
    let mut i: usize = 0;
    while i < mappings.len()
        invariant
            i <= mappings@.len(),
            forall|j: int| 0 <= j < i ==> mappings@[j].hg_cs_id != cs,
        decreases mappings@.len() - i,
    {
        if mappings[i].hg_cs_id == cs {
            return true;
        }
        i = i + 1;
    }
    false
}

/// The ids that the fetched `mappings` do not cover, in their order.
pub fn filter_fetched_ids(cs: BonsaiOrHgChangesetIds, mappings: &Vec<BonsaiHgMappingEntry>) -> (r:
    BonsaiOrHgChangesetIds)
    ensures
        match cs {
            BonsaiOrHgChangesetIds::Bonsai(ids) => r is Bonsai && r->Bonsai_0@ == ids@.filter(
                |c: ChangesetId| !bonsai_fetched(mappings@, c),
            ),
            BonsaiOrHgChangesetIds::Hg(ids) => r is Hg && r->Hg_0@ == ids@.filter(
                |c: HgChangesetId| !hg_fetched(mappings@, c),
            ),
        },
{
    match cs {
        BonsaiOrHgChangesetIds::Bonsai(ids) => {
            let ghost keep = |c: ChangesetId| !bonsai_fetched(mappings@, c);
            let mut out: Vec<ChangesetId> = Vec::new();
            let mut i: usize = 0;
            while i < ids.len()
                invariant
                    i <= ids@.len(),
                    out@ == ids@.subrange(0, i as int).filter(keep),
                    keep == (|c: ChangesetId| !bonsai_fetched(mappings@, c)),
                decreases ids@.len() - i,
            {
                let c = ids[i];
                if !contains_bonsai(mappings, c) {
                    out.push(c);
                }
                proof {
                    let s = ids@.subrange(0, i + 1);
                    assert(s.drop_last() =~= ids@.subrange(0, i as int));
                    assert(s.last() == c);
                    reveal(Seq::filter);
                    assert(s.filter(keep) == if keep(s.last()) {
                        s.drop_last().filter(keep).push(s.last())
                    } else {
                        s.drop_last().filter(keep)
                    });
                }
                i = i + 1;
            }
            assert(ids@.subrange(0, ids@.len() as int) =~= ids@);
            BonsaiOrHgChangesetIds::Bonsai(out)
        },
        BonsaiOrHgChangesetIds::Hg(ids) => {
            let ghost keep = |c: HgChangesetId| !hg_fetched(mappings@, c);
            let mut out: Vec<HgChangesetId> = Vec::new();
            let mut i: usize = 0;
            while i < ids.len()
                invariant
                    i <= ids@.len(),
                    out@ == ids@.subrange(0, i as int).filter(keep),
                    keep == (|c: HgChangesetId| !hg_fetched(mappings@, c)),
                decreases ids@.len() - i,
            {
                let c = ids[i];
                if !contains_hg(mappings, c) {
                    out.push(c);
                }
                proof {
                    let s = ids@.subrange(0, i + 1);
                    assert(s.drop_last() =~= ids@.subrange(0, i as int));
                    assert(s.last() == c);
                    reveal(Seq::filter);
                    assert(s.filter(keep) == if keep(s.last()) {
                        s.drop_last().filter(keep).push(s.last())
                    } else {
                        s.drop_last().filter(keep)
                    });
                }
                i = i + 1;
            }
            assert(ids@.subrange(0, ids@.len() as int) =~= ids@);
            BonsaiOrHgChangesetIds::Hg(out)
        },
    }
}

/// Why an entry could not be added to the mapping.
#[derive(Clone, Copy, Debug, PartialEq, Eq, Structural)]
pub enum MappingError {
    /// The mapping holds `existing`, which disagrees with `attempted`.
    ConflictingEntries { existing: BonsaiHgMappingEntry, attempted: BonsaiHgMappingEntry },
    /// The insert did not apply, yet no row for either id exists.
    RaceConditionWithDelete(BonsaiHgMappingEntry),
}

/// Checks an entry whose insert did not apply against the first row found
/// for either of its ids: the same pair is fine, another pair conflicts, no
/// row at all means a concurrent delete.
pub fn verify_consistency(entry: BonsaiHgMappingEntry, found: Option<(HgChangesetId, ChangesetId)>) -> (r:
    Result<(), MappingError>)
    ensures
        r == match found {
            Some((hg, bcs)) => if hg == entry.hg_cs_id && bcs == entry.bcs_id {
                Ok(())
            } else {
                Err(
                    MappingError::ConflictingEntries {
                        existing: BonsaiHgMappingEntry {
                            repo_id: entry.repo_id,
                            hg_cs_id: hg,
                            bcs_id: bcs,
                        },
                        attempted: entry,
                    },
                )
            },
            None => Err(MappingError::RaceConditionWithDelete(entry)),
        },
{
    match found {
        Some((hg, bcs)) => {
            if hg == entry.hg_cs_id && bcs == entry.bcs_id {
                Ok(())
            } else {
                Err(
                    MappingError::ConflictingEntries {
                        existing: BonsaiHgMappingEntry {
                            repo_id: entry.repo_id,
                            hg_cs_id: hg,
                            bcs_id: bcs,
                        },
                        attempted: entry,
                    },
                )
            }
        },
        None => Err(MappingError::RaceConditionWithDelete(entry)),
    }
}

/// Outcome of adding an entry: `true` when the insert applied, `false` when
/// the mapping already held exactly this entry.
pub fn add_outcome(
    entry: BonsaiHgMappingEntry,
    affected_rows: u64,
    found: Option<(HgChangesetId, ChangesetId)>,
) -> (r: Result<bool, MappingError>)
    ensures
        affected_rows == 1 ==> r == Ok::<bool, MappingError>(true),
        affected_rows != 1 ==> match verify_consistency_spec(entry, found) {
            Ok(()) => r == Ok::<bool, MappingError>(false),
            Err(e) => r == Err::<bool, MappingError>(e),
        },
{
    if affected_rows == 1 {
        Ok(true)
    } else {
        match verify_consistency(entry, found) {
            Ok(()) => Ok(false),
            Err(e) => Err(e),
        }
    }
}

pub open spec fn verify_consistency_spec(
    entry: BonsaiHgMappingEntry,
    found: Option<(HgChangesetId, ChangesetId)>,
) -> Result<(), MappingError> {
    match found {
        Some((hg, bcs)) => if hg == entry.hg_cs_id && bcs == entry.bcs_id {
            Ok(())
        } else {
            Err(
                MappingError::ConflictingEntries {
                    existing: BonsaiHgMappingEntry {
                        repo_id: entry.repo_id,
                        hg_cs_id: hg,
                        bcs_id: bcs,
                    },
                    attempted: entry,
                },
            )
        },
        None => Err(MappingError::RaceConditionWithDelete(entry)),
    }
}

} // verus!

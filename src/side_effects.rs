//! Auxiliary outputs of processing: mutation records, the audit log, bundle
//! preservation, warnings and per-strategy counters.

use vstd::prelude::*;
use vstd::string::StringExecFns;

use crate::actions::{MutationRecord, UnbundleResponse};
use crate::ids::{BookmarkName, ChangesetId, HgChangesetId, RawBundle2Id};

verus! {

/// Mutation records written for one push, with the commits it uploaded.
#[derive(Debug)]
pub struct MutationBatch {
    pub changesets: Vec<HgChangesetId>,
    pub records: Vec<MutationRecord>,
}

/// A commit queued to the audit log.
#[derive(Debug)]
pub struct CommitLogEntry {
    pub category: String,
    pub bookmark: Option<BookmarkName>,
    pub changeset: ChangesetId,
}

/// A raw bundle queued for preservation.
#[derive(Debug)]
pub struct PreservedBundle {
    pub repo_name: String,
    pub bundle: RawBundle2Id,
}

/// A misconfiguration noticed while processing, reported but not fatal.
#[derive(Clone, Copy, Debug, PartialEq, Eq, Structural)]
pub enum Warning {
    /// Bundle preservation is configured but the push carried no raw bundle.
    PreservationWithoutBundle,
}

/// How many actions of each strategy completed.
#[derive(Clone, Copy, Debug, PartialEq, Eq, Structural)]
pub struct UnbundleCounters {
    pub push: u64,
    pub pushrebase: u64,
    pub bookmark_only_pushrebase: u64,
    pub infinitepush: u64,
}

/// The best-effort and auxiliary outputs of processing: mutation records,
/// the audit log, preserved bundles, warnings and per-strategy counters.
#[derive(Debug)]
pub struct SideEffects {
    pub mutation_batches: Vec<MutationBatch>,
    pub commit_log: Vec<CommitLogEntry>,
    pub preserved_bundles: Vec<PreservedBundle>,
    pub warnings: Vec<Warning>,
    pub counters: UnbundleCounters,
}

/// The audit log entries for `ids`: none unless a non-empty category is
/// configured.
pub open spec fn commit_log_entries(
    category: Option<String>,
    bookmark: Option<BookmarkName>,
    ids: Seq<ChangesetId>,
) -> Seq<CommitLogEntry> {
    match category {
        Some(c) => if c@.len() > 0 {
            Seq::new(
                ids.len(),
                |i: int| CommitLogEntry { category: c, bookmark: bookmark, changeset: ids[i] },
            )
        } else {
            Seq::empty()
        },
        None => Seq::empty(),
    }
}

/// Queues the commits to the audit log under `category`; with no category,
/// or an empty one, the commits are discarded.
pub fn log_commits_to_scribe(
    effects: &mut SideEffects,
    bookmark: Option<&BookmarkName>,
    changesets: &Vec<ChangesetId>,
    category: &Option<String>,
)
    ensures
        final(effects).commit_log@ == old(effects).commit_log@ + commit_log_entries(
            *category,
            match bookmark {
                Some(b) => Some(*b),
                None => None,
            },
            changesets@,
        ),
        final(effects).mutation_batches == old(effects).mutation_batches,
        final(effects).preserved_bundles == old(effects).preserved_bundles,
        final(effects).warnings == old(effects).warnings,
        final(effects).counters == old(effects).counters,
{
    let ghost bm = match bookmark {
        Some(b) => Some(*b),
        None => None,
    };
    let c = match category {
        Some(c) => c,
        None => {
            assert(old(effects).commit_log@ + Seq::<CommitLogEntry>::empty() =~= old(
                effects,
            ).commit_log@);
            return ;
        },
    };
    if c.as_str().unicode_len() == 0 {
        assert(old(effects).commit_log@ + Seq::<CommitLogEntry>::empty() =~= old(
            effects,
        ).commit_log@);
        return ;
    }
    let ghost entries = commit_log_entries(*category, bm, changesets@);
    let ghost start = old(effects).commit_log@;
    let mut i: usize = 0;
    while i < changesets.len()
        invariant
            i <= changesets@.len(),
            entries.len() == changesets@.len(),
            entries == commit_log_entries(*category, bm, changesets@),
            *category == Some(*c),
            c@.len() > 0,
            bm == match bookmark {
                Some(b) => Some(*b),
                None => None,
            },
            effects.commit_log@ == start + entries.subrange(0, i as int),
            effects.mutation_batches == old(effects).mutation_batches,
            effects.preserved_bundles == old(effects).preserved_bundles,
            effects.warnings == old(effects).warnings,
            effects.counters == old(effects).counters,
        decreases changesets@.len() - i,
    {
        let b = match bookmark {
            Some(b) => Some(b.duplicate()),
            None => None,
        };
        let entry = CommitLogEntry { category: c.clone(), bookmark: b, changeset: changesets[i] };
        assert(entry == entries[i as int]);
        effects.commit_log.push(entry);
        i = i + 1;
        assert(effects.commit_log@ =~= start + entries.subrange(0, i as int));
    }
    assert(entries.subrange(0, i as int) =~= entries);
}

/// The preservation queue after a scratch push: the raw bundle is queued
/// under the repository's name when preservation is on and the push carried
/// one.
pub open spec fn bundle_preserved(
    before: Seq<PreservedBundle>,
    after: Seq<PreservedBundle>,
    enabled: bool,
    repo_name: Seq<char>,
    bundle: Option<RawBundle2Id>,
) -> bool {
    if enabled && bundle is Some {
        &&& after.len() == before.len() + 1
        &&& after.subrange(0, before.len() as int) == before
        &&& after.last().repo_name@ == repo_name
        &&& after.last().bundle == bundle->Some_0
    } else {
        after == before
    }
}

/// Queues the raw bundle of a scratch push for preservation when that is
/// configured; a configured queue with no raw bundle only raises a warning.
pub fn save_to_reverse_filler_queue(
    effects: &mut SideEffects,
    repo_name: &str,
    enabled: bool,
    maybe_raw_bundle2_id: Option<RawBundle2Id>,
)
    ensures
        bundle_preserved(
            old(effects).preserved_bundles@,
            final(effects).preserved_bundles@,
            enabled,
            repo_name@,
            maybe_raw_bundle2_id,
        ),
        final(effects).warnings@ == if enabled && maybe_raw_bundle2_id is None {
            old(effects).warnings@.push(Warning::PreservationWithoutBundle)
        } else {
            old(effects).warnings@
        },
        final(effects).mutation_batches == old(effects).mutation_batches,
        final(effects).commit_log == old(effects).commit_log,
        final(effects).counters == old(effects).counters,
{
    if enabled {
        match maybe_raw_bundle2_id {
            Some(bundle) => {
                effects.preserved_bundles.push(
                    PreservedBundle { repo_name: String::from_str(repo_name), bundle },
                );
                assert(effects.preserved_bundles@.subrange(
                    0,
                    old(effects).preserved_bundles@.len() as int,
                ) =~= old(effects).preserved_bundles@);
            },
            None => {
                effects.warnings.push(Warning::PreservationWithoutBundle);
            },
        }
    }
}

/// The mutation batches after a push: the push's records are stored when
/// mutation records are accepted.
pub open spec fn mutations_stored(
    before: Seq<MutationBatch>,
    after: Seq<MutationBatch>,
    accept: bool,
    batch: MutationBatch,
) -> bool {
    after == if accept {
        before.push(batch)
    } else {
        before
    }
}

pub(crate) fn store_mutations(
    effects: &mut SideEffects,
    accept: bool,
    changesets: Vec<HgChangesetId>,
    records: Vec<MutationRecord>,
)
    ensures
        mutations_stored(
            old(effects).mutation_batches@,
            final(effects).mutation_batches@,
            accept,
            MutationBatch { changesets, records },
        ),
        final(effects).commit_log == old(effects).commit_log,
        final(effects).preserved_bundles == old(effects).preserved_bundles,
        final(effects).warnings == old(effects).warnings,
        final(effects).counters == old(effects).counters,
{
    if accept {
        effects.mutation_batches.push(MutationBatch { changesets, records });
    }
}

pub open spec fn bump(n: u64) -> u64 {
    if n < u64::MAX {
        (n + 1) as u64
    } else {
        n
    }
}

/// The counters after one more completed action of `response`'s strategy.
pub open spec fn counted(c: UnbundleCounters, response: UnbundleResponse) -> UnbundleCounters {
    match response {
        UnbundleResponse::Push(_) => UnbundleCounters { push: bump(c.push), ..c },
        UnbundleResponse::PushRebase(_) => UnbundleCounters { pushrebase: bump(c.pushrebase), ..c },
        UnbundleResponse::InfinitePush(_) => UnbundleCounters {
            infinitepush: bump(c.infinitepush),
            ..c
        },
        UnbundleResponse::BookmarkOnlyPushRebase(_) => UnbundleCounters {
            bookmark_only_pushrebase: bump(c.bookmark_only_pushrebase),
            ..c
        },
    }
}

fn bumped(n: u64) -> (r: u64)
    ensures
        r == bump(n),
{
    if n < u64::MAX {
        n + 1
    } else {
        n
    }
}

/// Counts one completed action of the strategy that produced `response`.
pub fn report_unbundle_type(effects: &mut SideEffects, response: &UnbundleResponse)
    ensures
        final(effects).counters == counted(old(effects).counters, *response),
        final(effects).mutation_batches == old(effects).mutation_batches,
        final(effects).commit_log == old(effects).commit_log,
        final(effects).preserved_bundles == old(effects).preserved_bundles,
        final(effects).warnings == old(effects).warnings,
{
    match response {
        UnbundleResponse::Push(_) => {
            effects.counters.push = bumped(effects.counters.push);
        },
        UnbundleResponse::PushRebase(_) => {
            effects.counters.pushrebase = bumped(effects.counters.pushrebase);
        },
        UnbundleResponse::InfinitePush(_) => {
            effects.counters.infinitepush = bumped(effects.counters.infinitepush);
        },
        UnbundleResponse::BookmarkOnlyPushRebase(_) => {
            effects.counters.bookmark_only_pushrebase = bumped(
                effects.counters.bookmark_only_pushrebase,
            );
        },
    }
}

} // verus!

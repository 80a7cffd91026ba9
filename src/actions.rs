//! Resolved push intents and the responses of the strategies that apply them.

use vstd::prelude::*;

use crate::hooks::HookRejectionRemapper;
use crate::ids::{BookmarkName, ChangesetId, HgChangesetId, RawBundle2Id};
use crate::movement::{Pushvar, RebasedPair};

verus! {

/// Whether the client allowed a non-fast-forward move.
#[derive(Clone, Copy, Debug, PartialEq, Eq, Structural)]
pub enum NonFastForwardPolicy {
    Allowed,
    OnlyFastForward,
}

/// A move of a plain bookmark: `old == None` creates it, `new == None`
/// deletes it, both present move it.
#[derive(Debug)]
pub struct PlainBookmarkPush {
    pub part_id: u32,
    pub name: BookmarkName,
    pub old: Option<ChangesetId>,
    pub new: Option<ChangesetId>,
}

/// A move of a scratch bookmark.
#[derive(Debug)]
pub struct InfiniteBookmarkPush {
    pub name: BookmarkName,
    /// The client asked for the bookmark to be created.
    pub create: bool,
    /// The client allowed a non-fast-forward move.
    pub force: bool,
    pub old: Option<ChangesetId>,
    pub new: ChangesetId,
}

/// A record that one commit was rewritten from others.
#[derive(Debug)]
pub struct MutationRecord {
    pub successor: HgChangesetId,
    pub predecessors: Vec<HgChangesetId>,
}

/// A plain push: new commits and at most one bookmark move.
#[derive(Debug)]
pub struct PostResolvePush {
    pub changegroup_id: Option<u32>,
    pub bookmark_pushes: Vec<PlainBookmarkPush>,
    pub mutations: Vec<MutationRecord>,
    pub maybe_raw_bundle2_id: Option<RawBundle2Id>,
    pub maybe_pushvars: Option<Vec<Pushvar>>,
    pub non_fast_forward_policy: NonFastForwardPolicy,
    pub uploaded_bonsais: Vec<ChangesetId>,
    pub uploaded_hg_changeset_ids: Vec<HgChangesetId>,
    pub hook_rejection_remapper: HookRejectionRemapper,
}

/// A scratch push: new commits and at most one scratch bookmark move.
#[derive(Debug)]
pub struct PostResolveInfinitePush {
    pub changegroup_id: Option<u32>,
    pub maybe_bookmark_push: Option<InfiniteBookmarkPush>,
    pub mutations: Vec<MutationRecord>,
    pub maybe_raw_bundle2_id: Option<RawBundle2Id>,
    pub uploaded_bonsais: Vec<ChangesetId>,
    pub uploaded_hg_changeset_ids: Vec<HgChangesetId>,
    /// The push comes from cross-backend synchronisation.
    pub is_cross_backend_sync: bool,
}

/// Where a pushrebase goes.
#[derive(Debug)]
pub enum PushrebaseBookmarkSpec {
    /// Rebase onto the current value of an existing bookmark.
    NormalPushrebase(BookmarkName),
    /// Move the bookmark to an explicit target, rebasing nothing.
    ForcePushrebase(PlainBookmarkPush),
}

/// A pushrebase of new commits.
#[derive(Debug)]
pub struct PostResolvePushRebase {
    pub bookmark_push_part_id: Option<u32>,
    pub bookmark_spec: PushrebaseBookmarkSpec,
    pub maybe_hg_replay_data: Option<RawBundle2Id>,
    pub maybe_pushvars: Option<Vec<Pushvar>>,
    pub commonheads: Vec<HgChangesetId>,
    pub uploaded_bonsais: Vec<ChangesetId>,
    pub hook_rejection_remapper: HookRejectionRemapper,
}

/// A bookmark move sent through the pushrebase path, with no new commits.
#[derive(Debug)]
pub struct PostResolveBookmarkOnlyPushRebase {
    pub bookmark_push: PlainBookmarkPush,
    pub maybe_raw_bundle2_id: Option<RawBundle2Id>,
    pub maybe_pushvars: Option<Vec<Pushvar>>,
    pub non_fast_forward_policy: NonFastForwardPolicy,
    pub hook_rejection_remapper: HookRejectionRemapper,
}

/// A resolved push intent.
#[derive(Debug)]
pub enum PostResolveAction {
    Push(PostResolvePush),
    InfinitePush(PostResolveInfinitePush),
    PushRebase(PostResolvePushRebase),
    BookmarkOnlyPushRebase(PostResolveBookmarkOnlyPushRebase),
}

#[derive(Debug)]
pub struct UnbundlePushResponse {
    pub changegroup_id: Option<u32>,
    pub bookmark_ids: Vec<u32>,
}

#[derive(Debug)]
pub struct UnbundleInfinitePushResponse {
    pub changegroup_id: Option<u32>,
}

#[derive(Debug)]
pub struct UnbundlePushRebaseResponse {
    pub commonheads: Vec<HgChangesetId>,
    pub pushrebased_rev: ChangesetId,
    pub pushrebased_changesets: Vec<RebasedPair>,
    pub onto: BookmarkName,
    pub bookmark_push_part_id: Option<u32>,
}

#[derive(Debug)]
pub struct UnbundleBookmarkOnlyPushRebaseResponse {
    pub bookmark_push_part_id: u32,
}

/// The response of the strategy that ran.
#[derive(Debug)]
pub enum UnbundleResponse {
    Push(UnbundlePushResponse),
    InfinitePush(UnbundleInfinitePushResponse),
    PushRebase(UnbundlePushRebaseResponse),
    BookmarkOnlyPushRebase(UnbundleBookmarkOnlyPushRebaseResponse),
}

pub open spec fn spec_bookmark_name(spec: PushrebaseBookmarkSpec) -> Seq<char> {
    match spec {
        PushrebaseBookmarkSpec::NormalPushrebase(b) => b@,
        PushrebaseBookmarkSpec::ForcePushrebase(p) => p.name@,
    }
}

impl PushrebaseBookmarkSpec {
    /// The bookmark the pushrebase moves.
    pub fn get_bookmark_name(&self) -> (r: &BookmarkName)
        ensures
            r@ == spec_bookmark_name(*self),
    {
        match self {
            PushrebaseBookmarkSpec::NormalPushrebase(b) => b,
            PushrebaseBookmarkSpec::ForcePushrebase(p) => &p.name,
        }
    }
}

/// The response variant that answers an action variant.
pub open spec fn answers(action: PostResolveAction, response: UnbundleResponse) -> bool {
    match action {
        PostResolveAction::Push(_) => response is Push,
        PostResolveAction::InfinitePush(_) => response is InfinitePush,
        PostResolveAction::PushRebase(_) => response is PushRebase,
        PostResolveAction::BookmarkOnlyPushRebase(_) => response is BookmarkOnlyPushRebase,
    }
}

} // verus!

//! The strategies that apply a resolved action, and the dispatcher that picks
//! one.

use vstd::prelude::*;

use crate::actions::{
    answers, spec_bookmark_name, InfiniteBookmarkPush, NonFastForwardPolicy, PlainBookmarkPush,
    PostResolveAction, PostResolveBookmarkOnlyPushRebase, PostResolveInfinitePush,
    PostResolvePush, PostResolvePushRebase, PushrebaseBookmarkSpec,
    UnbundleBookmarkOnlyPushRebaseResponse, UnbundleInfinitePushResponse,
    UnbundlePushRebaseResponse, UnbundlePushResponse, UnbundleResponse,
};
use crate::errors::{
    is_generic, resolve_movement_error, resolves, with_context, BundleResolverError,
    ErrorContext, FailureCause, GenericError,
};
use crate::hooks::{HookRejectionRemapper, IdMapping};
use crate::ids::{BookmarkName, ChangesetId, RawBundle2Id};
use crate::movement::{
    new_ids_of, movement_result, movement_storage, rebased_ids, storage_unchanged,
    BookmarkKindRestrictions, BookmarkMovementOp, BookmarkUpdatePolicy, CollaboratorReplies,
    Movement, MovementConfig, MovementOutcome, MovementView, Pushvar, RebasedPair,
};
use crate::repo::{BookmarkUpdateReason, Repo};
use crate::side_effects::{
    bundle_preserved, commit_log_entries, counted, log_commits_to_scribe, mutations_stored,
    report_unbundle_type, save_to_reverse_filler_queue, store_mutations, CommitLogEntry,
    MutationBatch, SideEffects,
};

verus! {

/// Configuration of the processing of one repository.
#[derive(Debug)]
pub struct ProcessingConfig {
    pub movement: MovementConfig,
    /// Whether mutation records sent with a push are stored.
    pub mutation_accept: bool,
    /// Whether raw bundles of scratch pushes are queued for preservation.
    pub preserve_bundles: bool,
    pub push_commit_log_category: Option<String>,
    pub infinitepush_commit_log_category: Option<String>,
    pub pushrebase_commit_log_category: Option<String>,
    pub assign_globalrevs: bool,
    pub populate_git_mapping: bool,
}

/// How the result of a movement is reported: success, or the resolved error.
pub open spec fn movement_reported(
    mv: MovementView,
    cfg: MovementConfig,
    stored: Option<ChangesetId>,
    replies: CollaboratorReplies,
    m: Seq<IdMapping>,
    ctx: Seq<ErrorContext>,
    ok: bool,
    err: BundleResolverError,
) -> bool {
    match movement_result(mv, cfg, stored, replies) {
        Ok(_) => ok,
        Err(e) => !ok && resolves(e, m, ctx, err),
    }
}

pub open spec fn update_policy(nff: NonFastForwardPolicy) -> BookmarkUpdatePolicy {
    if nff == NonFastForwardPolicy::Allowed {
        BookmarkUpdatePolicy::AnyPermittedByConfig
    } else {
        BookmarkUpdatePolicy::FastForwardOnly
    }
}

/// The movement a plain bookmark push asks for (`None` for no move at all).
pub open spec fn plain_push_view(
    push: PlainBookmarkPush,
    new_changesets: Seq<ChangesetId>,
    nff: NonFastForwardPolicy,
    reason: BookmarkUpdateReason,
    replay: Option<RawBundle2Id>,
) -> Option<MovementView> {
    let movement = match push.old {
        None => match push.new {
            Some(t) => Some(Movement::Create { target: t }),
            None => None,
        },
        Some(o) => match push.new {
            Some(n) => Some(Movement::Update { old: o, new: n, policy: update_policy(nff) }),
            None => Some(Movement::Delete { old: o }),
        },
    };
    match movement {
        Some(mv) => Some(
            MovementView {
                bookmark: push.name@,
                movement: mv,
                restrictions: BookmarkKindRestrictions::OnlyPublic,
                reason,
                new_changesets: if mv is Delete {
                    Seq::empty()
                } else {
                    new_changesets
                },
                bundle_replay: replay,
            },
        ),
        None => None,
    }
}

pub open spec fn plain_push_context(push: PlainBookmarkPush, nff: NonFastForwardPolicy) -> ErrorContext {
    if push.old is None {
        ErrorContext::CreateBookmark
    } else if push.new is None {
        ErrorContext::DeleteBookmark
    } else if nff == NonFastForwardPolicy::Allowed {
        ErrorContext::MoveBookmark
    } else {
        ErrorContext::FastForwardBookmark
    }
}

/// The whole effect of a plain bookmark push on storage and its report.
pub open spec fn plain_push_effect(
    before: Repo,
    after: Repo,
    cfg: MovementConfig,
    push: PlainBookmarkPush,
    new_changesets: Seq<ChangesetId>,
    nff: NonFastForwardPolicy,
    reason: BookmarkUpdateReason,
    replay: Option<RawBundle2Id>,
    m: Seq<IdMapping>,
    replies: CollaboratorReplies,
    ok: bool,
    err: BundleResolverError,
) -> bool {
    match plain_push_view(push, new_changesets, nff, reason, replay) {
        None => ok && storage_unchanged(before, after),
        Some(mv) => movement_storage(mv, cfg, replies, before, after) && movement_reported(
            mv,
            cfg,
            before.stored(push.name@),
            replies,
            m,
            seq![plain_push_context(push, nff)],
            ok,
            err,
        ),
    }
}

fn copy_ids(ids: &Vec<ChangesetId>) -> (r: Vec<ChangesetId>)
    ensures
        r@ == ids@,
{
    let mut out: Vec<ChangesetId> = Vec::new();
    let mut i: usize = 0;
    while i < ids.len()
        invariant
            i <= ids@.len(),
            out@ == ids@.subrange(0, i as int),
        decreases ids@.len() - i,
    {
        out.push(ids[i]);
        i = i + 1;
        assert(out@ =~= ids@.subrange(0, i as int));
    }
    assert(ids@.subrange(0, ids@.len() as int) =~= ids@);
    out
}

fn policy_for(nff: NonFastForwardPolicy) -> (r: BookmarkUpdatePolicy)
    ensures
        r == update_policy(nff),
{
    match nff {
        NonFastForwardPolicy::Allowed => BookmarkUpdatePolicy::AnyPermittedByConfig,
        NonFastForwardPolicy::OnlyFastForward => BookmarkUpdatePolicy::FastForwardOnly,
    }
}

fn plain_push_context_of(push: &PlainBookmarkPush, nff: NonFastForwardPolicy) -> (r: ErrorContext)
    ensures
        r == plain_push_context(*push, nff),
{
    if push.old.is_none() {
        ErrorContext::CreateBookmark
    } else if push.new.is_none() {
        ErrorContext::DeleteBookmark
    } else {
        match nff {
            NonFastForwardPolicy::Allowed => ErrorContext::MoveBookmark,
            NonFastForwardPolicy::OnlyFastForward => ErrorContext::FastForwardBookmark,
        }
    }
}

/// Applies a plain bookmark push to a public bookmark: creation when there
/// is no old value, deletion when there is no new one, a move otherwise
/// (fast-forward only unless the client allowed otherwise), and nothing
/// when both are absent.
pub fn plain_push_bookmark(
    repo: &mut Repo,
    cfg: &MovementConfig,
    bookmark_push: &PlainBookmarkPush,
    new_changesets: Vec<ChangesetId>,
    non_fast_forward_policy: NonFastForwardPolicy,
    reason: BookmarkUpdateReason,
    maybe_pushvars: Option<Vec<Pushvar>>,
    bundle_replay: Option<RawBundle2Id>,
    hook_rejection_remapper: &HookRejectionRemapper,
    replies: CollaboratorReplies,
) -> (r: Result<(), BundleResolverError>)
    requires
        old(repo).wf(),
    ensures
        final(repo).wf(),
        final(repo).name_view() == old(repo).name_view(),
        final(repo).public() == old(repo).public(),
        plain_push_effect(
            *old(repo),
            *final(repo),
            *cfg,
            *bookmark_push,
            new_changesets@,
            non_fast_forward_policy,
            reason,
            bundle_replay,
            hook_rejection_remapper.mapping@,
            replies,
            r is Ok,
            r->Err_0,
        ),
        r is Err ==> storage_unchanged(*old(repo), *final(repo)),
{
    let ctx = plain_push_context_of(bookmark_push, non_fast_forward_policy);
    let name = bookmark_push.name.duplicate();
    let op = match bookmark_push.old {
        None => match bookmark_push.new {
            Some(target) => BookmarkMovementOp::create(name, target, reason).only_if_public().with_new_changesets(
                new_changesets,
            ).with_pushvars(maybe_pushvars).with_bundle_replay_data(bundle_replay),
            None => {
                return Ok(());
            },
        },
        Some(old_target) => match bookmark_push.new {
            Some(new_target) => BookmarkMovementOp::update(
                name,
                old_target,
                new_target,
                policy_for(non_fast_forward_policy),
                reason,
            ).only_if_public().with_new_changesets(new_changesets).with_pushvars(
                maybe_pushvars,
            ).with_bundle_replay_data(bundle_replay),
            None => BookmarkMovementOp::delete(name, old_target, reason).only_if_public().with_bundle_replay_data(
                bundle_replay,
            ),
        },
    };
    assert(plain_push_view(*bookmark_push, new_changesets@, non_fast_forward_policy, reason, bundle_replay) == Some(op@));
    match op.run(repo, cfg, replies) {
        Ok(_) => Ok(()),
        Err(e) => Err(resolve_movement_error(e, hook_rejection_remapper, Some(ctx))),
    }
}

/// The movement a scratch bookmark push asks for; `None` when the client
/// named no old value and did not ask for creation.
pub open spec fn scratch_push_view(push: InfiniteBookmarkPush, replay: Option<RawBundle2Id>) -> Option<
    MovementView,
> {
    let movement = if push.old is None && push.create {
        Some(Movement::Create { target: push.new })
    } else {
        match push.old {
            Some(o) => Some(
                Movement::Update {
                    old: o,
                    new: push.new,
                    policy: if push.force {
                        BookmarkUpdatePolicy::AnyPermittedByConfig
                    } else {
                        BookmarkUpdatePolicy::FastForwardOnly
                    },
                },
            ),
            None => None,
        }
    };
    match movement {
        Some(mv) => Some(
            MovementView {
                bookmark: push.name@,
                movement: mv,
                restrictions: BookmarkKindRestrictions::OnlyScratch,
                reason: BookmarkUpdateReason::Push,
                new_changesets: Seq::empty(),
                bundle_replay: replay,
            },
        ),
        None => None,
    }
}

pub open spec fn scratch_push_context(push: InfiniteBookmarkPush) -> ErrorContext {
    if push.old is None && push.create {
        ErrorContext::CreateScratchBookmark
    } else if push.force {
        ErrorContext::MoveScratchBookmark
    } else {
        ErrorContext::FastForwardScratchBookmark
    }
}

/// The whole effect of a scratch bookmark push on storage and its report.
pub open spec fn scratch_push_effect(
    before: Repo,
    after: Repo,
    cfg: MovementConfig,
    push: InfiniteBookmarkPush,
    replay: Option<RawBundle2Id>,
    replies: CollaboratorReplies,
    ok: bool,
    err: BundleResolverError,
) -> bool {
    match scratch_push_view(push, replay) {
        None => !ok && is_generic(err, FailureCause::UnknownScratchBookmark, Seq::empty())
            && storage_unchanged(before, after),
        Some(mv) => movement_storage(mv, cfg, replies, before, after) && movement_reported(
            mv,
            cfg,
            before.stored(push.name@),
            replies,
            Seq::empty(),
            seq![scratch_push_context(push)],
            ok,
            err,
        ),
    }
}

/// Applies a scratch bookmark push: creation when the client asked for it
/// and named no old value, else a move that is fast-forward only unless the
/// client forced it. A push with no old value and no request to create the
/// bookmark fails.
pub fn infinitepush_scratch_bookmark(
    repo: &mut Repo,
    cfg: &MovementConfig,
    bookmark_push: &InfiniteBookmarkPush,
    bundle_replay: Option<RawBundle2Id>,
    replies: CollaboratorReplies,
) -> (r: Result<(), BundleResolverError>)
    requires
        old(repo).wf(),
    ensures
        final(repo).wf(),
        final(repo).name_view() == old(repo).name_view(),
        final(repo).public() == old(repo).public(),
        scratch_push_effect(
            *old(repo),
            *final(repo),
            *cfg,
            *bookmark_push,
            bundle_replay,
            replies,
            r is Ok,
            r->Err_0,
        ),
        r is Err ==> storage_unchanged(*old(repo), *final(repo)),
{
    let name = bookmark_push.name.duplicate();
    let (op, ctx) = if bookmark_push.old.is_none() && bookmark_push.create {
        (
            BookmarkMovementOp::create(name, bookmark_push.new, BookmarkUpdateReason::Push).only_if_scratch().with_bundle_replay_data(
                bundle_replay,
            ),
            ErrorContext::CreateScratchBookmark,
        )
    } else {
        let old_target = match bookmark_push.old {
            Some(o) => o,
            None => {
                return Err(
                    BundleResolverError::Error(
                        GenericError {
                            cause: FailureCause::UnknownScratchBookmark,
                            context: Vec::new(),
                        },
                    ),
                );
            },
        };
        let (policy, ctx) = if bookmark_push.force {
            (BookmarkUpdatePolicy::AnyPermittedByConfig, ErrorContext::MoveScratchBookmark)
        } else {
            (BookmarkUpdatePolicy::FastForwardOnly, ErrorContext::FastForwardScratchBookmark)
        };
        (
            BookmarkMovementOp::update(
                name,
                old_target,
                bookmark_push.new,
                policy,
                BookmarkUpdateReason::Push,
            ).only_if_scratch().with_bundle_replay_data(bundle_replay),
            ctx,
        )
    };
    assert(scratch_push_view(*bookmark_push, bundle_replay) == Some(op@));
    let no_mapping = HookRejectionRemapper { mapping: Vec::new() };
    assert(no_mapping.mapping@ =~= Seq::<IdMapping>::empty());
    match op.run(repo, cfg, replies) {
        Ok(_) => Ok(()),
        Err(e) => Err(resolve_movement_error(e, &no_mapping, Some(ctx))),
    }
}

/// Runs a plain push: rejects more than one bookmark move before doing
/// anything, stores the mutation records when they are accepted, applies the
/// bookmark move if there is one, and queues the uploaded commits to the
/// audit log.
pub fn run_push(
    repo: &mut Repo,
    effects: &mut SideEffects,
    cfg: &ProcessingConfig,
    action: PostResolvePush,
    replies: CollaboratorReplies,
) -> (r: Result<UnbundlePushResponse, BundleResolverError>)
    requires
        old(repo).wf(),
    ensures
        final(repo).wf(),
        final(repo).name_view() == old(repo).name_view(),
        final(repo).public() == old(repo).public(),
        r is Err ==> storage_unchanged(*old(repo), *final(repo)),
        push_outcome(*old(repo), *final(repo), *cfg, action, replies, r is Ok),
        final(effects).preserved_bundles == old(effects).preserved_bundles,
        final(effects).warnings == old(effects).warnings,
        final(effects).counters == old(effects).counters,
        action.bookmark_pushes@.len() > 1 ==> {
            &&& r is Err
            &&& is_generic(
                r->Err_0,
                FailureCause::MultipleBookmarkPushes(action.bookmark_pushes@.len() as usize),
                Seq::empty(),
            )
            &&& *final(repo) == *old(repo)
            &&& *final(effects) == *old(effects)
        },
        action.bookmark_pushes@.len() <= 1 ==> {
            &&& mutations_stored(
                old(effects).mutation_batches@,
                final(effects).mutation_batches@,
                cfg.mutation_accept,
                MutationBatch {
                    changesets: action.uploaded_hg_changeset_ids,
                    records: action.mutations,
                },
            )
            &&& r is Ok ==> r->Ok_0.changegroup_id == action.changegroup_id
        },
        action.bookmark_pushes@.len() == 0 ==> {
            &&& r is Ok
            &&& r->Ok_0.bookmark_ids@ == Seq::<u32>::empty()
            &&& storage_unchanged(*old(repo), *final(repo))
            &&& final(effects).commit_log@ == old(effects).commit_log@ + commit_log_entries(
                cfg.push_commit_log_category,
                None,
                action.uploaded_bonsais@,
            )
        },
        action.bookmark_pushes@.len() == 1 ==> {
            let push = action.bookmark_pushes@[0];
            &&& plain_push_effect(
                *old(repo),
                *final(repo),
                cfg.movement,
                push,
                action.uploaded_bonsais@,
                action.non_fast_forward_policy,
                BookmarkUpdateReason::Push,
                action.maybe_raw_bundle2_id,
                action.hook_rejection_remapper.mapping@,
                replies,
                r is Ok,
                r->Err_0,
            )
            &&& r is Ok ==> r->Ok_0.bookmark_ids@ == seq![push.part_id]
            &&& final(effects).commit_log@ == old(effects).commit_log@ + if r is Ok {
                commit_log_entries(
                    cfg.push_commit_log_category,
                    Some(push.name),
                    action.uploaded_bonsais@,
                )
            } else {
                Seq::empty()
            }
        },
{
    let PostResolvePush {
        changegroup_id,
        bookmark_pushes,
        mutations,
        maybe_raw_bundle2_id,
        maybe_pushvars,
        non_fast_forward_policy,
        uploaded_bonsais,
        uploaded_hg_changeset_ids,
        hook_rejection_remapper,
    } = action;
    let mut bookmark_pushes = bookmark_pushes;
    if bookmark_pushes.len() > 1 {
        return Err(
            BundleResolverError::Error(
                GenericError {
                    cause: FailureCause::MultipleBookmarkPushes(bookmark_pushes.len()),
                    context: Vec::new(),
                },
            ),
        );
    }
    store_mutations(effects, cfg.mutation_accept, uploaded_hg_changeset_ids, mutations);
    let new_changeset_ids = copy_ids(&uploaded_bonsais);
    let mut bookmark_ids: Vec<u32> = Vec::new();
    let maybe_bookmark = match bookmark_pushes.pop() {
        Some(bookmark_push) => {
            bookmark_ids.push(bookmark_push.part_id);
            let res = plain_push_bookmark(
                repo,
                &cfg.movement,
                &bookmark_push,
                uploaded_bonsais,
                non_fast_forward_policy,
                BookmarkUpdateReason::Push,
                maybe_pushvars,
                maybe_raw_bundle2_id,
                &hook_rejection_remapper,
                replies,
            );
            match res {
                Ok(()) => {},
                Err(e) => {
                    assert(old(effects).commit_log@ + Seq::<CommitLogEntry>::empty() =~= effects.commit_log@);
                    return Err(e);
                },
            }
            Some(bookmark_push.name)
        },
        None => None,
    };
    log_commits_to_scribe(
        effects,
        maybe_bookmark.as_ref(),
        &new_changeset_ids,
        &cfg.push_commit_log_category,
    );
    Ok(UnbundlePushResponse { changegroup_id, bookmark_ids })
}

/// Runs a scratch push: queues the raw bundle for preservation unless the
/// push comes from cross-backend synchronisation, stores the mutation
/// records when they are accepted, applies the scratch bookmark move if
/// there is one, and queues the uploaded commits to the audit log.
pub fn run_infinitepush(
    repo: &mut Repo,
    effects: &mut SideEffects,
    cfg: &ProcessingConfig,
    action: PostResolveInfinitePush,
    replies: CollaboratorReplies,
) -> (r: Result<UnbundleInfinitePushResponse, BundleResolverError>)
    requires
        old(repo).wf(),
    ensures
        final(repo).wf(),
        final(repo).name_view() == old(repo).name_view(),
        final(repo).public() == old(repo).public(),
        r is Err ==> storage_unchanged(*old(repo), *final(repo)),
        infinitepush_outcome(*old(repo), *final(repo), *cfg, action, replies, r is Ok),
        final(effects).counters == old(effects).counters,
        bundle_preserved(
            old(effects).preserved_bundles@,
            final(effects).preserved_bundles@,
            cfg.preserve_bundles && !action.is_cross_backend_sync,
            old(repo).name_view(),
            action.maybe_raw_bundle2_id,
        ),
        mutations_stored(
            old(effects).mutation_batches@,
            final(effects).mutation_batches@,
            cfg.mutation_accept,
            MutationBatch {
                changesets: action.uploaded_hg_changeset_ids,
                records: action.mutations,
            },
        ),
        match action.maybe_bookmark_push {
            Some(push) => scratch_push_effect(
                *old(repo),
                *final(repo),
                cfg.movement,
                push,
                action.maybe_raw_bundle2_id,
                replies,
                r is Ok,
                r->Err_0,
            ),
            None => r is Ok && storage_unchanged(*old(repo), *final(repo)),
        },
        r is Ok ==> r->Ok_0.changegroup_id == action.changegroup_id,
        r is Ok ==> final(effects).commit_log@ == old(effects).commit_log@ + commit_log_entries(
            cfg.infinitepush_commit_log_category,
            match action.maybe_bookmark_push {
                Some(push) => Some(push.name),
                None => None,
            },
            action.uploaded_bonsais@,
        ),
        r is Err ==> final(effects).commit_log == old(effects).commit_log,
{
    let PostResolveInfinitePush {
        changegroup_id,
        maybe_bookmark_push,
        mutations,
        maybe_raw_bundle2_id,
        uploaded_bonsais,
        uploaded_hg_changeset_ids,
        is_cross_backend_sync,
    } = action;
    if !is_cross_backend_sync {
        save_to_reverse_filler_queue(
            effects,
            repo.name(),
            cfg.preserve_bundles,
            maybe_raw_bundle2_id,
        );
    }
    store_mutations(effects, cfg.mutation_accept, uploaded_hg_changeset_ids, mutations);
    let bookmark = match maybe_bookmark_push {
        Some(bookmark_push) => {
            let res = infinitepush_scratch_bookmark(
                repo,
                &cfg.movement,
                &bookmark_push,
                maybe_raw_bundle2_id,
                replies,
            );
            match res {
                Ok(()) => {},
                Err(e) => {
                    return Err(e);
                },
            }
            Some(bookmark_push.name)
        },
        None => None,
    };
    log_commits_to_scribe(
        effects,
        bookmark.as_ref(),
        &uploaded_bonsais,
        &cfg.infinitepush_commit_log_category,
    );
    Ok(UnbundleInfinitePushResponse { changegroup_id })
}

/// The movement of a normal pushrebase onto `bookmark`.
pub open spec fn normal_pushrebase_view(
    bookmark: Seq<char>,
    changesets: Seq<ChangesetId>,
    replay: Option<RawBundle2Id>,
) -> MovementView {
    MovementView {
        bookmark,
        movement: Movement::PushrebaseOnto,
        restrictions: BookmarkKindRestrictions::OnlyPublic,
        reason: BookmarkUpdateReason::Pushrebase,
        new_changesets: changesets,
        bundle_replay: replay,
    }
}

/// Rebases the pushed changesets onto a public bookmark and moves it to the
/// rebased head; returns the head and the rebased pairs.
pub fn normal_pushrebase(
    repo: &mut Repo,
    cfg: &MovementConfig,
    changesets: Vec<ChangesetId>,
    bookmark: &BookmarkName,
    maybe_pushvars: Option<Vec<Pushvar>>,
    maybe_hg_replay_data: Option<RawBundle2Id>,
    hook_rejection_remapper: &HookRejectionRemapper,
    replies: CollaboratorReplies,
) -> (r: Result<(ChangesetId, Vec<RebasedPair>), BundleResolverError>)
    requires
        old(repo).wf(),
    ensures
        final(repo).wf(),
        final(repo).name_view() == old(repo).name_view(),
        final(repo).public() == old(repo).public(),
        ({
            let mv = normal_pushrebase_view(bookmark@, changesets@, maybe_hg_replay_data);
            &&& movement_storage(mv, *cfg, replies, *old(repo), *final(repo))
            &&& movement_reported(
                mv,
                *cfg,
                old(repo).stored(bookmark@),
                replies,
                hook_rejection_remapper.mapping@,
                Seq::empty(),
                r is Ok,
                r->Err_0,
            )
        }),
        r is Ok ==> replies.rebase is Ok && r->Ok_0.0 == replies.rebase->Ok_0.head
            && r->Ok_0.1 == replies.rebase->Ok_0.rebased_changesets,
        r is Err ==> storage_unchanged(*old(repo), *final(repo)),
{
    let op = BookmarkMovementOp::pushrebase_onto(bookmark.duplicate(), changesets).only_if_public().with_pushvars(
        maybe_pushvars,
    ).with_bundle_replay_data(maybe_hg_replay_data);
    assert(op@ == normal_pushrebase_view(bookmark@, changesets@, maybe_hg_replay_data));
    match op.run(repo, cfg, replies) {
        Ok(MovementOutcome::Rebased(outcome)) => Ok((outcome.head, outcome.rebased_changesets)),
        Ok(MovementOutcome::Moved) => {
            assert(false);
            Err(BundleResolverError::RaceError)
        },
        Err(e) => Err(resolve_movement_error(e, hook_rejection_remapper, None)),
    }
}

/// Moves a public bookmark straight to an explicit target (no rebase), as a
/// plain push that may move backwards; the uploaded commits are queued to
/// the audit log. The rebased pairs returned are always empty.
pub fn force_pushrebase(
    repo: &mut Repo,
    effects: &mut SideEffects,
    cfg: &ProcessingConfig,
    uploaded_bonsais: Vec<ChangesetId>,
    bookmark_push: PlainBookmarkPush,
    maybe_pushvars: Option<Vec<Pushvar>>,
    maybe_hg_replay_data: Option<RawBundle2Id>,
    hook_rejection_remapper: &HookRejectionRemapper,
    replies: CollaboratorReplies,
) -> (r: Result<(ChangesetId, Vec<RebasedPair>), BundleResolverError>)
    requires
        old(repo).wf(),
    ensures
        final(repo).wf(),
        final(repo).name_view() == old(repo).name_view(),
        final(repo).public() == old(repo).public(),
        r is Err ==> storage_unchanged(*old(repo), *final(repo)),
        final(effects).mutation_batches == old(effects).mutation_batches,
        final(effects).preserved_bundles == old(effects).preserved_bundles,
        final(effects).warnings == old(effects).warnings,
        final(effects).counters == old(effects).counters,
        bookmark_push.new is None ==> {
            &&& r is Err
            &&& is_generic(r->Err_0, FailureCause::MissingForcePushrebaseTarget, Seq::empty())
            &&& *final(repo) == *old(repo)
            &&& *final(effects) == *old(effects)
        },
        bookmark_push.new is Some ==> plain_push_effect(
            *old(repo),
            *final(repo),
            cfg.movement,
            bookmark_push,
            uploaded_bonsais@,
            NonFastForwardPolicy::Allowed,
            BookmarkUpdateReason::Pushrebase,
            maybe_hg_replay_data,
            hook_rejection_remapper.mapping@,
            replies,
            r is Ok,
            r->Err_0,
        ),
        r is Ok ==> r->Ok_0.0 == bookmark_push.new->Some_0 && r->Ok_0.1@.len() == 0,
        r is Ok ==> final(effects).commit_log@ == old(effects).commit_log@ + commit_log_entries(
            cfg.pushrebase_commit_log_category,
            Some(bookmark_push.name),
            uploaded_bonsais@,
        ),
        r is Err ==> final(effects).commit_log == old(effects).commit_log,
{
    let new_target = match bookmark_push.new {
        Some(t) => t,
        None => {
            return Err(
                BundleResolverError::Error(
                    GenericError {
                        cause: FailureCause::MissingForcePushrebaseTarget,
                        context: Vec::new(),
                    },
                ),
            );
        },
    };
    let new_changeset_ids = copy_ids(&uploaded_bonsais);
    let res = plain_push_bookmark(
        repo,
        &cfg.movement,
        &bookmark_push,
        uploaded_bonsais,
        NonFastForwardPolicy::Allowed,
        BookmarkUpdateReason::Pushrebase,
        maybe_pushvars,
        maybe_hg_replay_data,
        hook_rejection_remapper,
        replies,
    );
    match res {
        Ok(()) => {},
        Err(e) => {
            return Err(e);
        },
    }
    log_commits_to_scribe(
        effects,
        Some(&bookmark_push.name),
        &new_changeset_ids,
        &cfg.pushrebase_commit_log_category,
    );
    Ok((new_target, Vec::new()))
}

/// The storage part of `plain_push_effect`.
pub open spec fn plain_push_storage(
    before: Repo,
    after: Repo,
    cfg: MovementConfig,
    push: PlainBookmarkPush,
    new_changesets: Seq<ChangesetId>,
    nff: NonFastForwardPolicy,
    reason: BookmarkUpdateReason,
    replay: Option<RawBundle2Id>,
    replies: CollaboratorReplies,
) -> bool {
    match plain_push_view(push, new_changesets, nff, reason, replay) {
        None => storage_unchanged(before, after),
        Some(mv) => movement_storage(mv, cfg, replies, before, after),
    }
}

/// Whether a plain bookmark push succeeds.
pub open spec fn plain_push_succeeds(
    before: Repo,
    cfg: MovementConfig,
    push: PlainBookmarkPush,
    new_changesets: Seq<ChangesetId>,
    nff: NonFastForwardPolicy,
    reason: BookmarkUpdateReason,
    replay: Option<RawBundle2Id>,
    replies: CollaboratorReplies,
) -> bool {
    match plain_push_view(push, new_changesets, nff, reason, replay) {
        None => true,
        Some(mv) => movement_result(mv, cfg, before.stored(push.name@), replies) is Ok,
    }
}

/// Runs a pushrebase, normal or forced, then marks the resulting head public
/// and queues the rebased commits to the audit log.
pub fn run_pushrebase(
    repo: &mut Repo,
    effects: &mut SideEffects,
    cfg: &ProcessingConfig,
    action: PostResolvePushRebase,
    replies: CollaboratorReplies,
) -> (r: Result<UnbundlePushRebaseResponse, BundleResolverError>)
    requires
        old(repo).wf(),
    ensures
        final(repo).wf(),
        final(repo).name_view() == old(repo).name_view(),
        r is Err ==> storage_unchanged(*old(repo), *final(repo)),
        r is Err ==> final(repo).public() == old(repo).public(),
        r is Err ==> final(effects).commit_log == old(effects).commit_log,
        pushrebase_outcome(*old(repo), *final(repo), *cfg, action, replies, r is Ok),
        final(effects).mutation_batches == old(effects).mutation_batches,
        final(effects).preserved_bundles == old(effects).preserved_bundles,
        final(effects).warnings == old(effects).warnings,
        final(effects).counters == old(effects).counters,
        r is Ok ==> {
            let resp = r->Ok_0;
            &&& final(repo).public() == old(repo).public().push(resp.pushrebased_rev)
            &&& resp.onto@ == spec_bookmark_name(action.bookmark_spec)
            &&& resp.commonheads == action.commonheads
            &&& resp.bookmark_push_part_id == action.bookmark_push_part_id
        },
        match action.bookmark_spec {
            PushrebaseBookmarkSpec::NormalPushrebase(onto) => {
                let mv = normal_pushrebase_view(
                    onto@,
                    action.uploaded_bonsais@,
                    action.maybe_hg_replay_data,
                );
                &&& movement_storage(mv, cfg.movement, replies, *old(repo), *final(repo))
                &&& movement_reported(
                    mv,
                    cfg.movement,
                    old(repo).stored(onto@),
                    replies,
                    action.hook_rejection_remapper.mapping@,
                    Seq::empty(),
                    r is Ok,
                    r->Err_0,
                )
                &&& r is Ok ==> {
                    &&& r->Ok_0.pushrebased_rev == replies.rebase->Ok_0.head
                    &&& r->Ok_0.pushrebased_changesets == replies.rebase->Ok_0.rebased_changesets
                    &&& final(effects).commit_log@ == old(effects).commit_log@
                        + commit_log_entries(
                        cfg.pushrebase_commit_log_category,
                        Some(r->Ok_0.onto),
                        rebased_ids(r->Ok_0.pushrebased_changesets@),
                    )
                }
            },
            PushrebaseBookmarkSpec::ForcePushrebase(push) => {
                &&& push.new is None ==> r is Err && is_generic(
                    r->Err_0,
                    FailureCause::MissingForcePushrebaseTarget,
                    seq![ErrorContext::ForcePushrebase],
                )
                &&& push.new is Some ==> plain_push_storage(
                    *old(repo),
                    *final(repo),
                    cfg.movement,
                    push,
                    action.uploaded_bonsais@,
                    NonFastForwardPolicy::Allowed,
                    BookmarkUpdateReason::Pushrebase,
                    action.maybe_hg_replay_data,
                    replies,
                ) && (r is Ok <==> plain_push_succeeds(
                    *old(repo),
                    cfg.movement,
                    push,
                    action.uploaded_bonsais@,
                    NonFastForwardPolicy::Allowed,
                    BookmarkUpdateReason::Pushrebase,
                    action.maybe_hg_replay_data,
                    replies,
                ))
                &&& r is Ok ==> {
                    &&& r->Ok_0.pushrebased_rev == push.new->Some_0
                    &&& r->Ok_0.pushrebased_changesets@.len() == 0
                    &&& final(effects).commit_log@ == old(effects).commit_log@
                        + commit_log_entries(
                        cfg.pushrebase_commit_log_category,
                        Some(push.name),
                        action.uploaded_bonsais@,
                    )
                }
            },
        },
{
    let PostResolvePushRebase {
        bookmark_push_part_id,
        bookmark_spec,
        maybe_hg_replay_data,
        maybe_pushvars,
        commonheads,
        uploaded_bonsais,
        hook_rejection_remapper,
    } = action;
    let bookmark = bookmark_spec.get_bookmark_name().duplicate();
    let (pushrebased_rev, pushrebased_changesets) = match bookmark_spec {
        PushrebaseBookmarkSpec::NormalPushrebase(onto_bookmark) => {
            match normal_pushrebase(
                repo,
                &cfg.movement,
                uploaded_bonsais,
                &onto_bookmark,
                maybe_pushvars,
                maybe_hg_replay_data,
                &hook_rejection_remapper,
                replies,
            ) {
                Ok(res) => res,
                Err(e) => {
                    return Err(e);
                },
            }
        },
        PushrebaseBookmarkSpec::ForcePushrebase(plain_push) => {
            match force_pushrebase(
                repo,
                effects,
                cfg,
                uploaded_bonsais,
                plain_push,
                maybe_pushvars,
                maybe_hg_replay_data,
                &hook_rejection_remapper,
                replies,
            ) {
                Ok(res) => res,
                Err(e) => {
                    return Err(with_context(e, ErrorContext::ForcePushrebase));
                },
            }
        },
    };
    let ghost effects_mid = *effects;
    repo.mark_public(pushrebased_rev);
    let new_commits = new_ids_of(&pushrebased_changesets);
    log_commits_to_scribe(
        effects,
        Some(&bookmark),
        &new_commits,
        &cfg.pushrebase_commit_log_category,
    );
    assert(effects.commit_log@ == effects_mid.commit_log@ + commit_log_entries(
        cfg.pushrebase_commit_log_category,
        Some(bookmark),
        rebased_ids(pushrebased_changesets@),
    ));
    proof {
        if pushrebased_changesets@.len() == 0 {
            assert(commit_log_entries(
                cfg.pushrebase_commit_log_category,
                Some(bookmark),
                rebased_ids(pushrebased_changesets@),
            ) =~= Seq::<CommitLogEntry>::empty());
            assert(effects.commit_log@ =~= effects_mid.commit_log@);
        }
    }
    Ok(
        UnbundlePushRebaseResponse {
            commonheads,
            pushrebased_rev,
            pushrebased_changesets,
            onto: bookmark,
            bookmark_push_part_id,
        },
    )
}

/// Runs a bookmark move sent through the pushrebase path: a plain bookmark
/// push that introduces no changesets, recorded with the pushrebase reason.
pub fn run_bookmark_only_pushrebase(
    repo: &mut Repo,
    cfg: &ProcessingConfig,
    action: PostResolveBookmarkOnlyPushRebase,
    replies: CollaboratorReplies,
) -> (r: Result<UnbundleBookmarkOnlyPushRebaseResponse, BundleResolverError>)
    requires
        old(repo).wf(),
    ensures
        final(repo).wf(),
        final(repo).name_view() == old(repo).name_view(),
        final(repo).public() == old(repo).public(),
        final(repo).changesets() == old(repo).changesets(),
        r is Err ==> storage_unchanged(*old(repo), *final(repo)),
        bookmark_only_outcome(*old(repo), *final(repo), *cfg, action, replies, r is Ok),
        plain_push_effect(
            *old(repo),
            *final(repo),
            cfg.movement,
            action.bookmark_push,
            Seq::empty(),
            action.non_fast_forward_policy,
            BookmarkUpdateReason::Pushrebase,
            action.maybe_raw_bundle2_id,
            action.hook_rejection_remapper.mapping@,
            replies,
            r is Ok,
            r->Err_0,
        ),
        r is Ok ==> r->Ok_0.bookmark_push_part_id == action.bookmark_push.part_id,
{
    let PostResolveBookmarkOnlyPushRebase {
        bookmark_push,
        maybe_raw_bundle2_id,
        maybe_pushvars,
        non_fast_forward_policy,
        hook_rejection_remapper,
    } = action;
    let part_id = bookmark_push.part_id;
    let new_changesets: Vec<ChangesetId> = Vec::new();
    let res = plain_push_bookmark(
        repo,
        &cfg.movement,
        &bookmark_push,
        new_changesets,
        non_fast_forward_policy,
        BookmarkUpdateReason::Pushrebase,
        maybe_pushvars,
        maybe_raw_bundle2_id,
        &hook_rejection_remapper,
        replies,
    );
    assert(old(repo).changesets() + Seq::<ChangesetId>::empty() =~= old(repo).changesets());
    match res {
        Ok(()) => Ok(UnbundleBookmarkOnlyPushRebaseResponse { bookmark_push_part_id: part_id }),
        Err(e) => Err(e),
    }
}

/// The storage part of `scratch_push_effect`.
pub open spec fn scratch_push_storage(
    before: Repo,
    after: Repo,
    cfg: MovementConfig,
    push: InfiniteBookmarkPush,
    replay: Option<RawBundle2Id>,
    replies: CollaboratorReplies,
) -> bool {
    match scratch_push_view(push, replay) {
        None => storage_unchanged(before, after),
        Some(mv) => movement_storage(mv, cfg, replies, before, after),
    }
}

/// Whether a scratch bookmark push succeeds.
pub open spec fn scratch_push_succeeds(
    before: Repo,
    cfg: MovementConfig,
    push: InfiniteBookmarkPush,
    replay: Option<RawBundle2Id>,
    replies: CollaboratorReplies,
) -> bool {
    match scratch_push_view(push, replay) {
        None => false,
        Some(mv) => movement_result(mv, cfg, before.stored(push.name@), replies) is Ok,
    }
}

/// Storage after a plain push, and whether it succeeds.
pub open spec fn push_outcome(
    before: Repo,
    after: Repo,
    cfg: ProcessingConfig,
    action: PostResolvePush,
    replies: CollaboratorReplies,
    ok: bool,
) -> bool {
    let pushes = action.bookmark_pushes@;
    if pushes.len() > 1 {
        !ok && storage_unchanged(before, after)
    } else if pushes.len() == 0 {
        ok && storage_unchanged(before, after)
    } else {
        &&& plain_push_storage(
            before,
            after,
            cfg.movement,
            pushes[0],
            action.uploaded_bonsais@,
            action.non_fast_forward_policy,
            BookmarkUpdateReason::Push,
            action.maybe_raw_bundle2_id,
            replies,
        )
        &&& ok == plain_push_succeeds(
            before,
            cfg.movement,
            pushes[0],
            action.uploaded_bonsais@,
            action.non_fast_forward_policy,
            BookmarkUpdateReason::Push,
            action.maybe_raw_bundle2_id,
            replies,
        )
    }
}

/// Storage after a scratch push, and whether it succeeds.
pub open spec fn infinitepush_outcome(
    before: Repo,
    after: Repo,
    cfg: ProcessingConfig,
    action: PostResolveInfinitePush,
    replies: CollaboratorReplies,
    ok: bool,
) -> bool {
    match action.maybe_bookmark_push {
        Some(push) => scratch_push_storage(
            before,
            after,
            cfg.movement,
            push,
            action.maybe_raw_bundle2_id,
            replies,
        ) && ok == scratch_push_succeeds(
            before,
            cfg.movement,
            push,
            action.maybe_raw_bundle2_id,
            replies,
        ),
        None => ok && storage_unchanged(before, after),
    }
}

/// Storage after a pushrebase, and whether it succeeds.
pub open spec fn pushrebase_outcome(
    before: Repo,
    after: Repo,
    cfg: ProcessingConfig,
    action: PostResolvePushRebase,
    replies: CollaboratorReplies,
    ok: bool,
) -> bool {
    match action.bookmark_spec {
        PushrebaseBookmarkSpec::NormalPushrebase(onto) => {
            let mv = normal_pushrebase_view(
                onto@,
                action.uploaded_bonsais@,
                action.maybe_hg_replay_data,
            );
            movement_storage(mv, cfg.movement, replies, before, after) && ok == movement_result(
                mv,
                cfg.movement,
                before.stored(onto@),
                replies,
            ) is Ok
        },
        PushrebaseBookmarkSpec::ForcePushrebase(push) => if push.new is None {
            !ok && storage_unchanged(before, after)
        } else {
            &&& plain_push_storage(
                before,
                after,
                cfg.movement,
                push,
                action.uploaded_bonsais@,
                NonFastForwardPolicy::Allowed,
                BookmarkUpdateReason::Pushrebase,
                action.maybe_hg_replay_data,
                replies,
            )
            &&& ok == plain_push_succeeds(
                before,
                cfg.movement,
                push,
                action.uploaded_bonsais@,
                NonFastForwardPolicy::Allowed,
                BookmarkUpdateReason::Pushrebase,
                action.maybe_hg_replay_data,
                replies,
            )
        },
    }
}

/// Storage after a bookmark-only pushrebase, and whether it succeeds.
pub open spec fn bookmark_only_outcome(
    before: Repo,
    after: Repo,
    cfg: ProcessingConfig,
    action: PostResolveBookmarkOnlyPushRebase,
    replies: CollaboratorReplies,
    ok: bool,
) -> bool {
    &&& plain_push_storage(
        before,
        after,
        cfg.movement,
        action.bookmark_push,
        Seq::empty(),
        action.non_fast_forward_policy,
        BookmarkUpdateReason::Pushrebase,
        action.maybe_raw_bundle2_id,
        replies,
    )
    &&& ok == plain_push_succeeds(
        before,
        cfg.movement,
        action.bookmark_push,
        Seq::empty(),
        action.non_fast_forward_policy,
        BookmarkUpdateReason::Pushrebase,
        action.maybe_raw_bundle2_id,
        replies,
    )
}

/// Storage after an admitted action, and whether it succeeds.
pub open spec fn action_outcome(
    before: Repo,
    after: Repo,
    cfg: ProcessingConfig,
    action: PostResolveAction,
    replies: CollaboratorReplies,
    ok: bool,
) -> bool {
    match action {
        PostResolveAction::Push(a) => push_outcome(before, after, cfg, a, replies, ok),
        PostResolveAction::InfinitePush(a) => infinitepush_outcome(before, after, cfg, a, replies, ok),
        PostResolveAction::PushRebase(a) => pushrebase_outcome(before, after, cfg, a, replies, ok),
        PostResolveAction::BookmarkOnlyPushRebase(a) => bookmark_only_outcome(
            before,
            after,
            cfg,
            a,
            replies,
            ok,
        ),
    }
}

/// `response` is what a successful `action` answers.
pub open spec fn response_for(
    action: PostResolveAction,
    replies: CollaboratorReplies,
    response: UnbundleResponse,
) -> bool {
    match action {
        PostResolveAction::Push(a) => {
            &&& response is Push
            &&& response->Push_0.changegroup_id == a.changegroup_id
            &&& response->Push_0.bookmark_ids@ == if a.bookmark_pushes@.len() == 1 {
                seq![a.bookmark_pushes@[0].part_id]
            } else {
                Seq::empty()
            }
        },
        PostResolveAction::InfinitePush(a) => response is InfinitePush
            && response->InfinitePush_0.changegroup_id == a.changegroup_id,
        PostResolveAction::PushRebase(a) => {
            let resp = response->PushRebase_0;
            &&& response is PushRebase
            &&& resp.onto@ == spec_bookmark_name(a.bookmark_spec)
            &&& resp.commonheads == a.commonheads
            &&& resp.bookmark_push_part_id == a.bookmark_push_part_id
            &&& match a.bookmark_spec {
                PushrebaseBookmarkSpec::NormalPushrebase(_) => {
                    &&& resp.pushrebased_rev == replies.rebase->Ok_0.head
                    &&& resp.pushrebased_changesets == replies.rebase->Ok_0.rebased_changesets
                },
                PushrebaseBookmarkSpec::ForcePushrebase(push) => {
                    &&& resp.pushrebased_rev == push.new->Some_0
                    &&& resp.pushrebased_changesets@.len() == 0
                },
            }
        },
        PostResolveAction::BookmarkOnlyPushRebase(a) => response is BookmarkOnlyPushRebase
            && response->BookmarkOnlyPushRebase_0.bookmark_push_part_id == a.bookmark_push.part_id,
    }
}

/// Applies one resolved action: fails fast when the rate limiter did not
/// admit it, else runs the one strategy the action calls for and, on
/// success, counts it. A failed action leaves bookmarks, changesets and the
/// bookmark log as they were.
pub fn run_post_resolve_action(
    repo: &mut Repo,
    effects: &mut SideEffects,
    cfg: &ProcessingConfig,
    admitted: bool,
    action: PostResolveAction,
    replies: CollaboratorReplies,
) -> (r: Result<UnbundleResponse, BundleResolverError>)
    requires
        old(repo).wf(),
    ensures
        final(repo).wf(),
        final(repo).name_view() == old(repo).name_view(),
        !admitted ==> r == Err::<UnbundleResponse, BundleResolverError>(
            BundleResolverError::RateLimited,
        ) && *final(repo) == *old(repo) && *final(effects) == *old(effects),
        r is Err ==> storage_unchanged(*old(repo), *final(repo)),
        r is Err ==> final(repo).public() == old(repo).public(),
        r is Err ==> final(effects).counters == old(effects).counters,
        r is Ok ==> answers(action, r->Ok_0),
        r is Ok ==> response_for(action, replies, r->Ok_0),
        admitted ==> action_outcome(*old(repo), *final(repo), *cfg, action, replies, r is Ok),
        r is Ok ==> final(effects).counters == counted(old(effects).counters, r->Ok_0),
        (admitted && action is Push && action->Push_0.bookmark_pushes@.len() > 1) ==> {
            &&& r is Err
            &&& is_generic(
                r->Err_0,
                FailureCause::MultipleBookmarkPushes(
                    action->Push_0.bookmark_pushes@.len() as usize,
                ),
                seq![ErrorContext::Push],
            )
            &&& *final(repo) == *old(repo)
            &&& *final(effects) == *old(effects)
        },
{
    if !admitted {
        return Err(BundleResolverError::RateLimited);
    }
    let response = match action {
        PostResolveAction::Push(action) => match run_push(repo, effects, cfg, action, replies) {
            Ok(resp) => UnbundleResponse::Push(resp),
            Err(e) => {
                return Err(with_context(e, ErrorContext::Push));
            },
        },
        PostResolveAction::InfinitePush(action) => match run_infinitepush(
            repo,
            effects,
            cfg,
            action,
            replies,
        ) {
            Ok(resp) => UnbundleResponse::InfinitePush(resp),
            Err(e) => {
                return Err(with_context(e, ErrorContext::InfinitePush));
            },
        },
        PostResolveAction::PushRebase(action) => match run_pushrebase(
            repo,
            effects,
            cfg,
            action,
            replies,
        ) {
            Ok(resp) => UnbundleResponse::PushRebase(resp),
            Err(e) => {
                return Err(e);
            },
        },
        PostResolveAction::BookmarkOnlyPushRebase(action) => match run_bookmark_only_pushrebase(
            repo,
            cfg,
            action,
            replies,
        ) {
            Ok(resp) => UnbundleResponse::BookmarkOnlyPushRebase(resp),
            Err(e) => {
                return Err(with_context(e, ErrorContext::BookmarkOnlyPushrebase));
            },
        },
    };
    report_unbundle_type(effects, &response);
    Ok(response)
}

/// Extra steps run inside a pushrebase.
#[derive(Clone, Copy, Debug, PartialEq, Eq, Structural)]
pub enum PushrebaseHookKind {
    /// Assigns a global revision number to each rebased commit.
    Globalrev,
    /// Records the git commit of each rebased commit.
    GitMapping,
}

/// The pushrebase hooks the configuration asks for, in the order they run.
pub fn get_pushrebase_hooks(cfg: &ProcessingConfig) -> (r: Vec<PushrebaseHookKind>)
    ensures
        r@ == if cfg.assign_globalrevs {
            seq![PushrebaseHookKind::Globalrev]
        } else {
            Seq::empty()
        } + if cfg.populate_git_mapping {
            seq![PushrebaseHookKind::GitMapping]
        } else {
            Seq::empty()
        },
{
    let mut hooks: Vec<PushrebaseHookKind> = Vec::new();
    if cfg.assign_globalrevs {
        hooks.push(PushrebaseHookKind::Globalrev);
    }
    if cfg.populate_git_mapping {
        hooks.push(PushrebaseHookKind::GitMapping);
    }
    assert(hooks@ =~= if cfg.assign_globalrevs {
        seq![PushrebaseHookKind::Globalrev]
    } else {
        Seq::empty()
    } + if cfg.populate_git_mapping {
        seq![PushrebaseHookKind::GitMapping]
    } else {
        Seq::empty()
    });
    hooks
}

} // verus!

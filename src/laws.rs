use vstd::prelude::*;

use crate::ids::ChangesetId;
use crate::movement::{
    hooks_apply, kind_check, movement_applies, movement_result, movement_storage,
    storage_unchanged, BookmarkMovementError, BookmarkUpdatePolicy, CollaboratorReplies, Movement,
    MovementConfig, MovementView,
};
use crate::repo::Repo;

verus! {

/// A bookmark movement that fails writes nothing: bookmarks, changesets and
/// the bookmark log stay as they were.
pub proof fn failed_movement_writes_nothing(
    op: MovementView,
    cfg: MovementConfig,
    replies: CollaboratorReplies,
    before: Repo,
    after: Repo,
)
    requires
        movement_storage(op, cfg, replies, before, after),
        movement_result(op, cfg, before.stored(op.bookmark), replies) is Err,
    ensures
        storage_unchanged(before, after),
{
}

/// Two updates of one bookmark that both observed it at `old`: once the
/// first has been applied, moving the bookmark to a different value, the
/// second cannot apply, and when its own checks pass it fails with a lost
/// compare-and-swap. The winner's new value is what the bookmark holds.
pub proof fn concurrent_updates_one_winner(
    first: MovementView,
    second: MovementView,
    cfg: MovementConfig,
    first_replies: CollaboratorReplies,
    second_replies: CollaboratorReplies,
    before: Repo,
    after: Repo,
)
    requires
        first.movement is Update,
        second.movement is Update,
        first.bookmark == second.bookmark,
        first.movement->Update_old == second.movement->Update_old,
        first.movement->Update_new != first.movement->Update_old,
        before.stored(first.bookmark) == Some(first.movement->Update_old),
        movement_storage(first, cfg, first_replies, before, after),
    ensures
        movement_result(first, cfg, before.stored(first.bookmark), first_replies) is Ok ==> {
            &&& after.stored(first.bookmark) == Some(first.movement->Update_new)
            &&& !movement_applies(second, cfg, after.stored(second.bookmark), second_replies)
            &&& movement_result(second, cfg, after.stored(second.bookmark), second_replies) is Err
            &&& crate::movement::precheck(
                second,
                cfg,
                after.stored(second.bookmark),
                second_replies,
            ) is None ==> movement_result(
                second,
                cfg,
                after.stored(second.bookmark),
                second_replies,
            ) == Err::<crate::movement::MovementOutcome, BookmarkMovementError>(
                BookmarkMovementError::TransactionFailed,
            )
        },
        movement_result(first, cfg, before.stored(first.bookmark), first_replies) is Err
            ==> after.stored(first.bookmark) == before.stored(first.bookmark),
{
}

/// Under the fast-forward-only policy an update succeeds only when its old
/// value is an ancestor of its new value, whatever the hooks say; and when
/// the classification, the hooks and the stored value allow the move, it
/// succeeds exactly when it is a fast-forward.
pub proof fn fast_forward_only_enforced(
    op: MovementView,
    cfg: MovementConfig,
    stored: Option<ChangesetId>,
    replies: CollaboratorReplies,
)
    requires
        op.movement is Update,
        op.movement->Update_policy == BookmarkUpdatePolicy::FastForwardOnly,
    ensures
        movement_result(op, cfg, stored, replies) is Ok ==> replies.old_is_ancestor_of_new,
        !replies.old_is_ancestor_of_new ==> movement_result(op, cfg, stored, replies) is Err,
        ({
            let kind = kind_check(op.restrictions, cfg.scratch_namespace, op.bookmark);
            kind is Ok && !(hooks_apply(kind->Ok_0, op.movement)
                && replies.hook_rejections@.len() > 0) && stored == Some(op.movement->Update_old)
        }) ==> (movement_result(op, cfg, stored, replies) is Ok
            <==> replies.old_is_ancestor_of_new),
{
}

/// Creating a bookmark that already has a value fails, and so does deleting
/// a bookmark that does not hold the given old value; neither writes.
pub proof fn create_and_delete_preconditions(
    op: MovementView,
    cfg: MovementConfig,
    stored: Option<ChangesetId>,
    replies: CollaboratorReplies,
)
    ensures
        (op.movement is Create && stored is Some) ==> movement_result(
            op,
            cfg,
            stored,
            replies,
        ) is Err && !movement_applies(op, cfg, stored, replies),
        (op.movement is Delete && stored != Some(op.movement->Delete_old)) ==> movement_result(
            op,
            cfg,
            stored,
            replies,
        ) is Err && !movement_applies(op, cfg, stored, replies),
{
}

/// A pushrebase of no commits rebases nothing: when it succeeds, the
/// rebased pairs it reports are empty.
pub proof fn pushrebase_of_nothing_rebases_nothing(
    op: MovementView,
    cfg: MovementConfig,
    stored: Option<ChangesetId>,
    replies: CollaboratorReplies,
)
    requires
        op.movement is PushrebaseOnto,
        op.new_changesets.len() == 0,
        movement_result(op, cfg, stored, replies) is Ok,
    ensures
        replies.rebase is Ok,
        replies.rebase->Ok_0.rebased_changesets@.len() == 0,
{
    let pairs = replies.rebase->Ok_0.rebased_changesets@;
    if pairs.len() > 0 {
        assert(op.new_changesets.contains(pairs[0].id_old));
    }
}

} // verus!

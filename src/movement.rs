use vstd::prelude::*;
use vstd::string::StrSliceExecFns;

use crate::ids::{BookmarkName, ChangesetId, RawBundle2Id};
use crate::repo::{map_after, BookmarkLogEntry, BookmarkTransaction, BookmarkUpdateReason, Repo};

verus! {

/// How far a bookmark update may stray from its old value.
#[derive(Clone, Copy, Debug, PartialEq, Eq, Structural)]
pub enum BookmarkUpdatePolicy {
    /// The new value must be a descendant of the old one.
    FastForwardOnly,
    /// Any move, unless the repository configuration makes the bookmark
    /// fast-forward only.
    AnyPermittedByConfig,
}

/// Classification of a bookmark.
#[derive(Clone, Copy, Debug, PartialEq, Eq, Structural)]
pub enum BookmarkKind {
    /// Ephemeral, per-developer bookmark, exempt from public-history rules.
    Scratch,
    /// Published bookmark.
    Public,
}

/// Which classification the target bookmark is required to have.
#[derive(Clone, Copy, Debug, PartialEq, Eq, Structural)]
pub enum BookmarkKindRestrictions {
    AnyKind,
    OnlyScratch,
    OnlyPublic,
}

/// A variable sent by the client alongside a push and consulted by hooks.
#[derive(Debug)]
pub struct Pushvar {
    pub name: String,
    pub value: Vec<u8>,
}

/// A veto of one hook against one changeset.
#[derive(Debug)]
pub struct HookRejection {
    pub hook_name: String,
    pub changeset: ChangesetId,
    pub reason: String,
}

/// A pair of paths, one changed by the pushed commits and one changed on the
/// bookmark since their base, that prevent a rebase.
#[derive(Debug)]
pub struct PushrebaseConflict {
    pub left: String,
    pub right: String,
}

/// A rebased commit: its id as pushed and its id after the rebase.
#[derive(Clone, Copy, Debug, PartialEq, Eq, Structural)]
pub struct RebasedPair {
    pub id_old: ChangesetId,
    pub id_new: ChangesetId,
}

/// What the rebase collaborator computed: the bookmark value it rebased
/// onto, the new head, and every rebased commit in order.
#[derive(Debug)]
pub struct RebaseOutcome {
    pub onto: ChangesetId,
    pub head: ChangesetId,
    pub rebased_changesets: Vec<RebasedPair>,
}

/// Why the rebase collaborator could not rebase.
#[derive(Debug)]
pub enum RebaseError {
    Conflicts(Vec<PushrebaseConflict>),
    HookFailure(Vec<HookRejection>),
    Other(String),
}

/// Repository configuration consulted by bookmark movements.
#[derive(Debug)]
pub struct MovementConfig {
    /// Bookmarks whose names start with this prefix are scratch bookmarks;
    /// `None` disables scratch bookmarks.
    pub scratch_namespace: Option<String>,
    /// Public bookmarks that may only move forward, whatever the caller asks.
    pub fast_forward_only: Vec<BookmarkName>,
}

/// The answers of the collaborators that a bookmark movement consults: the
/// hook engine, the ancestry oracle and the rebase collaborator.
#[derive(Debug)]
pub struct CollaboratorReplies {
    /// Rejections from the hooks run against the movement; empty when all
    /// hooks accepted.
    pub hook_rejections: Vec<HookRejection>,
    /// Whether the update's old value is an ancestor of its new value.
    pub old_is_ancestor_of_new: bool,
    /// The result of rebasing the pushed commits (consulted by pushrebase
    /// movements only).
    pub rebase: Result<RebaseOutcome, RebaseError>,
}

/// The transition a movement asks for.
#[derive(Debug)]
pub enum Movement {
    Create { target: ChangesetId },
    Update { old: ChangesetId, new: ChangesetId, policy: BookmarkUpdatePolicy },
    Delete { old: ChangesetId },
    /// Rebase the new changesets onto the bookmark and move it to the result.
    PushrebaseOnto,
}

/// A single-use description of one bookmark movement, consumed by `run`.
#[derive(Debug)]
pub struct BookmarkMovementOp {
    pub bookmark: BookmarkName,
    pub movement: Movement,
    pub restrictions: BookmarkKindRestrictions,
    pub reason: BookmarkUpdateReason,
    /// Changesets introduced by the movement; stored with the bookmark write
    /// (for a pushrebase: the changesets to rebase).
    pub new_changesets: Vec<ChangesetId>,
    pub pushvars: Option<Vec<Pushvar>>,
    pub bundle_replay: Option<RawBundle2Id>,
}

/// What a movement means for storage and for the checks it runs.
pub struct MovementView {
    pub bookmark: Seq<char>,
    pub movement: Movement,
    pub restrictions: BookmarkKindRestrictions,
    pub reason: BookmarkUpdateReason,
    pub new_changesets: Seq<ChangesetId>,
    pub bundle_replay: Option<RawBundle2Id>,
}

impl View for BookmarkMovementOp {
    type V = MovementView;

    open spec fn view(&self) -> MovementView {
        MovementView {
            bookmark: self.bookmark@,
            movement: self.movement,
            restrictions: self.restrictions,
            reason: self.reason,
            new_changesets: self.new_changesets@,
            bundle_replay: self.bundle_replay,
        }
    }
}

/// Why a bookmark movement failed.
#[derive(Debug)]
pub enum BookmarkMovementError {
    ScratchBookmarksDisabled,
    InvalidScratchBookmark,
    InvalidPublicBookmark,
    NonFastForwardMove { from: ChangesetId, to: ChangesetId },
    HookFailure(Vec<HookRejection>),
    PushrebaseError(RebaseError),
    /// The rebase collaborator reported a rebased commit that was not
    /// among the commits to rebase.
    InvalidRebaseOutcome,
    BookmarkNotFound,
    /// The bookmark did not hold the expected value when the transaction was
    /// attempted: a concurrent writer won the race.
    TransactionFailed,
}

/// What a successful movement produced.
#[derive(Debug)]
pub enum MovementOutcome {
    Moved,
    Rebased(RebaseOutcome),
}

pub open spec fn in_scratch_namespace(ns: Option<String>, name: Seq<char>) -> bool {
    match ns {
        Some(p) => p@.is_prefix_of(name),
        None => false,
    }
}

/// The classification of a bookmark, or the error for a restriction it breaks.
pub open spec fn kind_check(
    restrictions: BookmarkKindRestrictions,
    ns: Option<String>,
    name: Seq<char>,
) -> Result<BookmarkKind, BookmarkMovementError> {
    let scratch = in_scratch_namespace(ns, name);
    match restrictions {
        BookmarkKindRestrictions::OnlyScratch => if ns is None {
            Err(BookmarkMovementError::ScratchBookmarksDisabled)
        } else if !scratch {
            Err(BookmarkMovementError::InvalidScratchBookmark)
        } else {
            Ok(BookmarkKind::Scratch)
        },
        BookmarkKindRestrictions::OnlyPublic => if scratch {
            Err(BookmarkMovementError::InvalidPublicBookmark)
        } else {
            Ok(BookmarkKind::Public)
        },
        BookmarkKindRestrictions::AnyKind => if scratch {
            Ok(BookmarkKind::Scratch)
        } else {
            Ok(BookmarkKind::Public)
        },
    }
}

pub open spec fn configured_fast_forward_only(cfg: MovementConfig, name: Seq<char>) -> bool {
    exists|i: int| 0 <= i < cfg.fast_forward_only@.len() && #[trigger] cfg.fast_forward_only@[i]@ == name
}

/// Whether an update must be a fast-forward.
pub open spec fn requires_fast_forward(
    policy: BookmarkUpdatePolicy,
    kind: BookmarkKind,
    configured: bool,
) -> bool {
    policy == BookmarkUpdatePolicy::FastForwardOnly || (kind == BookmarkKind::Public && configured)
}

/// Whether the hooks are consulted: for every movement but a deletion, on
/// public bookmarks.
pub open spec fn hooks_apply(kind: BookmarkKind, movement: Movement) -> bool {
    kind == BookmarkKind::Public && !(movement is Delete)
}

/// The error a movement fails with before any storage write, if any.
pub open spec fn precheck(
    op: MovementView,
    cfg: MovementConfig,
    stored: Option<ChangesetId>,
    replies: CollaboratorReplies,
) -> Option<BookmarkMovementError> {
    match kind_check(op.restrictions, cfg.scratch_namespace, op.bookmark) {
        Err(e) => Some(e),
        Ok(kind) => {
            let vetoed = hooks_apply(kind, op.movement) && replies.hook_rejections@.len() > 0;
            match op.movement {
                Movement::Create { .. } => if vetoed {
                    Some(BookmarkMovementError::HookFailure(replies.hook_rejections))
                } else {
                    None
                },
                Movement::Update { old, new, policy } => if requires_fast_forward(
                    policy,
                    kind,
                    configured_fast_forward_only(cfg, op.bookmark),
                ) && !replies.old_is_ancestor_of_new {
                    Some(BookmarkMovementError::NonFastForwardMove { from: old, to: new })
                } else if vetoed {
                    Some(BookmarkMovementError::HookFailure(replies.hook_rejections))
                } else {
                    None
                },
                Movement::Delete { .. } => None,
                Movement::PushrebaseOnto => if stored is None {
                    Some(BookmarkMovementError::BookmarkNotFound)
                } else if vetoed {
                    Some(BookmarkMovementError::HookFailure(replies.hook_rejections))
                } else {
                    match replies.rebase {
                        Err(e) => Some(BookmarkMovementError::PushrebaseError(e)),
                        Ok(o) => if rebased_from(o.rebased_changesets@, op.new_changesets) {
                            None
                        } else {
                            Some(BookmarkMovementError::InvalidRebaseOutcome)
                        },
                    }
                },
            }
        },
    }
}

/// Every rebased pair comes from one of the commits to rebase.
pub open spec fn rebased_from(pairs: Seq<RebasedPair>, changesets: Seq<ChangesetId>) -> bool {
    forall|i: int| 0 <= i < pairs.len() ==> changesets.contains(#[trigger] pairs[i].id_old)
}

/// The value the bookmark must hold for the movement's transaction to apply.
pub open spec fn planned_expected(op: MovementView, replies: CollaboratorReplies) -> Option<
    ChangesetId,
> {
    match op.movement {
        Movement::Create { .. } => None,
        Movement::Update { old, .. } => Some(old),
        Movement::Delete { old } => Some(old),
        Movement::PushrebaseOnto => Some(replies.rebase->Ok_0.onto),
    }
}

/// The value the movement's transaction stores (`None`: deletes).
pub open spec fn planned_new(op: MovementView, replies: CollaboratorReplies) -> Option<
    ChangesetId,
> {
    match op.movement {
        Movement::Create { target } => Some(target),
        Movement::Update { new, .. } => Some(new),
        Movement::Delete { .. } => None,
        Movement::PushrebaseOnto => Some(replies.rebase->Ok_0.head),
    }
}

pub open spec fn rebased_ids(pairs: Seq<RebasedPair>) -> Seq<ChangesetId> {
    pairs.map_values(|p: RebasedPair| p.id_new)
}

/// The changesets the movement's transaction persists.
pub open spec fn planned_changesets(op: MovementView, replies: CollaboratorReplies) -> Seq<
    ChangesetId,
> {
    match op.movement {
        Movement::Delete { .. } => Seq::empty(),
        Movement::PushrebaseOnto => rebased_ids(replies.rebase->Ok_0.rebased_changesets@),
        _ => op.new_changesets,
    }
}

/// Whether `prefix` is a prefix of `s`.
fn starts_with(s: &str, prefix: &str) -> (r: bool)
    ensures
        r == prefix@.is_prefix_of(s@),
{
    let n = prefix.unicode_len();
    let m = s.unicode_len();
    if n > m {
        return false;
    }
    let mut i: usize = 0;
    while i < n
        invariant
            n == prefix@.len(),
            m == s@.len(),
            n <= m,
            i <= n,
            forall|j: int| 0 <= j < i ==> prefix@[j] == s@[j],
        decreases n - i,
    {
        if prefix.get_char(i) != s.get_char(i) {
            return false;
        }
        i = i + 1;
    }
    assert(prefix@ =~= s@.subrange(0, prefix@.len() as int));
    true
}

fn is_scratch_name(ns: &Option<String>, name: &BookmarkName) -> (r: bool)
    ensures
        r == in_scratch_namespace(*ns, name@),
{
    match ns {
        Some(p) => starts_with(name.as_str(), p.as_str()),
        None => false,
    }
}

/// Classifies the bookmark, or fails when it breaks the restrictions.
pub fn check_kind(
    restrictions: BookmarkKindRestrictions,
    ns: &Option<String>,
    name: &BookmarkName,
) -> (r: Result<BookmarkKind, BookmarkMovementError>)
    ensures
        r == kind_check(restrictions, *ns, name@),
{
    let scratch = is_scratch_name(ns, name);
    match restrictions {
        BookmarkKindRestrictions::OnlyScratch => {
            if ns.is_none() {
                Err(BookmarkMovementError::ScratchBookmarksDisabled)
            } else if !scratch {
                Err(BookmarkMovementError::InvalidScratchBookmark)
            } else {
                Ok(BookmarkKind::Scratch)
            }
        },
        BookmarkKindRestrictions::OnlyPublic => {
            if scratch {
                Err(BookmarkMovementError::InvalidPublicBookmark)
            } else {
                Ok(BookmarkKind::Public)
            }
        },
        BookmarkKindRestrictions::AnyKind => {
            if scratch {
                Ok(BookmarkKind::Scratch)
            } else {
                Ok(BookmarkKind::Public)
            }
        },
    }
}

fn is_configured_fast_forward_only(cfg: &MovementConfig, name: &BookmarkName) -> (r: bool)
    ensures
        r == configured_fast_forward_only(*cfg, name@),
{
    let mut i: usize = 0;
    while i < cfg.fast_forward_only.len()
        invariant
            i <= cfg.fast_forward_only@.len(),
            forall|j: int| 0 <= j < i ==> cfg.fast_forward_only@[j]@ != name@,
        decreases cfg.fast_forward_only@.len() - i,
    {
        if cfg.fast_forward_only[i] == *name {
            return true;
        }
        i = i + 1;
    }
    false
}

fn contains_id(ids: &Vec<ChangesetId>, id: ChangesetId) -> (r: bool)
    ensures
        r == ids@.contains(id),
{
    let mut i: usize = 0;
    while i < ids.len()
        invariant
            i <= ids@.len(),
            forall|j: int| 0 <= j < i ==> ids@[j] != id,
        decreases ids@.len() - i,
    {
        if ids[i] == id {
            assert(ids@[i as int] == id);
            return true;
        }
        i = i + 1;
    }
    false
}

fn all_rebased_from(pairs: &Vec<RebasedPair>, changesets: &Vec<ChangesetId>) -> (r: bool)
    ensures
        r == rebased_from(pairs@, changesets@),
{
    let mut i: usize = 0;
    while i < pairs.len()
        invariant
            i <= pairs@.len(),
            forall|j: int| 0 <= j < i ==> changesets@.contains(#[trigger] pairs@[j].id_old),
        decreases pairs@.len() - i,
    {
        if !contains_id(changesets, pairs[i].id_old) {
            return false;
        }
        i = i + 1;
    }
    true
}

pub(crate) fn new_ids_of(pairs: &Vec<RebasedPair>) -> (r: Vec<ChangesetId>)
    ensures
        r@ == rebased_ids(pairs@),
{
    let mut out: Vec<ChangesetId> = Vec::new();
    let mut i: usize = 0;
    while i < pairs.len()
        invariant
            i <= pairs@.len(),
            out@ == rebased_ids(pairs@.subrange(0, i as int)),
        decreases pairs@.len() - i,
    {
        out.push(pairs[i].id_new);
        i = i + 1;
        assert(out@ =~= rebased_ids(pairs@.subrange(0, i as int)));
    }
    assert(pairs@.subrange(0, pairs@.len() as int) =~= pairs@);
    out
}


/// The parts of storage a failed movement leaves as they were.
pub open spec fn storage_unchanged(before: Repo, after: Repo) -> bool {
    &&& after.bookmarks() == before.bookmarks()
    &&& after.changesets() == before.changesets()
    &&& after.update_log() == before.update_log()
}

/// Storage after one applied bookmark transition.
pub open spec fn transition_applied(
    before: Repo,
    after: Repo,
    name: Seq<char>,
    expected: Option<ChangesetId>,
    new: Option<ChangesetId>,
    changesets: Seq<ChangesetId>,
    reason: BookmarkUpdateReason,
    bundle_replay: Option<RawBundle2Id>,
) -> bool {
    &&& after.bookmarks() == map_after(before.bookmarks(), name, new)
    &&& after.changesets() == before.changesets() + changesets
    &&& after.update_log() == before.update_log().push(
        BookmarkLogEntry { from: expected, to: new, reason, bundle_replay },
    )
}

/// Whether the movement's transaction is attempted and applies: every check
/// passed and the bookmark holds the expected value.
pub open spec fn movement_applies(
    op: MovementView,
    cfg: MovementConfig,
    stored: Option<ChangesetId>,
    replies: CollaboratorReplies,
) -> bool {
    precheck(op, cfg, stored, replies) is None && stored == planned_expected(op, replies)
}

/// The result of running `op` against a bookmark that holds `stored`.
pub open spec fn movement_result(
    op: MovementView,
    cfg: MovementConfig,
    stored: Option<ChangesetId>,
    replies: CollaboratorReplies,
) -> Result<MovementOutcome, BookmarkMovementError> {
    match precheck(op, cfg, stored, replies) {
        Some(e) => Err(e),
        None => if stored != planned_expected(op, replies) {
            Err(BookmarkMovementError::TransactionFailed)
        } else if op.movement is PushrebaseOnto {
            Ok(MovementOutcome::Rebased(replies.rebase->Ok_0))
        } else {
            Ok(MovementOutcome::Moved)
        },
    }
}

/// Storage after running `op`: the planned transition when it applies, and
/// untouched otherwise.
pub open spec fn movement_storage(
    op: MovementView,
    cfg: MovementConfig,
    replies: CollaboratorReplies,
    before: Repo,
    after: Repo,
) -> bool {
    if movement_applies(op, cfg, before.stored(op.bookmark), replies) {
        transition_applied(
            before,
            after,
            op.bookmark,
            planned_expected(op, replies),
            planned_new(op, replies),
            planned_changesets(op, replies),
            op.reason,
            op.bundle_replay,
        )
    } else {
        storage_unchanged(before, after)
    }
}

impl BookmarkMovementOp {
    fn plain(bookmark: BookmarkName, movement: Movement, reason: BookmarkUpdateReason) -> (r:
        BookmarkMovementOp)
        ensures
            r.bookmark@ == bookmark@,
            r.movement == movement,
            r.restrictions == BookmarkKindRestrictions::AnyKind,
            r.reason == reason,
            r.new_changesets@ == Seq::<ChangesetId>::empty(),
            r.pushvars is None,
            r.bundle_replay is None,
    {
        BookmarkMovementOp {
            bookmark,
            movement,
            restrictions: BookmarkKindRestrictions::AnyKind,
            reason,
            new_changesets: Vec::new(),
            pushvars: None,
            bundle_replay: None,
        }
    }

    /// Creation of a bookmark that must not exist yet.
    pub fn create(bookmark: BookmarkName, target: ChangesetId, reason: BookmarkUpdateReason) -> (r:
        BookmarkMovementOp)
        ensures
            r.bookmark@ == bookmark@,
            r.movement == (Movement::Create { target }),
            r.restrictions == BookmarkKindRestrictions::AnyKind,
            r.reason == reason,
            r.new_changesets@ == Seq::<ChangesetId>::empty(),
            r.pushvars is None,
            r.bundle_replay is None,
    {
        Self::plain(bookmark, Movement::Create { target }, reason)
    }

    /// Move of a bookmark from `old` to `new` under `policy`.
    pub fn update(
        bookmark: BookmarkName,
        old: ChangesetId,
        new: ChangesetId,
        policy: BookmarkUpdatePolicy,
        reason: BookmarkUpdateReason,
    ) -> (r: BookmarkMovementOp)
        ensures
            r.bookmark@ == bookmark@,
            r.movement == (Movement::Update { old, new, policy }),
            r.restrictions == BookmarkKindRestrictions::AnyKind,
            r.reason == reason,
            r.new_changesets@ == Seq::<ChangesetId>::empty(),
            r.pushvars is None,
            r.bundle_replay is None,
    {
        Self::plain(bookmark, Movement::Update { old, new, policy }, reason)
    }

    /// Deletion of a bookmark that holds `old`.
    pub fn delete(bookmark: BookmarkName, old: ChangesetId, reason: BookmarkUpdateReason) -> (r:
        BookmarkMovementOp)
        ensures
            r.bookmark@ == bookmark@,
            r.movement == (Movement::Delete { old }),
            r.restrictions == BookmarkKindRestrictions::AnyKind,
            r.reason == reason,
            r.new_changesets@ == Seq::<ChangesetId>::empty(),
            r.pushvars is None,
            r.bundle_replay is None,
    {
        Self::plain(bookmark, Movement::Delete { old }, reason)
    }

    /// Rebase of `changesets` onto an existing bookmark, which then moves to
    /// the rebased head.
    pub fn pushrebase_onto(bookmark: BookmarkName, changesets: Vec<ChangesetId>) -> (r:
        BookmarkMovementOp)
        ensures
            r.bookmark@ == bookmark@,
            r.movement == Movement::PushrebaseOnto,
            r.restrictions == BookmarkKindRestrictions::AnyKind,
            r.reason == BookmarkUpdateReason::Pushrebase,
            r.new_changesets@ == changesets@,
            r.pushvars is None,
            r.bundle_replay is None,
    {
        let mut op = Self::plain(bookmark, Movement::PushrebaseOnto, BookmarkUpdateReason::Pushrebase);
        op.new_changesets = changesets;
        op
    }

    /// Requires the bookmark to be public.
    pub fn only_if_public(self) -> (r: BookmarkMovementOp)
        ensures
            r == (BookmarkMovementOp { restrictions: BookmarkKindRestrictions::OnlyPublic, ..self }),
    {
        BookmarkMovementOp { restrictions: BookmarkKindRestrictions::OnlyPublic, ..self }
    }

    /// Requires the bookmark to be a scratch bookmark.
    pub fn only_if_scratch(self) -> (r: BookmarkMovementOp)
        ensures
            r == (BookmarkMovementOp { restrictions: BookmarkKindRestrictions::OnlyScratch, ..self }),
    {
        BookmarkMovementOp { restrictions: BookmarkKindRestrictions::OnlyScratch, ..self }
    }

    /// Sets the changesets stored together with the bookmark write.
    pub fn with_new_changesets(self, new_changesets: Vec<ChangesetId>) -> (r: BookmarkMovementOp)
        ensures
            r == (BookmarkMovementOp { new_changesets, ..self }),
    {
        BookmarkMovementOp { new_changesets, ..self }
    }

    /// Sets the pushvars handed to hooks.
    pub fn with_pushvars(self, pushvars: Option<Vec<Pushvar>>) -> (r: BookmarkMovementOp)
        ensures
            r == (BookmarkMovementOp { pushvars, ..self }),
    {
        BookmarkMovementOp { pushvars, ..self }
    }

    /// Sets the replay metadata attached to the bookmark write.
    pub fn with_bundle_replay_data(self, bundle_replay: Option<RawBundle2Id>) -> (r:
        BookmarkMovementOp)
        ensures
            r == (BookmarkMovementOp { bundle_replay, ..self }),
    {
        BookmarkMovementOp { bundle_replay, ..self }
    }

    /// Runs the movement: checks the bookmark's classification, the
    /// fast-forward rule and the hooks, consults the rebase result for a
    /// pushrebase, and then writes the transition in one compare-and-swap
    /// transaction. Nothing is written unless every check passed and the
    /// bookmark still held the expected value.
    pub fn run(self, repo: &mut Repo, cfg: &MovementConfig, replies: CollaboratorReplies) -> (r:
        Result<MovementOutcome, BookmarkMovementError>)
        requires
            old(repo).wf(),
        ensures
            final(repo).wf(),
            final(repo).name_view() == old(repo).name_view(),
            final(repo).public() == old(repo).public(),
            r == movement_result(self@, *cfg, old(repo).stored(self.bookmark@), replies),
            movement_storage(self@, *cfg, replies, *old(repo), *final(repo)),
    {
        let ghost op = self@;
        let ghost rep = replies;
        let stored = repo.get_bookmark(&self.bookmark);
        let BookmarkMovementOp {
            bookmark,
            movement,
            restrictions,
            reason,
            new_changesets,
            pushvars: _,
            bundle_replay,
        } = self;
        let kind = match check_kind(restrictions, &cfg.scratch_namespace, &bookmark) {
            Ok(k) => k,
            Err(e) => return Err(e),
        };
        let is_delete = match movement {
            Movement::Delete { .. } => true,
            _ => false,
        };
        let vetoed = kind == BookmarkKind::Public && !is_delete && replies.hook_rejections.len() > 0;
        let CollaboratorReplies { hook_rejections, old_is_ancestor_of_new, rebase } = replies;
        let (expected, new, changesets, outcome) = match movement {
            Movement::Create { target } => {
                if vetoed {
                    return Err(BookmarkMovementError::HookFailure(hook_rejections));
                }
                (None, Some(target), new_changesets, MovementOutcome::Moved)
            },
            Movement::Update { old, new, policy } => {
                let must_ff = match policy {
                    BookmarkUpdatePolicy::FastForwardOnly => true,
                    BookmarkUpdatePolicy::AnyPermittedByConfig => kind == BookmarkKind::Public
                        && is_configured_fast_forward_only(cfg, &bookmark),
                };
                if must_ff && !old_is_ancestor_of_new {
                    return Err(BookmarkMovementError::NonFastForwardMove { from: old, to: new });
                }
                if vetoed {
                    return Err(BookmarkMovementError::HookFailure(hook_rejections));
                }
                (Some(old), Some(new), new_changesets, MovementOutcome::Moved)
            },
            Movement::Delete { old } => (Some(old), None, Vec::new(), MovementOutcome::Moved),
            Movement::PushrebaseOnto => {
                if stored.is_none() {
                    return Err(BookmarkMovementError::BookmarkNotFound);
                }
                if vetoed {
                    return Err(BookmarkMovementError::HookFailure(hook_rejections));
                }
                match rebase {
                    Err(e) => {
                        return Err(BookmarkMovementError::PushrebaseError(e));
                    },
                    Ok(outcome) => {
                        if !all_rebased_from(&outcome.rebased_changesets, &new_changesets) {
                            return Err(BookmarkMovementError::InvalidRebaseOutcome);
                        }
                        let ids = new_ids_of(&outcome.rebased_changesets);
                        (Some(outcome.onto), Some(outcome.head), ids, MovementOutcome::Rebased(outcome))
                    },
                }
            },
        };
        assert(expected == planned_expected(op, rep));
        assert(new == planned_new(op, rep));
        assert(changesets@ == planned_changesets(op, rep));
        let applied = repo.commit_transaction(
            BookmarkTransaction {
                name: bookmark,
                expected,
                new,
                reason,
                bundle_replay,
                new_changesets: changesets,
            },
        );
        if applied {
            Ok(outcome)
        } else {
            Err(BookmarkMovementError::TransactionFailed)
        }
    }
}

} // verus!

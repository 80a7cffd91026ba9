//! The errors reported to the protocol layer, and how bookmark movement
//! failures map onto them.

use vstd::prelude::*;

use crate::hooks::{
    all_mapped, first_unmapped, map_hook_rejections, remapped, HookRejectionRemapper, IdMapping,
    RemappedRejection,
};
use crate::ids::ChangesetId;
use crate::movement::{BookmarkMovementError, HookRejection, PushrebaseConflict, RebaseError};

verus! {

/// Diagnostic context added to a generic error, innermost first.
#[derive(Clone, Copy, Debug, PartialEq, Eq, Structural)]
pub enum ErrorContext {
    Push,
    InfinitePush,
    BookmarkOnlyPushrebase,
    ForcePushrebase,
    CreateBookmark,
    MoveBookmark,
    FastForwardBookmark,
    DeleteBookmark,
    CreateScratchBookmark,
    MoveScratchBookmark,
    FastForwardScratchBookmark,
}

impl ErrorContext {
    /// Human-readable text of the context; for diagnostics only.
    pub fn message(&self) -> &'static str {
        match self {
            ErrorContext::Push => "While doing a push",
            ErrorContext::InfinitePush => "While doing an infinitepush",
            ErrorContext::BookmarkOnlyPushrebase => "While doing a bookmark-only pushrebase",
            ErrorContext::ForcePushrebase => "While doing a force pushrebase",
            ErrorContext::CreateBookmark => "Failed to create bookmark",
            ErrorContext::MoveBookmark => "Failed to move bookmark",
            ErrorContext::FastForwardBookmark =>
                "Failed to fast-forward bookmark (set pushvar NON_FAST_FORWARD=true for a non-fast-forward move)",
            ErrorContext::DeleteBookmark => "Failed to delete bookmark",
            ErrorContext::CreateScratchBookmark => "Failed to create scratch bookmark",
            ErrorContext::MoveScratchBookmark => "Failed to move scratch bookmark",
            ErrorContext::FastForwardScratchBookmark =>
                "Failed to fast-forward scratch bookmark (try --force?)",
        }
    }
}

/// What a generic error is about.
#[derive(Debug)]
pub enum FailureCause {
    /// A plain push asked to move this many bookmarks.
    MultipleBookmarkPushes(usize),
    MissingForcePushrebaseTarget,
    /// A scratch bookmark was to be moved, but the client named no old value
    /// and did not ask for creation.
    UnknownScratchBookmark,
    /// A hook rejected a changeset that the protocol has no id for.
    UnmappedRejection(ChangesetId),
    Movement(BookmarkMovementError),
}

/// Any failure that the protocol layer does not render specially.
#[derive(Debug)]
pub struct GenericError {
    pub cause: FailureCause,
    pub context: Vec<ErrorContext>,
}

/// The errors reported to the protocol layer.
#[derive(Debug)]
pub enum BundleResolverError {
    PushrebaseConflicts(Vec<PushrebaseConflict>),
    HookError(Vec<RemappedRejection>),
    RateLimited,
    RaceError,
    Error(GenericError),
}

pub open spec fn is_generic(e: BundleResolverError, cause: FailureCause, ctx: Seq<ErrorContext>) -> bool {
    &&& e is Error
    &&& e->Error_0.cause == cause
    &&& e->Error_0.context@ == ctx
}

/// `out` reports the hook `rejections`: remapped when every one of them can
/// be, else the first that cannot.
pub open spec fn rejections_reported(
    rejections: Seq<HookRejection>,
    m: Seq<IdMapping>,
    out: BundleResolverError,
) -> bool {
    if all_mapped(m, rejections) {
        out is HookError && remapped(m, rejections, out->HookError_0@)
    } else {
        is_generic(
            out,
            FailureCause::UnmappedRejection(rejections[first_unmapped(m, rejections)].changeset),
            Seq::empty(),
        )
    }
}

/// `out` is how a movement error `e` is reported, with context `ctx` on a
/// generic error.
pub open spec fn resolves(
    e: BookmarkMovementError,
    m: Seq<IdMapping>,
    ctx: Seq<ErrorContext>,
    out: BundleResolverError,
) -> bool {
    match e {
        BookmarkMovementError::HookFailure(rejections) => rejections_reported(rejections@, m, out),
        BookmarkMovementError::PushrebaseError(RebaseError::HookFailure(rejections)) =>
            rejections_reported(rejections@, m, out),
        BookmarkMovementError::PushrebaseError(RebaseError::Conflicts(conflicts)) => out
            == BundleResolverError::PushrebaseConflicts(conflicts),
        BookmarkMovementError::TransactionFailed => out == BundleResolverError::RaceError,
        _ => is_generic(out, FailureCause::Movement(e), ctx),
    }
}

/// Reports a failed bookmark movement to the protocol layer: hook vetoes
/// with remapped rejections, rebase conflicts verbatim, a lost
/// compare-and-swap as a race, anything else as a generic error with
/// `context`.
pub fn resolve_movement_error(
    e: BookmarkMovementError,
    remapper: &HookRejectionRemapper,
    context: Option<ErrorContext>,
) -> (r: BundleResolverError)
    ensures
        resolves(
            e,
            remapper.mapping@,
            match context {
                Some(c) => seq![c],
                None => Seq::empty(),
            },
            r,
        ),
{
    let ghost ctx = match context {
        Some(c) => seq![c],
        None => Seq::<ErrorContext>::empty(),
    };
    let mut contexts: Vec<ErrorContext> = Vec::new();
    match context {
        Some(c) => contexts.push(c),
        None => {},
    }
    assert(contexts@ =~= ctx);
    match e {
        BookmarkMovementError::HookFailure(rejections) => report_rejections(rejections, remapper),
        BookmarkMovementError::PushrebaseError(RebaseError::HookFailure(rejections)) =>
            report_rejections(rejections, remapper),
        BookmarkMovementError::PushrebaseError(RebaseError::Conflicts(conflicts)) =>
            BundleResolverError::PushrebaseConflicts(conflicts),
        BookmarkMovementError::TransactionFailed => BundleResolverError::RaceError,
        other => BundleResolverError::Error(
            GenericError { cause: FailureCause::Movement(other), context: contexts },
        ),
    }
}

fn report_rejections(rejections: Vec<HookRejection>, remapper: &HookRejectionRemapper) -> (r:
    BundleResolverError)
    ensures
        rejections_reported(rejections@, remapper.mapping@, r),
{
    match map_hook_rejections(rejections, remapper) {
        Ok(out) => BundleResolverError::HookError(out),
        Err(cs) => BundleResolverError::Error(
            GenericError { cause: FailureCause::UnmappedRejection(cs), context: Vec::new() },
        ),
    }
}

/// Adds `ctx` to a generic error; other errors pass unchanged.
pub fn with_context(e: BundleResolverError, ctx: ErrorContext) -> (r: BundleResolverError)
    ensures
        contexted(e, ctx, r),
{
    match e {
        BundleResolverError::Error(g) => {
            let GenericError { cause, context } = g;
            let mut context = context;
            context.push(ctx);
            BundleResolverError::Error(GenericError { cause, context })
        },
        other => other,
    }
}

/// `out` is `e` with `ctx` added to it when it is a generic error.
pub open spec fn contexted(e: BundleResolverError, ctx: ErrorContext, out: BundleResolverError) -> bool {
    if e is Error {
        out is Error && out->Error_0.cause == e->Error_0.cause && out->Error_0.context@
            == e->Error_0.context@.push(ctx)
    } else {
        out == e
    }
}

} // verus!

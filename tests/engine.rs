use unbundle_engine::hooks::{HookRejectionRemapper, IdMapping};
use unbundle_engine::ids::{BookmarkName, ChangesetId, HgChangesetId, RawBundle2Id};
use unbundle_engine::movement::{
    BookmarkMovementError, BookmarkMovementOp, BookmarkUpdatePolicy, CollaboratorReplies,
    HookRejection, MovementConfig, MovementOutcome, PushrebaseConflict, RebaseError,
    RebaseOutcome, RebasedPair,
};
use unbundle_engine::actions::{
    InfiniteBookmarkPush, NonFastForwardPolicy, PlainBookmarkPush, PostResolveAction,
    PostResolveBookmarkOnlyPushRebase, PostResolveInfinitePush, PostResolvePush,
    PostResolvePushRebase, PushrebaseBookmarkSpec, UnbundleResponse,
};
use unbundle_engine::errors::{BundleResolverError, ErrorContext, FailureCause};
use unbundle_engine::processing::{run_post_resolve_action, ProcessingConfig};
use unbundle_engine::side_effects::{SideEffects, UnbundleCounters, Warning};
use unbundle_engine::repo::{BookmarkTransaction, BookmarkUpdateReason, Repo};

fn cs(n: u64) -> ChangesetId {
    ChangesetId(n)
}

fn name(s: &str) -> BookmarkName {
    BookmarkName::new(s.to_string())
}

fn config() -> ProcessingConfig {
    ProcessingConfig {
        movement: MovementConfig {
            scratch_namespace: Some("scratch/".to_string()),
            fast_forward_only: vec![],
        },
        mutation_accept: true,
        preserve_bundles: true,
        push_commit_log_category: Some("push".to_string()),
        infinitepush_commit_log_category: Some("scratch".to_string()),
        pushrebase_commit_log_category: Some("pushrebase".to_string()),
        assign_globalrevs: false,
        populate_git_mapping: false,
    }
}

fn effects() -> SideEffects {
    SideEffects {
        mutation_batches: vec![],
        commit_log: vec![],
        preserved_bundles: vec![],
        warnings: vec![],
        counters: UnbundleCounters {
            push: 0,
            pushrebase: 0,
            bookmark_only_pushrebase: 0,
            infinitepush: 0,
        },
    }
}

fn accepting() -> CollaboratorReplies {
    CollaboratorReplies {
        hook_rejections: vec![],
        old_is_ancestor_of_new: true,
        rebase: Err(RebaseError::Other("not consulted".to_string())),
    }
}

fn repo_with(bookmarks: &[(&str, u64)]) -> Repo {
    let mut repo = Repo::new("repo".to_string());
    for (b, target) in bookmarks {
        let applied = repo.commit_transaction(BookmarkTransaction {
            name: name(b),
            expected: None,
            new: Some(cs(*target)),
            reason: BookmarkUpdateReason::ManualMove,
            bundle_replay: None,
            new_changesets: vec![],
        });
        assert!(applied);
    }
    repo
}

fn plain(part_id: u32, b: &str, old: Option<u64>, new: Option<u64>) -> PlainBookmarkPush {
    PlainBookmarkPush { part_id, name: name(b), old: old.map(cs), new: new.map(cs) }
}

fn push_action(pushes: Vec<PlainBookmarkPush>, uploaded: Vec<u64>) -> PostResolveAction {
    PostResolveAction::Push(PostResolvePush {
        changegroup_id: Some(1),
        bookmark_pushes: pushes,
        mutations: vec![],
        maybe_raw_bundle2_id: Some(RawBundle2Id(9)),
        maybe_pushvars: None,
        non_fast_forward_policy: NonFastForwardPolicy::OnlyFastForward,
        uploaded_bonsais: uploaded.into_iter().map(cs).collect(),
        uploaded_hg_changeset_ids: vec![],
        hook_rejection_remapper: HookRejectionRemapper { mapping: vec![] },
    })
}

fn snapshot(repo: &Repo, b: &str) -> (Option<ChangesetId>, Vec<ChangesetId>, usize) {
    (
        repo.get_bookmark(&name(b)),
        repo.stored_changesets().clone(),
        repo.update_log_entries().len(),
    )
}

#[test]
fn push_creates_new_bookmark() {
    let mut repo = repo_with(&[]);
    let mut fx = effects();
    let action = push_action(vec![plain(7, "main", None, Some(1))], vec![1]);
    let res = run_post_resolve_action(&mut repo, &mut fx, &config(), true, action, accepting());
    match res {
        Ok(UnbundleResponse::Push(resp)) => {
            assert_eq!(resp.bookmark_ids, vec![7]);
            assert_eq!(resp.changegroup_id, Some(1));
        }
        other => panic!("unexpected result {:?}", other),
    }
    assert_eq!(repo.get_bookmark(&name("main")), Some(cs(1)));
    assert_eq!(repo.stored_changesets(), &vec![cs(1)]);
    let log = repo.update_log_entries();
    assert_eq!(log.len(), 1);
    assert_eq!(log[0].from, None);
    assert_eq!(log[0].to, Some(cs(1)));
    assert_eq!(log[0].reason, BookmarkUpdateReason::Push);
    assert_eq!(log[0].bundle_replay, Some(RawBundle2Id(9)));
    assert_eq!(fx.counters.push, 1);
    assert_eq!(fx.commit_log.len(), 1);
    assert_eq!(fx.commit_log[0].category, "push");
    assert_eq!(fx.commit_log[0].changeset, cs(1));
    assert!(fx.commit_log[0].bookmark.as_ref().unwrap() == &name("main"));
}

#[test]
fn pushrebase_conflict_leaves_bookmark() {
    let mut repo = repo_with(&[("main", 100)]);
    let mut fx = effects();
    let before = snapshot(&repo, "main");
    let action = PostResolveAction::PushRebase(PostResolvePushRebase {
        bookmark_push_part_id: Some(3),
        bookmark_spec: PushrebaseBookmarkSpec::NormalPushrebase(name("main")),
        maybe_hg_replay_data: None,
        maybe_pushvars: None,
        commonheads: vec![],
        uploaded_bonsais: vec![cs(10), cs(11)],
        hook_rejection_remapper: HookRejectionRemapper { mapping: vec![] },
    });
    let replies = CollaboratorReplies {
        hook_rejections: vec![],
        old_is_ancestor_of_new: true,
        rebase: Err(RebaseError::Conflicts(vec![PushrebaseConflict {
            left: "dir/file.txt".to_string(),
            right: "dir/file.txt".to_string(),
        }])),
    };
    let res = run_post_resolve_action(&mut repo, &mut fx, &config(), true, action, replies);
    match res {
        Err(BundleResolverError::PushrebaseConflicts(conflicts)) => {
            assert_eq!(conflicts.len(), 1);
            assert_eq!(conflicts[0].left, "dir/file.txt");
        }
        other => panic!("unexpected result {:?}", other),
    }
    assert_eq!(snapshot(&repo, "main"), before);
    assert_eq!(repo.get_bookmark(&name("main")), Some(cs(100)));
    assert!(repo.public_changesets().is_empty());
    assert_eq!(fx.counters.pushrebase, 0);
}

fn update_rel(repo: &mut Repo, new: u64) -> Result<UnbundleResponse, BundleResolverError> {
    let mut fx = effects();
    let action = PostResolveAction::BookmarkOnlyPushRebase(PostResolveBookmarkOnlyPushRebase {
        bookmark_push: plain(1, "rel", Some(1), Some(new)),
        maybe_raw_bundle2_id: None,
        maybe_pushvars: None,
        non_fast_forward_policy: NonFastForwardPolicy::Allowed,
        hook_rejection_remapper: HookRejectionRemapper { mapping: vec![] },
    });
    run_post_resolve_action(repo, &mut fx, &config(), true, action, accepting())
}

#[test]
fn concurrent_updates_one_wins() {
    let mut repo = repo_with(&[("rel", 1)]);
    let first = update_rel(&mut repo, 2);
    let second = update_rel(&mut repo, 3);
    assert!(first.is_ok());
    assert!(matches!(second, Err(BundleResolverError::RaceError)));
    assert_eq!(repo.get_bookmark(&name("rel")), Some(cs(2)));
    assert_eq!(repo.update_log_entries().len(), 2);
    assert_eq!(repo.update_log_entries()[1].reason, BookmarkUpdateReason::Pushrebase);
}

#[test]
fn failing_paths_leave_storage_unchanged() {
    let cfg = config();
    // rate limited
    let mut repo = repo_with(&[("main", 1)]);
    let before = snapshot(&repo, "main");
    let mut fx = effects();
    let res = run_post_resolve_action(
        &mut repo,
        &mut fx,
        &cfg,
        false,
        push_action(vec![plain(1, "main", Some(1), Some(2))], vec![2]),
        accepting(),
    );
    assert!(matches!(res, Err(BundleResolverError::RateLimited)));
    assert_eq!(snapshot(&repo, "main"), before);
    assert!(fx.mutation_batches.is_empty());
    // hook veto
    let replies = CollaboratorReplies {
        hook_rejections: vec![HookRejection {
            hook_name: "block_large_files".to_string(),
            changeset: cs(2),
            reason: "too large".to_string(),
        }],
        old_is_ancestor_of_new: true,
        rebase: Err(RebaseError::Other("not consulted".to_string())),
    };
    let action = PostResolveAction::Push(PostResolvePush {
        changegroup_id: None,
        bookmark_pushes: vec![plain(1, "main", Some(1), Some(2))],
        mutations: vec![],
        maybe_raw_bundle2_id: None,
        maybe_pushvars: None,
        non_fast_forward_policy: NonFastForwardPolicy::OnlyFastForward,
        uploaded_bonsais: vec![cs(2)],
        uploaded_hg_changeset_ids: vec![],
        hook_rejection_remapper: HookRejectionRemapper {
            mapping: vec![IdMapping { changeset: cs(2), protocol_id: HgChangesetId(202) }],
        },
    });
    let res = run_post_resolve_action(&mut repo, &mut fx, &cfg, true, action, replies);
    match res {
        Err(BundleResolverError::HookError(rejections)) => {
            assert_eq!(rejections.len(), 1);
            assert_eq!(rejections[0].hook_name, "block_large_files");
            assert_eq!(rejections[0].protocol_id, HgChangesetId(202));
            assert_eq!(rejections[0].reason, "too large");
        }
        other => panic!("unexpected result {:?}", other),
    }
    assert_eq!(snapshot(&repo, "main"), before);
    assert!(fx.commit_log.is_empty());
    // race
    let res = run_post_resolve_action(
        &mut repo,
        &mut fx,
        &cfg,
        true,
        push_action(vec![plain(1, "main", Some(5), Some(2))], vec![2]),
        accepting(),
    );
    assert!(matches!(res, Err(BundleResolverError::RaceError)));
    assert_eq!(snapshot(&repo, "main"), before);
    assert_eq!(fx.counters.push, 0);
}

#[test]
fn fast_forward_only_update_needs_ancestor() {
    let cfg = config();
    let mut repo = repo_with(&[("main", 1)]);
    let mut fx = effects();
    let replies = CollaboratorReplies {
        hook_rejections: vec![],
        old_is_ancestor_of_new: false,
        rebase: Err(RebaseError::Other("not consulted".to_string())),
    };
    let res = run_post_resolve_action(
        &mut repo,
        &mut fx,
        &cfg,
        true,
        push_action(vec![plain(1, "main", Some(1), Some(2))], vec![2]),
        replies,
    );
    match res {
        Err(BundleResolverError::Error(g)) => {
            assert!(matches!(
                g.cause,
                FailureCause::Movement(BookmarkMovementError::NonFastForwardMove { .. })
            ));
            assert_eq!(g.context, vec![ErrorContext::FastForwardBookmark, ErrorContext::Push]);
        }
        other => panic!("unexpected result {:?}", other),
    }
    assert_eq!(repo.get_bookmark(&name("main")), Some(cs(1)));
    let res = run_post_resolve_action(
        &mut repo,
        &mut fx,
        &cfg,
        true,
        push_action(vec![plain(1, "main", Some(1), Some(2))], vec![2]),
        accepting(),
    );
    assert!(res.is_ok());
    assert_eq!(repo.get_bookmark(&name("main")), Some(cs(2)));
}

#[test]
fn force_pushrebase_has_no_rebased_pairs() {
    let mut repo = repo_with(&[("main", 1)]);
    let mut fx = effects();
    let action = PostResolveAction::PushRebase(PostResolvePushRebase {
        bookmark_push_part_id: None,
        bookmark_spec: PushrebaseBookmarkSpec::ForcePushrebase(plain(4, "main", Some(1), Some(7))),
        maybe_hg_replay_data: Some(RawBundle2Id(5)),
        maybe_pushvars: None,
        commonheads: vec![HgChangesetId(1)],
        uploaded_bonsais: vec![cs(7)],
        hook_rejection_remapper: HookRejectionRemapper { mapping: vec![] },
    });
    let mut replies = accepting();
    replies.old_is_ancestor_of_new = false;
    let res = run_post_resolve_action(&mut repo, &mut fx, &config(), true, action, replies);
    match res {
        Ok(UnbundleResponse::PushRebase(resp)) => {
            assert!(resp.pushrebased_changesets.is_empty());
            assert_eq!(resp.pushrebased_rev, cs(7));
            assert!(resp.onto == name("main"));
            assert_eq!(resp.commonheads, vec![HgChangesetId(1)]);
        }
        other => panic!("unexpected result {:?}", other),
    }
    assert_eq!(repo.get_bookmark(&name("main")), Some(cs(7)));
    assert_eq!(repo.public_changesets(), &vec![cs(7)]);
    assert_eq!(fx.counters.pushrebase, 1);
    assert_eq!(fx.commit_log.len(), 1);
    assert_eq!(fx.commit_log[0].category, "pushrebase");
}

#[test]
fn force_pushrebase_requires_target() {
    let mut repo = repo_with(&[("main", 1)]);
    let mut fx = effects();
    let action = PostResolveAction::PushRebase(PostResolvePushRebase {
        bookmark_push_part_id: None,
        bookmark_spec: PushrebaseBookmarkSpec::ForcePushrebase(plain(4, "main", Some(1), None)),
        maybe_hg_replay_data: None,
        maybe_pushvars: None,
        commonheads: vec![],
        uploaded_bonsais: vec![],
        hook_rejection_remapper: HookRejectionRemapper { mapping: vec![] },
    });
    let res = run_post_resolve_action(&mut repo, &mut fx, &config(), true, action, accepting());
    match res {
        Err(BundleResolverError::Error(g)) => {
            assert!(matches!(g.cause, FailureCause::MissingForcePushrebaseTarget));
            assert_eq!(g.context, vec![ErrorContext::ForcePushrebase]);
        }
        other => panic!("unexpected result {:?}", other),
    }
    assert_eq!(repo.get_bookmark(&name("main")), Some(cs(1)));
}

#[test]
fn normal_pushrebase_moves_to_rebased_head() {
    let mut repo = repo_with(&[("main", 100)]);
    let mut fx = effects();
    let action = PostResolveAction::PushRebase(PostResolvePushRebase {
        bookmark_push_part_id: Some(2),
        bookmark_spec: PushrebaseBookmarkSpec::NormalPushrebase(name("main")),
        maybe_hg_replay_data: None,
        maybe_pushvars: None,
        commonheads: vec![],
        uploaded_bonsais: vec![cs(10), cs(11)],
        hook_rejection_remapper: HookRejectionRemapper { mapping: vec![] },
    });
    let replies = CollaboratorReplies {
        hook_rejections: vec![],
        old_is_ancestor_of_new: true,
        rebase: Ok(RebaseOutcome {
            onto: cs(100),
            head: cs(21),
            rebased_changesets: vec![
                RebasedPair { id_old: cs(10), id_new: cs(20) },
                RebasedPair { id_old: cs(11), id_new: cs(21) },
            ],
        }),
    };
    let res = run_post_resolve_action(&mut repo, &mut fx, &config(), true, action, replies);
    match res {
        Ok(UnbundleResponse::PushRebase(resp)) => {
            assert_eq!(resp.pushrebased_rev, cs(21));
            assert_eq!(resp.pushrebased_changesets.len(), 2);
            assert_eq!(resp.bookmark_push_part_id, Some(2));
        }
        other => panic!("unexpected result {:?}", other),
    }
    assert_eq!(repo.get_bookmark(&name("main")), Some(cs(21)));
    assert_eq!(repo.stored_changesets(), &vec![cs(20), cs(21)]);
    assert!(repo.is_public(cs(21)));
    assert_eq!(fx.commit_log.len(), 2);
    assert_eq!(fx.commit_log[1].changeset, cs(21));
}

#[test]
fn pushrebase_onto_moved_bookmark_is_a_race() {
    let mut repo = repo_with(&[("main", 101)]);
    let mut fx = effects();
    let action = PostResolveAction::PushRebase(PostResolvePushRebase {
        bookmark_push_part_id: None,
        bookmark_spec: PushrebaseBookmarkSpec::NormalPushrebase(name("main")),
        maybe_hg_replay_data: None,
        maybe_pushvars: None,
        commonheads: vec![],
        uploaded_bonsais: vec![cs(10)],
        hook_rejection_remapper: HookRejectionRemapper { mapping: vec![] },
    });
    let replies = CollaboratorReplies {
        hook_rejections: vec![],
        old_is_ancestor_of_new: true,
        rebase: Ok(RebaseOutcome {
            onto: cs(100),
            head: cs(20),
            rebased_changesets: vec![RebasedPair { id_old: cs(10), id_new: cs(20) }],
        }),
    };
    let res = run_post_resolve_action(&mut repo, &mut fx, &config(), true, action, replies);
    assert!(matches!(res, Err(BundleResolverError::RaceError)));
    assert_eq!(repo.get_bookmark(&name("main")), Some(cs(101)));
    assert!(repo.stored_changesets().is_empty());
}

#[test]
fn pushrebase_onto_missing_bookmark_fails() {
    let mut repo = repo_with(&[]);
    let mut fx = effects();
    let action = PostResolveAction::PushRebase(PostResolvePushRebase {
        bookmark_push_part_id: None,
        bookmark_spec: PushrebaseBookmarkSpec::NormalPushrebase(name("main")),
        maybe_hg_replay_data: None,
        maybe_pushvars: None,
        commonheads: vec![],
        uploaded_bonsais: vec![cs(10)],
        hook_rejection_remapper: HookRejectionRemapper { mapping: vec![] },
    });
    let res = run_post_resolve_action(&mut repo, &mut fx, &config(), true, action, accepting());
    match res {
        Err(BundleResolverError::Error(g)) => {
            assert!(matches!(g.cause, FailureCause::Movement(BookmarkMovementError::BookmarkNotFound)));
            assert!(g.context.is_empty());
        }
        other => panic!("unexpected result {:?}", other),
    }
}

#[test]
fn create_existing_and_delete_wrong_old_fail() {
    let mut repo = repo_with(&[("main", 1)]);
    let mut fx = effects();
    let res = run_post_resolve_action(
        &mut repo,
        &mut fx,
        &config(),
        true,
        push_action(vec![plain(1, "main", None, Some(2))], vec![2]),
        accepting(),
    );
    assert!(matches!(res, Err(BundleResolverError::RaceError)));
    let res = run_post_resolve_action(
        &mut repo,
        &mut fx,
        &config(),
        true,
        push_action(vec![plain(1, "main", Some(3), None)], vec![]),
        accepting(),
    );
    assert!(matches!(res, Err(BundleResolverError::RaceError)));
    assert_eq!(repo.get_bookmark(&name("main")), Some(cs(1)));
    let res = run_post_resolve_action(
        &mut repo,
        &mut fx,
        &config(),
        true,
        push_action(vec![plain(1, "main", Some(1), None)], vec![]),
        accepting(),
    );
    assert!(res.is_ok());
    assert_eq!(repo.get_bookmark(&name("main")), None);
}

#[test]
fn push_with_two_bookmarks_is_rejected() {
    let mut repo = repo_with(&[("a", 1), ("b", 2)]);
    let mut fx = effects();
    let before_a = snapshot(&repo, "a");
    let before_b = snapshot(&repo, "b");
    let action = push_action(
        vec![plain(1, "a", Some(1), Some(3)), plain(2, "b", Some(2), Some(3))],
        vec![3],
    );
    let res = run_post_resolve_action(&mut repo, &mut fx, &config(), true, action, accepting());
    match res {
        Err(BundleResolverError::Error(g)) => {
            assert!(matches!(g.cause, FailureCause::MultipleBookmarkPushes(2)));
            assert_eq!(g.context, vec![ErrorContext::Push]);
        }
        other => panic!("unexpected result {:?}", other),
    }
    assert_eq!(snapshot(&repo, "a"), before_a);
    assert_eq!(snapshot(&repo, "b"), before_b);
    assert!(fx.mutation_batches.is_empty());
    assert!(fx.commit_log.is_empty());
}

#[test]
fn push_without_bookmark_logs_commits() {
    let mut repo = repo_with(&[]);
    let mut fx = effects();
    let res = run_post_resolve_action(
        &mut repo,
        &mut fx,
        &config(),
        true,
        push_action(vec![], vec![4, 5]),
        accepting(),
    );
    match res {
        Ok(UnbundleResponse::Push(resp)) => assert!(resp.bookmark_ids.is_empty()),
        other => panic!("unexpected result {:?}", other),
    }
    assert_eq!(fx.commit_log.len(), 2);
    assert!(fx.commit_log[0].bookmark.is_none());
    assert_eq!(fx.mutation_batches.len(), 1);
    assert!(repo.stored_changesets().is_empty());
}

#[test]
fn empty_category_discards_commit_log() {
    let mut repo = repo_with(&[]);
    let mut fx = effects();
    let mut cfg = config();
    cfg.push_commit_log_category = Some(String::new());
    cfg.mutation_accept = false;
    let res =
        run_post_resolve_action(&mut repo, &mut fx, &cfg, true, push_action(vec![], vec![4]), accepting());
    assert!(res.is_ok());
    assert!(fx.commit_log.is_empty());
    assert!(fx.mutation_batches.is_empty());
}

fn scratch_action(push: Option<InfiniteBookmarkPush>, raw: Option<u64>, cross: bool) -> PostResolveAction {
    PostResolveAction::InfinitePush(PostResolveInfinitePush {
        changegroup_id: Some(8),
        maybe_bookmark_push: push,
        mutations: vec![],
        maybe_raw_bundle2_id: raw.map(RawBundle2Id),
        uploaded_bonsais: vec![cs(30)],
        uploaded_hg_changeset_ids: vec![],
        is_cross_backend_sync: cross,
    })
}

fn scratch_push(b: &str, create: bool, force: bool, old: Option<u64>, new: u64) -> InfiniteBookmarkPush {
    InfiniteBookmarkPush { name: name(b), create, force, old: old.map(cs), new: cs(new) }
}

#[test]
fn infinitepush_creates_and_moves_scratch_bookmarks() {
    let mut repo = repo_with(&[]);
    let mut fx = effects();
    let cfg = config();
    let res = run_post_resolve_action(
        &mut repo,
        &mut fx,
        &cfg,
        true,
        scratch_action(Some(scratch_push("scratch/me", true, false, None, 30)), Some(6), false),
        accepting(),
    );
    match res {
        Ok(UnbundleResponse::InfinitePush(resp)) => assert_eq!(resp.changegroup_id, Some(8)),
        other => panic!("unexpected result {:?}", other),
    }
    assert_eq!(repo.get_bookmark(&name("scratch/me")), Some(cs(30)));
    assert_eq!(fx.preserved_bundles.len(), 1);
    assert_eq!(fx.preserved_bundles[0].repo_name, "repo");
    assert_eq!(fx.preserved_bundles[0].bundle, RawBundle2Id(6));
    assert_eq!(fx.commit_log[0].category, "scratch");
    assert_eq!(fx.counters.infinitepush, 1);
    // a forced non-fast-forward move
    let mut replies = accepting();
    replies.old_is_ancestor_of_new = false;
    let res = run_post_resolve_action(
        &mut repo,
        &mut fx,
        &cfg,
        true,
        scratch_action(Some(scratch_push("scratch/me", false, true, Some(30), 31)), None, true),
        replies,
    );
    assert!(res.is_ok());
    assert_eq!(repo.get_bookmark(&name("scratch/me")), Some(cs(31)));
    assert_eq!(fx.preserved_bundles.len(), 1);
    assert!(fx.warnings.is_empty());
}

#[test]
fn infinitepush_errors() {
    let mut repo = repo_with(&[("scratch/me", 30)]);
    let mut fx = effects();
    let cfg = config();
    // unknown scratch bookmark without create
    let res = run_post_resolve_action(
        &mut repo,
        &mut fx,
        &cfg,
        true,
        scratch_action(Some(scratch_push("scratch/new", false, false, None, 31)), None, false),
        accepting(),
    );
    match res {
        Err(BundleResolverError::Error(g)) => {
            assert!(matches!(g.cause, FailureCause::UnknownScratchBookmark));
            assert_eq!(g.context, vec![ErrorContext::InfinitePush]);
        }
        other => panic!("unexpected result {:?}", other),
    }
    assert_eq!(fx.warnings, vec![Warning::PreservationWithoutBundle]);
    // not a fast-forward, not forced
    let mut replies = accepting();
    replies.old_is_ancestor_of_new = false;
    let res = run_post_resolve_action(
        &mut repo,
        &mut fx,
        &cfg,
        true,
        scratch_action(Some(scratch_push("scratch/me", false, false, Some(30), 31)), None, true),
        replies,
    );
    match res {
        Err(BundleResolverError::Error(g)) => {
            assert!(matches!(
                g.cause,
                FailureCause::Movement(BookmarkMovementError::NonFastForwardMove { .. })
            ));
            assert_eq!(
                g.context,
                vec![ErrorContext::FastForwardScratchBookmark, ErrorContext::InfinitePush]
            );
        }
        other => panic!("unexpected result {:?}", other),
    }
    // a public name through the scratch path
    let res = run_post_resolve_action(
        &mut repo,
        &mut fx,
        &cfg,
        true,
        scratch_action(Some(scratch_push("main", true, false, None, 31)), None, true),
        accepting(),
    );
    match res {
        Err(BundleResolverError::Error(g)) => assert!(matches!(
            g.cause,
            FailureCause::Movement(BookmarkMovementError::InvalidScratchBookmark)
        )),
        other => panic!("unexpected result {:?}", other),
    }
    assert_eq!(repo.get_bookmark(&name("scratch/me")), Some(cs(30)));
    assert_eq!(repo.get_bookmark(&name("main")), None);
}

#[test]
fn scratch_disabled_and_public_restriction() {
    let mut repo = repo_with(&[]);
    let cfg = MovementConfig { scratch_namespace: None, fast_forward_only: vec![] };
    let op = BookmarkMovementOp::create(name("x"), cs(1), BookmarkUpdateReason::Push).only_if_scratch();
    let res = op.run(&mut repo, &cfg, accepting());
    assert!(matches!(res, Err(BookmarkMovementError::ScratchBookmarksDisabled)));
    let cfg = MovementConfig { scratch_namespace: Some("scratch/".to_string()), fast_forward_only: vec![] };
    let op = BookmarkMovementOp::create(name("scratch/x"), cs(1), BookmarkUpdateReason::Push).only_if_public();
    let res = op.run(&mut repo, &cfg, accepting());
    assert!(matches!(res, Err(BookmarkMovementError::InvalidPublicBookmark)));
    assert_eq!(repo.get_bookmark(&name("scratch/x")), None);
}

#[test]
fn configured_fast_forward_only_bookmark() {
    let mut repo = repo_with(&[("main", 1)]);
    let cfg = MovementConfig { scratch_namespace: None, fast_forward_only: vec![name("main")] };
    let mut replies = accepting();
    replies.old_is_ancestor_of_new = false;
    let op = BookmarkMovementOp::update(
        name("main"),
        cs(1),
        cs(2),
        BookmarkUpdatePolicy::AnyPermittedByConfig,
        BookmarkUpdateReason::Push,
    );
    let res = op.run(&mut repo, &cfg, replies);
    match res {
        Err(BookmarkMovementError::NonFastForwardMove { from, to }) => {
            assert_eq!(from, cs(1));
            assert_eq!(to, cs(2));
        }
        other => panic!("unexpected result {:?}", other),
    }
}

#[test]
fn unmapped_hook_rejection_is_generic() {
    let mut repo = repo_with(&[]);
    let mut fx = effects();
    let replies = CollaboratorReplies {
        hook_rejections: vec![HookRejection {
            hook_name: "h".to_string(),
            changeset: cs(2),
            reason: "no".to_string(),
        }],
        old_is_ancestor_of_new: true,
        rebase: Err(RebaseError::Other("not consulted".to_string())),
    };
    let res = run_post_resolve_action(
        &mut repo,
        &mut fx,
        &config(),
        true,
        push_action(vec![plain(1, "main", None, Some(2))], vec![2]),
        replies,
    );
    match res {
        Err(BundleResolverError::Error(g)) => {
            assert!(matches!(g.cause, FailureCause::UnmappedRejection(c) if c == cs(2)));
            assert_eq!(g.context, vec![ErrorContext::Push]);
        }
        other => panic!("unexpected result {:?}", other),
    }
}

#[test]
fn pushrebase_outcome_is_returned_by_op() {
    let mut repo = repo_with(&[("main", 5)]);
    let cfg = MovementConfig { scratch_namespace: None, fast_forward_only: vec![] };
    let mut replies = accepting();
    replies.rebase = Ok(RebaseOutcome { onto: cs(5), head: cs(6), rebased_changesets: vec![] });
    let op = BookmarkMovementOp::pushrebase_onto(name("main"), vec![cs(1)]).only_if_public();
    match op.run(&mut repo, &cfg, replies) {
        Ok(MovementOutcome::Rebased(outcome)) => assert_eq!(outcome.head, cs(6)),
        other => panic!("unexpected result {:?}", other),
    }
    assert_eq!(repo.get_bookmark(&name("main")), Some(cs(6)));
}

#[test]
fn error_context_messages() {
    assert_eq!(ErrorContext::Push.message(), "While doing a push");
    assert_eq!(ErrorContext::ForcePushrebase.message(), "While doing a force pushrebase");
    assert_eq!(
        ErrorContext::FastForwardBookmark.message(),
        "Failed to fast-forward bookmark (set pushvar NON_FAST_FORWARD=true for a non-fast-forward move)"
    );
}

#[test]
fn compare_and_swap_transaction() {
    let mut repo = repo_with(&[("a", 1)]);
    let stale = repo.commit_transaction(BookmarkTransaction {
        name: name("a"),
        expected: Some(cs(2)),
        new: Some(cs(3)),
        reason: BookmarkUpdateReason::ManualMove,
        bundle_replay: None,
        new_changesets: vec![cs(3)],
    });
    assert!(!stale);
    assert_eq!(repo.get_bookmark(&name("a")), Some(cs(1)));
    assert!(repo.stored_changesets().is_empty());
    let moved = repo.commit_transaction(BookmarkTransaction {
        name: name("a"),
        expected: Some(cs(1)),
        new: None,
        reason: BookmarkUpdateReason::ManualMove,
        bundle_replay: Some(RawBundle2Id(4)),
        new_changesets: vec![],
    });
    assert!(moved);
    assert_eq!(repo.get_bookmark(&name("a")), None);
    let log = repo.update_log_entries();
    assert_eq!(log.len(), 2);
    assert_eq!(log[1].from, Some(cs(1)));
    assert_eq!(log[1].to, None);
    assert_eq!(repo.name(), "repo");
    repo.mark_public(cs(1));
    assert!(repo.is_public(cs(1)));
    assert!(!repo.is_public(cs(2)));
}

#[test]
fn rebase_outcome_must_come_from_pushed_commits() {
    let mut repo = repo_with(&[("main", 5)]);
    let cfg = MovementConfig { scratch_namespace: None, fast_forward_only: vec![] };
    let mut replies = accepting();
    replies.rebase = Ok(RebaseOutcome {
        onto: cs(5),
        head: cs(6),
        rebased_changesets: vec![RebasedPair { id_old: cs(99), id_new: cs(6) }],
    });
    let op = BookmarkMovementOp::pushrebase_onto(name("main"), vec![]).only_if_public();
    let res = op.run(&mut repo, &cfg, replies);
    assert!(matches!(res, Err(BookmarkMovementError::InvalidRebaseOutcome)));
    assert_eq!(repo.get_bookmark(&name("main")), Some(cs(5)));
}

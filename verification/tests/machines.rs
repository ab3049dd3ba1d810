use ghsync::branch::{BranchAction, BranchStage, BranchSync};
use ghsync::errors::SyncError;
use ghsync::pipeline::{start, Action, Event, Stage, SyncRun};
use ghsync::publish::{PublishAction, PublishStage, Publication};
use ghsync::store::{AddConfig, SyncConfig, SyncDirection};

fn demo_configs() -> Vec<AddConfig> {
    vec![AddConfig {
        name: "demo".to_string(),
        source: "/a".to_string(),
        destination: "/b".to_string(),
        branch: "main".to_string(),
    }]
}

fn demo_request(direction: SyncDirection) -> SyncConfig {
    SyncConfig {
        name: "demo".to_string(),
        branch: "feature".to_string(),
        message: "sync".to_string(),
        direction,
    }
}

#[test]
fn unknown_pair_fails_before_any_operation() {
    let configs = demo_configs();
    let request = SyncConfig {
        name: "missing".to_string(),
        branch: "feature".to_string(),
        message: "sync".to_string(),
        direction: SyncDirection::A2B,
    };
    let r = start(&configs, &request);
    assert_eq!(r.unwrap_err(), SyncError::NotFound { name: "missing".to_string() });
}

#[test]
fn declining_confirmation_aborts_with_no_action() {
    let configs = demo_configs();
    let mut run = start(&configs, &demo_request(SyncDirection::A2B)).unwrap();
    assert_eq!(run.next_action(), Some(Action::AskConfirm));
    run.step(Event::Answer { yes: false });
    assert_eq!(run.stage, Stage::Failed { error: SyncError::Aborted });
    assert_eq!(run.next_action(), None);
}

#[test]
fn directions_swap_exactly_the_roles() {
    let configs = demo_configs();
    let ab = start(&configs, &demo_request(SyncDirection::A2B)).unwrap();
    let ba = start(&configs, &demo_request(SyncDirection::B2A)).unwrap();
    assert_eq!(ab.source, "/a");
    assert_eq!(ab.destination, "/b");
    assert_eq!(ba.source, "/b");
    assert_eq!(ba.destination, "/a");
    assert_eq!(ab.base_branch, ba.base_branch);
    assert_eq!(ab.target_branch, ba.target_branch);
    assert_eq!(ab.message, ba.message);
    assert_eq!(ab.stage, ba.stage);
}

#[test]
fn no_changes_completes_without_publishing() {
    let configs = demo_configs();
    let mut run = start(&configs, &demo_request(SyncDirection::A2B)).unwrap();
    run.step(Event::Answer { yes: true });
    run.step(Event::Identity { id: Some("acme/widgets".to_string()) });
    run.step(Event::Identity { id: None });
    assert_eq!(run.stage, Stage::FetchingSource);
    run.step(Event::Finished { result: Ok(()) });
    run.step(Event::Finished { result: Ok(()) });
    run.step(Event::Synced { result: Ok(()) });
    run.step(Event::Synced { result: Ok(()) });
    run.step(Event::Synced { result: Ok(()) });
    run.step(Event::Synced { result: Ok(()) });
    assert_eq!(
        run.next_action(),
        Some(Action::MirrorCopy { from: "/a".to_string(), to: "/b".to_string() })
    );
    run.step(Event::Finished { result: Ok(()) });
    assert_eq!(run.next_action(), Some(Action::QueryChanges { path: "/b".to_string() }));
    run.step(Event::Changes { changed: false });
    assert_eq!(run.stage, Stage::Completed { pushed: false });
    assert_eq!(run.next_action(), None);
}

#[test]
fn failed_fetch_stops_the_run() {
    let configs = demo_configs();
    let mut run = start(&configs, &demo_request(SyncDirection::A2B)).unwrap();
    run.step(Event::Answer { yes: true });
    run.step(Event::Identity { id: None });
    run.step(Event::Identity { id: None });
    run.step(Event::Finished { result: Err("no remote".to_string()) });
    assert_eq!(
        run.stage,
        Stage::Failed { error: SyncError::FetchFailed { diagnostic: "no remote".to_string() } }
    );
    assert_eq!(run.next_action(), None);
}

#[test]
fn base_branch_ordered_source_then_destination() {
    let configs = demo_configs();
    let mut run = start(&configs, &demo_request(SyncDirection::A2B)).unwrap();
    run.step(Event::Answer { yes: true });
    run.step(Event::Identity { id: None });
    run.step(Event::Identity { id: None });
    run.step(Event::Finished { result: Ok(()) });
    run.step(Event::Finished { result: Ok(()) });
    assert_eq!(
        run.next_action(),
        Some(Action::EnsureBranch {
            path: "/a".to_string(),
            branch: "main".to_string(),
            allow_create: false,
        })
    );
    run.step(Event::Synced { result: Ok(()) });
    assert_eq!(
        run.next_action(),
        Some(Action::EnsureBranch {
            path: "/b".to_string(),
            branch: "main".to_string(),
            allow_create: false,
        })
    );
    run.step(Event::Synced { result: Ok(()) });
    assert_eq!(
        run.next_action(),
        Some(Action::EnsureBranch {
            path: "/a".to_string(),
            branch: "feature".to_string(),
            allow_create: false,
        })
    );
    run.step(Event::Synced { result: Ok(()) });
    assert_eq!(
        run.next_action(),
        Some(Action::EnsureBranch {
            path: "/b".to_string(),
            branch: "feature".to_string(),
            allow_create: true,
        })
    );
}

#[test]
fn missing_branch_without_create_fails_and_stops() {
    let mut sync = BranchSync::new("/a".to_string(), "feature".to_string(), false);
    assert_eq!(sync.next_action(), Some(BranchAction::Checkout));
    sync.step(Err("pathspec did not match".to_string()));
    assert_eq!(
        sync.stage,
        BranchStage::Failed { error: SyncError::BranchNotFound { branch: "feature".to_string() } }
    );
    assert_eq!(sync.next_action(), None);
}

#[test]
fn missing_branch_with_create_is_created_published_and_pulled() {
    let mut sync = BranchSync::new("/b".to_string(), "feature".to_string(), true);
    assert_eq!(sync.next_action(), Some(BranchAction::Checkout));
    sync.step(Err("pathspec did not match".to_string()));
    assert_eq!(sync.next_action(), Some(BranchAction::CreateBranch));
    sync.step(Ok(()));
    assert_eq!(sync.next_action(), Some(BranchAction::PushUpstream));
    sync.step(Ok(()));
    assert_eq!(sync.next_action(), Some(BranchAction::Pull));
    sync.step(Ok(()));
    assert_eq!(sync.stage, BranchStage::Synced);
    assert_eq!(sync.next_action(), None);
}

#[test]
fn existing_branch_is_only_pulled() {
    let mut sync = BranchSync::new("/a".to_string(), "main".to_string(), false);
    sync.step(Ok(()));
    assert_eq!(sync.next_action(), Some(BranchAction::Pull));
    sync.step(Ok(()));
    assert_eq!(sync.stage, BranchStage::Synced);
}

#[test]
fn failed_upstream_push_names_the_branch() {
    let mut sync = BranchSync::new("/b".to_string(), "feature".to_string(), true);
    sync.step(Err("pathspec did not match".to_string()));
    sync.step(Ok(()));
    sync.step(Err("remote rejected".to_string()));
    assert_eq!(
        sync.stage,
        BranchStage::Failed {
            error: SyncError::PushFailed {
                published_branch: Some("feature".to_string()),
                diagnostic: "remote rejected".to_string(),
            }
        }
    );
}

#[test]
fn failed_pull_surfaces_pull_failed() {
    let mut sync = BranchSync::new("/a".to_string(), "main".to_string(), false);
    sync.step(Ok(()));
    sync.step(Err("diverged".to_string()));
    assert_eq!(
        sync.stage,
        BranchStage::Failed {
            error: SyncError::PullFailed { diagnostic: "diverged".to_string() }
        }
    );
}

#[test]
fn publisher_stages_commits_and_pushes_in_order() {
    let mut publication = Publication::new("/b".to_string(), "sync".to_string());
    assert_eq!(publication.next_action(), Some(PublishAction::Stage));
    publication.step(Ok(()));
    assert_eq!(publication.next_action(), Some(PublishAction::Commit));
    publication.step(Ok(()));
    assert_eq!(publication.next_action(), Some(PublishAction::Push));
    publication.step(Ok(()));
    assert_eq!(publication.stage, PublishStage::Published);
    assert_eq!(publication.next_action(), None);
}

#[test]
fn publisher_stops_at_first_failure() {
    let mut publication = Publication::new("/b".to_string(), "sync".to_string());
    publication.step(Ok(()));
    publication.step(Err("nothing to commit".to_string()));
    assert_eq!(
        publication.stage,
        PublishStage::Failed {
            error: SyncError::CommitFailed { diagnostic: "nothing to commit".to_string() }
        }
    );
    assert_eq!(publication.next_action(), None);
}

fn run_branch_machine(action: &Action, branch_missing_on: &str) -> Result<(), SyncError> {
    // Drives the branch synchronizer the way the surrounding program would,
    // against a pretend tree that lacks the branch only at `branch_missing_on`.
    if let Action::EnsureBranch { path, branch, allow_create } = action {
        let mut sync = BranchSync::new(path.clone(), branch.clone(), *allow_create);
        while let Some(op) = sync.next_action() {
            let outcome = match op {
                BranchAction::Checkout => {
                    if path.as_str() == branch_missing_on && branch.as_str() == "feature" {
                        Err("pathspec did not match".to_string())
                    } else {
                        Ok(())
                    }
                }
                BranchAction::CreateBranch => Ok(()),
                BranchAction::PushUpstream => Ok(()),
                BranchAction::Pull => Ok(()),
            };
            sync.step(outcome);
        }
        match sync.stage {
            BranchStage::Synced => Ok(()),
            BranchStage::Failed { error } => Err(error),
            _ => unreachable!(),
        }
    } else {
        panic!("not a branch action");
    }
}

#[test]
fn end_to_end_demo_pair_creates_branch_mirrors_and_publishes() {
    // Pair {demo, /a, /b, main}, request {A2B, feature, "sync"}: /a has the
    // feature branch, /b lacks it and has new files after the mirror copy.
    let configs = demo_configs();
    let mut run = start(&configs, &demo_request(SyncDirection::A2B)).unwrap();
    let mut created_on_dest = false;
    let mut published = false;
    while let Some(action) = run.next_action() {
        let event = match &action {
            Action::AskConfirm => Event::Answer { yes: true },
            Action::ResolveIdentity { .. } => {
                Event::Identity { id: Some("acme/widgets".to_string()) }
            }
            Action::Fetch { .. } => Event::Finished { result: Ok(()) },
            Action::EnsureBranch { path, branch, allow_create } => {
                let result = run_branch_machine(&action, "/b");
                if result.is_ok() && path.as_str() == "/b" && branch.as_str() == "feature" {
                    assert!(*allow_create);
                    created_on_dest = true;
                }
                Event::Synced { result }
            }
            Action::MirrorCopy { from, to } => {
                assert_eq!(from.as_str(), "/a");
                assert_eq!(to.as_str(), "/b");
                Event::Finished { result: Ok(()) }
            }
            Action::QueryChanges { .. } => Event::Changes { changed: true },
            Action::Publish { path, message } => {
                assert_eq!(path.as_str(), "/b");
                assert_eq!(message.as_str(), "sync");
                let mut publication = Publication::new(path.clone(), message.clone());
                while let Some(_op) = publication.next_action() {
                    publication.step(Ok(()));
                }
                assert_eq!(publication.stage, PublishStage::Published);
                published = true;
                Event::Published { result: Ok(()) }
            }
        };
        run.step(event);
    }
    assert!(created_on_dest);
    assert!(published);
    assert_eq!(run.stage, Stage::Completed { pushed: true });
}

#[test]
fn identity_failure_never_aborts_the_run() {
    let configs = demo_configs();
    let mut run = start(&configs, &demo_request(SyncDirection::A2B)).unwrap();
    run.step(Event::Answer { yes: true });
    run.step(Event::Identity { id: None });
    assert_eq!(run.stage, Stage::ResolvingDestIdentity);
    run.step(Event::Identity { id: None });
    assert_eq!(run.stage, Stage::FetchingSource);
}

#[test]
fn run_fields_never_change_over_a_run() {
    let configs = demo_configs();
    let mut run: SyncRun = start(&configs, &demo_request(SyncDirection::B2A)).unwrap();
    run.step(Event::Answer { yes: true });
    run.step(Event::Identity { id: None });
    run.step(Event::Identity { id: None });
    run.step(Event::Finished { result: Err("gone".to_string()) });
    assert_eq!(run.source, "/b");
    assert_eq!(run.destination, "/a");
    assert_eq!(run.base_branch, "main");
    assert_eq!(run.target_branch, "feature");
    assert_eq!(run.message, "sync");
}

use vstd::prelude::*;
use crate::errors::SyncError;

verus! {

/// Where the branch synchronizer stands on one working tree.
#[derive(Debug, PartialEq, Eq)]
pub enum BranchStage {
    /// Switching the tree to the branch.
    CheckingOut,
    /// The switch failed and creation is permitted: creating the branch
    /// from the current head.
    Creating,
    /// Publishing the newly created branch to the remote with upstream
    /// tracking.
    PublishingNew,
    /// Pulling the latest state of the now checked-out branch.
    Pulling,
    /// The tree is on the branch and up to date with its remote.
    Synced,
    /// The synchronizer stopped; no further operation may run.
    Failed { error: SyncError },
}

/// The one version-control operation the synchronizer asks for next.
#[derive(Clone, Copy, Debug, PartialEq, Eq, Structural)]
pub enum BranchAction {
    /// Switch the tree to the branch.
    Checkout,
    /// Create a local branch of that name from the current head.
    CreateBranch,
    /// Push the new branch to the tracked remote with upstream tracking.
    PushUpstream,
    /// Pull the current branch from its remote.
    Pull,
}

/// Synchronizes one working tree onto one branch: switch to it, creating
/// and publishing it first when permitted and needed, then pull. The
/// machine only decides; the caller performs each requested operation and
/// reports how it went.
#[derive(Debug)]
pub struct BranchSync {
    /// Path of the working tree being synchronized.
    pub path: String,
    /// The branch the tree must end up on.
    pub branch: String,
    /// Whether a missing branch may be created and published.
    pub allow_create: bool,
    /// Where the synchronizer stands.
    pub stage: BranchStage,
}

/// The operation owed at each stage; nothing once the machine stopped.
pub open spec fn branch_action_of(stage: BranchStage) -> Option<BranchAction> {
    match stage {
        BranchStage::CheckingOut => Option::Some(BranchAction::Checkout),
        BranchStage::Creating => Option::Some(BranchAction::CreateBranch),
        BranchStage::PublishingNew => Option::Some(BranchAction::PushUpstream),
        BranchStage::Pulling => Option::Some(BranchAction::Pull),
        BranchStage::Synced => Option::None,
        BranchStage::Failed { .. } => Option::None,
    }
}

/// The stage after the pending operation came back with `outcome`. An
/// outcome reported to a stopped machine changes nothing.
pub open spec fn branch_next(
    stage: BranchStage,
    allow_create: bool,
    branch: String,
    outcome: Result<(), String>,
) -> BranchStage {
    match stage {
        BranchStage::CheckingOut => match outcome {
            Result::Ok(_) => BranchStage::Pulling,
            Result::Err(_) => if allow_create {
                BranchStage::Creating
            } else {
                BranchStage::Failed { error: SyncError::BranchNotFound { branch } }
            },
        },
        BranchStage::Creating => match outcome {
            Result::Ok(_) => BranchStage::PublishingNew,
            Result::Err(_) => BranchStage::Failed {
                error: SyncError::BranchCreationFailed { branch },
            },
        },
        BranchStage::PublishingNew => match outcome {
            Result::Ok(_) => BranchStage::Pulling,
            Result::Err(diagnostic) => BranchStage::Failed {
                error: SyncError::PushFailed {
                    published_branch: Option::Some(branch),
                    diagnostic,
                },
            },
        },
        BranchStage::Pulling => match outcome {
            Result::Ok(_) => BranchStage::Synced,
            Result::Err(diagnostic) => BranchStage::Failed {
                error: SyncError::PullFailed { diagnostic },
            },
        },
        BranchStage::Synced => stage,
        BranchStage::Failed { .. } => stage,
    }
}

impl BranchSync {
    /// A synchronizer about to switch `path` onto `branch`.
    pub fn new(path: String, branch: String, allow_create: bool) -> (r: BranchSync)
        ensures
            r.path == path,
            r.branch == branch,
            r.allow_create == allow_create,
            r.stage == BranchStage::CheckingOut,
    {
        BranchSync { path, branch, allow_create, stage: BranchStage::CheckingOut }
    }

    /// The operation the caller must perform next, or nothing when the
    /// machine stopped in `Synced` or `Failed`.
    pub fn next_action(&self) -> (r: Option<BranchAction>)
        ensures
            r == branch_action_of(self.stage),
    {
        match self.stage {
            BranchStage::CheckingOut => Some(BranchAction::Checkout),
            BranchStage::Creating => Some(BranchAction::CreateBranch),
            BranchStage::PublishingNew => Some(BranchAction::PushUpstream),
            BranchStage::Pulling => Some(BranchAction::Pull),
            BranchStage::Synced => None,
            BranchStage::Failed { .. } => None,
        }
    }

    /// Feeds back how the pending operation went and moves to the next
    /// stage. Everything but the stage stays as it was.
    pub fn step(&mut self, outcome: Result<(), String>)
        ensures
            final(self).path == old(self).path,
            final(self).branch == old(self).branch,
            final(self).allow_create == old(self).allow_create,
            final(self).stage == branch_next(
                old(self).stage,
                old(self).allow_create,
                old(self).branch,
                outcome,
            ),
    {
        match (&self.stage, outcome) {
            (BranchStage::CheckingOut, Result::Ok(_)) => {
                self.stage = BranchStage::Pulling;
            },
            (BranchStage::CheckingOut, Result::Err(_)) => {
                if self.allow_create {
                    self.stage = BranchStage::Creating;
                } else {
                    let branch = self.branch.clone();
                    self.stage = BranchStage::Failed {
                        error: SyncError::BranchNotFound { branch },
                    };
                }
            },
            (BranchStage::Creating, Result::Ok(_)) => {
                self.stage = BranchStage::PublishingNew;
            },
            (BranchStage::Creating, Result::Err(_)) => {
                let branch = self.branch.clone();
                self.stage = BranchStage::Failed {
                    error: SyncError::BranchCreationFailed { branch },
                };
            },
            (BranchStage::PublishingNew, Result::Ok(_)) => {
                self.stage = BranchStage::Pulling;
            },
            (BranchStage::PublishingNew, Result::Err(diagnostic)) => {
                let branch = self.branch.clone();
                self.stage = BranchStage::Failed {
                    error: SyncError::PushFailed {
                        published_branch: Some(branch),
                        diagnostic,
                    },
                };
            },
            (BranchStage::Pulling, Result::Ok(_)) => {
                self.stage = BranchStage::Synced;
            },
            (BranchStage::Pulling, Result::Err(diagnostic)) => {
                self.stage = BranchStage::Failed { error: SyncError::PullFailed { diagnostic } };
            },
            (BranchStage::Synced, _) => {},
            (BranchStage::Failed { .. }, _) => {},
        }
    }
}

/// When creation is not permitted, a failed switch stops the synchronizer
/// at once with `BranchNotFound`, and no further operation is requested:
/// the tree is never touched again by this synchronizer.
pub proof fn lemma_missing_branch_without_create(
    branch: String,
    allow_create: bool,
    diagnostic: String,
)
    requires
        !allow_create,
    ensures
        branch_next(BranchStage::CheckingOut, allow_create, branch, Result::Err(diagnostic))
            == (BranchStage::Failed { error: SyncError::BranchNotFound { branch } }),
        branch_action_of(
            branch_next(BranchStage::CheckingOut, allow_create, branch, Result::Err(diagnostic)),
        ) is None,
{
}

/// On a tree already carrying the branch — the switch succeeds — the
/// synchronizer asks only for the switch and a pull, whatever
/// `allow_create` says: running it again on an already-synced tree is a
/// no-op beyond re-pulling.
pub proof fn lemma_existing_branch_only_pulled(branch: String, allow_create: bool)
    ensures
        branch_next(BranchStage::CheckingOut, allow_create, branch, Result::<(), String>::Ok(()))
            == BranchStage::Pulling,
        branch_next(BranchStage::Pulling, allow_create, branch, Result::<(), String>::Ok(()))
            == BranchStage::Synced,
        branch_action_of(BranchStage::Synced) is None,
{
}

/// Whichever path the synchronizer takes to a checked-out branch, it ends
/// synced only through a successful pull.
pub proof fn lemma_synced_only_after_pull(
    stage: BranchStage,
    allow_create: bool,
    branch: String,
    outcome: Result<(), String>,
)
    requires
        branch_next(stage, allow_create, branch, outcome) == BranchStage::Synced,
    ensures
        stage == BranchStage::Synced || (stage == BranchStage::Pulling && outcome is Ok),
{
}

/// When creation is permitted and the switch fails, the synchronizer runs
/// exactly the creation path: create the branch, publish it with upstream
/// tracking, pull, and end synced — provided each of those operations
/// succeeds.
pub proof fn lemma_missing_branch_created(
    branch: String,
    allow_create: bool,
    diagnostic: String,
)
    requires
        allow_create,
    ensures
        ({
            let ok = Result::<(), String>::Ok(());
            let s1 = branch_next(
                BranchStage::CheckingOut,
                allow_create,
                branch,
                Result::Err(diagnostic),
            );
            let s2 = branch_next(s1, allow_create, branch, ok);
            let s3 = branch_next(s2, allow_create, branch, ok);
            let s4 = branch_next(s3, allow_create, branch, ok);
            s1 == BranchStage::Creating && branch_action_of(s1) == Option::Some(
                BranchAction::CreateBranch,
            ) && s2 == BranchStage::PublishingNew && branch_action_of(s2) == Option::Some(
                BranchAction::PushUpstream,
            ) && s3 == BranchStage::Pulling && branch_action_of(s3) == Option::Some(
                BranchAction::Pull,
            ) && s4 == BranchStage::Synced && branch_action_of(s4) is None
        }),
{
}

} // verus!

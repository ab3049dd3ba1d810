use vstd::prelude::*;
use crate::errors::SyncError;

verus! {

/// Where the commit publisher stands on the copy-to tree.
#[derive(Debug, PartialEq, Eq)]
pub enum PublishStage {
    /// Staging every change in the tree.
    Staging,
    /// Committing the staged changes with the run's message.
    Committing,
    /// Pushing the commit to the tracked remote.
    Pushing,
    /// The commit is on the remote.
    Published,
    /// The publisher stopped; completed steps are not rolled back.
    Failed { error: SyncError },
}

/// The one version-control operation the publisher asks for next.
#[derive(Clone, Copy, Debug, PartialEq, Eq, Structural)]
pub enum PublishAction {
    /// Stage all changes in the tree.
    Stage,
    /// Commit the staged changes with the supplied message.
    Commit,
    /// Push to the tracked remote.
    Push,
}

/// Publishes the mirrored result: stage everything, commit with the run's
/// message, push. Each step can fail on its own; the first failure stops
/// the remaining steps, and nothing already staged or committed is undone.
#[derive(Debug)]
pub struct Publication {
    /// Path of the copy-to working tree.
    pub path: String,
    /// Commit message for the published changes.
    pub message: String,
    /// Where the publisher stands.
    pub stage: PublishStage,
}

/// The operation owed at each stage; nothing once the machine stopped.
pub open spec fn publish_action_of(stage: PublishStage) -> Option<PublishAction> {
    match stage {
        PublishStage::Staging => Option::Some(PublishAction::Stage),
        PublishStage::Committing => Option::Some(PublishAction::Commit),
        PublishStage::Pushing => Option::Some(PublishAction::Push),
        PublishStage::Published => Option::None,
        PublishStage::Failed { .. } => Option::None,
    }
}

/// The stage after the pending operation came back with `outcome`. An
/// outcome reported to a stopped machine changes nothing.
pub open spec fn publish_next(stage: PublishStage, outcome: Result<(), String>) -> PublishStage {
    match stage {
        PublishStage::Staging => match outcome {
            Result::Ok(_) => PublishStage::Committing,
            Result::Err(diagnostic) => PublishStage::Failed {
                error: SyncError::StageFailed { diagnostic },
            },
        },
        PublishStage::Committing => match outcome {
            Result::Ok(_) => PublishStage::Pushing,
            Result::Err(diagnostic) => PublishStage::Failed {
                error: SyncError::CommitFailed { diagnostic },
            },
        },
        PublishStage::Pushing => match outcome {
            Result::Ok(_) => PublishStage::Published,
            Result::Err(diagnostic) => PublishStage::Failed {
                error: SyncError::PushFailed { published_branch: Option::None, diagnostic },
            },
        },
        PublishStage::Published => stage,
        PublishStage::Failed { .. } => stage,
    }
}

impl Publication {
    /// A publisher about to stage the changes in `path`.
    pub fn new(path: String, message: String) -> (r: Publication)
        ensures
            r.path == path,
            r.message == message,
            r.stage == PublishStage::Staging,
    {
        Publication { path, message, stage: PublishStage::Staging }
    }

    /// The operation the caller must perform next, or nothing when the
    /// machine stopped in `Published` or `Failed`.
    pub fn next_action(&self) -> (r: Option<PublishAction>)
        ensures
            r == publish_action_of(self.stage),
    {
        match self.stage {
            PublishStage::Staging => Some(PublishAction::Stage),
            PublishStage::Committing => Some(PublishAction::Commit),
            PublishStage::Pushing => Some(PublishAction::Push),
            PublishStage::Published => None,
            PublishStage::Failed { .. } => None,
        }
    }

    /// Feeds back how the pending operation went and moves to the next
    /// stage. Everything but the stage stays as it was.
    pub fn step(&mut self, outcome: Result<(), String>)
        ensures
            final(self).path == old(self).path,
            final(self).message == old(self).message,
            final(self).stage == publish_next(old(self).stage, outcome),
    {
        match (&self.stage, outcome) {
            (PublishStage::Staging, Result::Ok(_)) => {
                self.stage = PublishStage::Committing;
            },
            (PublishStage::Staging, Result::Err(diagnostic)) => {
                self.stage = PublishStage::Failed {
                    error: SyncError::StageFailed { diagnostic },
                };
            },
            (PublishStage::Committing, Result::Ok(_)) => {
                self.stage = PublishStage::Pushing;
            },
            (PublishStage::Committing, Result::Err(diagnostic)) => {
                self.stage = PublishStage::Failed {
                    error: SyncError::CommitFailed { diagnostic },
                };
            },
            (PublishStage::Pushing, Result::Ok(_)) => {
                self.stage = PublishStage::Published;
            },
            (PublishStage::Pushing, Result::Err(diagnostic)) => {
                self.stage = PublishStage::Failed {
                    error: SyncError::PushFailed { published_branch: None, diagnostic },
                };
            },
            (PublishStage::Published, _) => {},
            (PublishStage::Failed { .. }, _) => {},
        }
    }
}

/// A failure at any of the three steps stops the publisher at once: the
/// stage it reaches requests no further operation, and the error names the
/// step that failed.
pub proof fn lemma_publish_stops_at_first_failure(stage: PublishStage, diagnostic: String)
    requires
        publish_action_of(stage) is Some,
    ensures
        publish_action_of(publish_next(stage, Result::Err(diagnostic))) is None,
        publish_next(stage, Result::Err(diagnostic)) == (PublishStage::Failed {
            error: match stage {
                PublishStage::Staging => SyncError::StageFailed { diagnostic },
                PublishStage::Committing => SyncError::CommitFailed { diagnostic },
                _ => SyncError::PushFailed { published_branch: Option::None, diagnostic },
            },
        }),
{
}

} // verus!

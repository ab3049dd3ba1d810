use vstd::prelude::*;
use crate::probe::RepoClassification;

verus! {

/// Which of the two working trees an error is about, after the direction of
/// the run has assigned the copy-from and copy-to roles.
#[derive(Clone, Copy, Debug, PartialEq, Eq, Structural)]
pub enum PathRole {
    Source,
    Destination,
}

/// Everything that can go wrong while registering a pair or running a sync.
/// Diagnostics carry the underlying tool's text where one was involved.
#[derive(Debug, PartialEq, Eq)]
pub enum SyncError {
    /// No stored pair has the requested name.
    NotFound { name: String },
    /// A pair with this name is already stored.
    NameTaken { name: String },
    /// A path offered for a new pair is not a usable working tree.
    PathInvalid { role: PathRole, classification: RepoClassification },
    /// Switching to a branch failed and creating it was not permitted.
    BranchNotFound { branch: String },
    /// Creating a missing branch failed.
    BranchCreationFailed { branch: String },
    /// A remote fetch failed on one of the trees.
    FetchFailed { diagnostic: String },
    /// Pulling the current branch from its remote failed.
    PullFailed { diagnostic: String },
    /// Pushing failed; `published_branch` names the branch being published
    /// when the push was the one that sets up remote tracking for a newly
    /// created branch.
    PushFailed { published_branch: Option<String>, diagnostic: String },
    /// The mirror copy between the trees failed.
    CopyFailed { diagnostic: String },
    /// Staging the copied changes failed.
    StageFailed { diagnostic: String },
    /// Committing the staged changes failed.
    CommitFailed { diagnostic: String },
    /// The user declined the confirmation prompt. Not a fault: the run ends
    /// before any external operation is attempted.
    Aborted,
}

} // verus!

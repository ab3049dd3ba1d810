use vstd::prelude::*;

verus! {

/// What probing a filesystem path found: a usable version-controlled
/// working tree, or the reason it is not one.
#[derive(Clone, Copy, Debug, PartialEq, Eq, Structural)]
pub enum RepoClassification {
    Valid,
    PathNotFound,
    NotADirectory,
    NotAVersionControlledTree,
}

/// The classification a path deserves, given whether it exists, whether it
/// is a directory, and whether the version-control work-tree check
/// succeeded there.
pub open spec fn classification_of(exists: bool, is_dir: bool, work_tree_ok: bool) -> RepoClassification {
    if !exists {
        RepoClassification::PathNotFound
    } else if !is_dir {
        RepoClassification::NotADirectory
    } else if !work_tree_ok {
        RepoClassification::NotAVersionControlledTree
    } else {
        RepoClassification::Valid
    }
}

/// Classifies a path from the three facts the caller gathered about it.
/// The caller only needs the later answers when the earlier ones passed:
/// a missing path is reported as such whatever the other two arguments say.
pub fn classify(exists: bool, is_dir: bool, work_tree_ok: bool) -> (c: RepoClassification)
    ensures
        c == classification_of(exists, is_dir, work_tree_ok),
{
    if !exists {
        RepoClassification::PathNotFound
    } else if !is_dir {
        RepoClassification::NotADirectory
    } else if !work_tree_ok {
        RepoClassification::NotAVersionControlledTree
    } else {
        RepoClassification::Valid
    }
}

} // verus!

use vstd::prelude::*;
use crate::errors::SyncError;
use crate::store::{AddConfig, SyncConfig, SyncDirection, has_name};
use crate::text::{first_non_space, last_non_space_from, lemma_trim_back_take,
    lemma_trim_front_skip, trimmed};

verus! {

/// Where the orchestrator stands in the run. The stages after `Confirming`
/// are strictly sequential: the first failure stops the run, nothing is
/// retried, and nothing already done is rolled back.
#[derive(Debug, PartialEq, Eq)]
pub enum Stage {
    /// Waiting on the interactive yes/no confirmation.
    Confirming,
    /// Resolving the copy-from tree's remote identity, for display only.
    ResolvingSourceIdentity,
    /// Resolving the copy-to tree's remote identity, for display only.
    ResolvingDestIdentity,
    /// Fetching the copy-from tree from its remote.
    FetchingSource,
    /// Fetching the copy-to tree from its remote.
    FetchingDest,
    /// Synchronizing the copy-from tree onto the base branch.
    SyncingBaseOnSource,
    /// Synchronizing the copy-to tree onto the base branch.
    SyncingBaseOnDest,
    /// Synchronizing the copy-from tree onto the target branch, which must
    /// already exist there.
    SyncingTargetOnSource,
    /// Synchronizing the copy-to tree onto the target branch, creating and
    /// publishing it there if need be.
    SyncingTargetOnDest,
    /// Mirroring the copy-from tree's visible files onto the copy-to tree.
    Copying,
    /// Asking whether the mirror copy left uncommitted changes behind.
    CheckingChanges,
    /// Committing and pushing the mirrored changes.
    Publishing,
    /// The run ended well; `pushed` says whether there was anything to
    /// commit and push.
    Completed { pushed: bool },
    /// The run stopped; no further operation may run.
    Failed { error: SyncError },
}

/// What the caller must do next for the orchestrator. Every operation on
/// the trees happens outside the machine; the machine only sequences them.
#[derive(Debug, PartialEq, Eq)]
pub enum Action {
    /// Show the run and block on the yes/no prompt.
    AskConfirm,
    /// Resolve the remote identity configured at `path`, for display.
    ResolveIdentity { path: String },
    /// Fetch the tree at `path` from its remote.
    Fetch { path: String },
    /// Run the branch synchronizer on the tree at `path`.
    EnsureBranch { path: String, branch: String, allow_create: bool },
    /// Mirror the visible files of `from` onto `to`.
    MirrorCopy { from: String, to: String },
    /// Ask whether the tree at `path` has uncommitted changes.
    QueryChanges { path: String },
    /// Run the commit publisher on the tree at `path` with `message`.
    Publish { path: String, message: String },
}

/// What the caller reports back after performing the pending action.
#[derive(Debug, PartialEq, Eq)]
pub enum Event {
    /// The prompt's answer.
    Answer { yes: bool },
    /// The resolved remote identity, or nothing when the URL could not be
    /// parsed. The run proceeds either way.
    Identity { id: Option<String> },
    /// How a fetch or the mirror copy went; `Err` carries the tool's text.
    Finished { result: Result<(), String> },
    /// What the branch synchronizer ended with.
    Synced { result: Result<(), SyncError> },
    /// Whether the tree has uncommitted changes.
    Changes { changed: bool },
    /// What the commit publisher ended with.
    Published { result: Result<(), SyncError> },
}

/// One run of the synchronization pipeline, with the copy-from and copy-to
/// roles already assigned from the request's direction.
#[derive(Debug)]
pub struct SyncRun {
    /// Path playing the copy-from role for this run.
    pub source: String,
    /// Path playing the copy-to role for this run.
    pub destination: String,
    /// The pair's base branch, pre-existing on both remotes.
    pub base_branch: String,
    /// The branch being synchronized for this run.
    pub target_branch: String,
    /// Commit message for the published result.
    pub message: String,
    /// Where the run stands.
    pub stage: Stage,
}

/// The run a pair and a request plan out: the direction assigns the
/// copy-from and copy-to roles, everything else is carried over, and the
/// run starts at the confirmation gate.
pub open spec fn planned_run(pair: AddConfig, request: SyncConfig) -> SyncRun {
    SyncRun {
        source: if request.direction is A2B {
            pair.source
        } else {
            pair.destination
        },
        destination: if request.direction is A2B {
            pair.destination
        } else {
            pair.source
        },
        base_branch: pair.branch,
        target_branch: request.branch,
        message: request.message,
        stage: Stage::Confirming,
    }
}

/// The action owed at each stage; nothing once the run ended. Note that
/// nothing before the confirmation touches a tree: the only action at
/// `Confirming` is the prompt itself.
pub open spec fn action_of(run: SyncRun) -> Option<Action> {
    match run.stage {
        Stage::Confirming => Option::Some(Action::AskConfirm),
        Stage::ResolvingSourceIdentity => Option::Some(
            Action::ResolveIdentity { path: run.source },
        ),
        Stage::ResolvingDestIdentity => Option::Some(
            Action::ResolveIdentity { path: run.destination },
        ),
        Stage::FetchingSource => Option::Some(Action::Fetch { path: run.source }),
        Stage::FetchingDest => Option::Some(Action::Fetch { path: run.destination }),
        Stage::SyncingBaseOnSource => Option::Some(
            Action::EnsureBranch {
                path: run.source,
                branch: run.base_branch,
                allow_create: false,
            },
        ),
        Stage::SyncingBaseOnDest => Option::Some(
            Action::EnsureBranch {
                path: run.destination,
                branch: run.base_branch,
                allow_create: false,
            },
        ),
        Stage::SyncingTargetOnSource => Option::Some(
            Action::EnsureBranch {
                path: run.source,
                branch: run.target_branch,
                allow_create: false,
            },
        ),
        Stage::SyncingTargetOnDest => Option::Some(
            Action::EnsureBranch {
                path: run.destination,
                branch: run.target_branch,
                allow_create: true,
            },
        ),
        Stage::Copying => Option::Some(
            Action::MirrorCopy { from: run.source, to: run.destination },
        ),
        Stage::CheckingChanges => Option::Some(Action::QueryChanges { path: run.destination }),
        Stage::Publishing => Option::Some(
            Action::Publish { path: run.destination, message: run.message },
        ),
        Stage::Completed { .. } => Option::None,
        Stage::Failed { .. } => Option::None,
    }
}

/// The stage after the pending action's event arrived. A pure function of
/// the stage and the event alone: which paths play which role never
/// changes what comes next, only where the actions are aimed. An event
/// that does not answer the pending action, or arrives after the run
/// ended, changes nothing.
pub open spec fn next_stage(stage: Stage, event: Event) -> Stage {
    match (stage, event) {
        (Stage::Confirming, Event::Answer { yes }) => if yes {
            Stage::ResolvingSourceIdentity
        } else {
            Stage::Failed { error: SyncError::Aborted }
        },
        (Stage::ResolvingSourceIdentity, Event::Identity { .. }) => Stage::ResolvingDestIdentity,
        (Stage::ResolvingDestIdentity, Event::Identity { .. }) => Stage::FetchingSource,
        (Stage::FetchingSource, Event::Finished { result }) => match result {
            Result::Ok(_) => Stage::FetchingDest,
            Result::Err(diagnostic) => Stage::Failed {
                error: SyncError::FetchFailed { diagnostic },
            },
        },
        (Stage::FetchingDest, Event::Finished { result }) => match result {
            Result::Ok(_) => Stage::SyncingBaseOnSource,
            Result::Err(diagnostic) => Stage::Failed {
                error: SyncError::FetchFailed { diagnostic },
            },
        },
        (Stage::SyncingBaseOnSource, Event::Synced { result }) => match result {
            Result::Ok(_) => Stage::SyncingBaseOnDest,
            Result::Err(error) => Stage::Failed { error },
        },
        (Stage::SyncingBaseOnDest, Event::Synced { result }) => match result {
            Result::Ok(_) => Stage::SyncingTargetOnSource,
            Result::Err(error) => Stage::Failed { error },
        },
        (Stage::SyncingTargetOnSource, Event::Synced { result }) => match result {
            Result::Ok(_) => Stage::SyncingTargetOnDest,
            Result::Err(error) => Stage::Failed { error },
        },
        (Stage::SyncingTargetOnDest, Event::Synced { result }) => match result {
            Result::Ok(_) => Stage::Copying,
            Result::Err(error) => Stage::Failed { error },
        },
        (Stage::Copying, Event::Finished { result }) => match result {
            Result::Ok(_) => Stage::CheckingChanges,
            Result::Err(diagnostic) => Stage::Failed {
                error: SyncError::CopyFailed { diagnostic },
            },
        },
        (Stage::CheckingChanges, Event::Changes { changed }) => if changed {
            Stage::Publishing
        } else {
            Stage::Completed { pushed: false }
        },
        (Stage::Publishing, Event::Published { result }) => match result {
            Result::Ok(_) => Stage::Completed { pushed: true },
            Result::Err(error) => Stage::Failed { error },
        },
        (s, _) => s,
    }
}

/// Looks the request's pair name up and plans the run. When no stored pair
/// has that name the request fails with `NotFound` at once: no run exists,
/// so no action is ever requested and no external operation is attempted.
pub fn start(configs: &Vec<AddConfig>, request: &SyncConfig) -> (r: Result<SyncRun, SyncError>)
    ensures
        (match r {
            Result::Ok(run) => has_name(configs@, request.name@) && (exists|i: int|
                0 <= i < configs@.len() && configs@[i].name@ == request.name@ && (forall|k: int|
                    0 <= k < i ==> configs@[k].name@ != request.name@) && run == planned_run(
                    configs@[i],
                    *request,
                )),
            Result::Err(e) => !has_name(configs@, request.name@) && (e
                matches SyncError::NotFound { name: n } && n@ == request.name@),
        }),
{
    match crate::store::find_pair(configs, request.name.as_str()) {
        None => Err(SyncError::NotFound { name: request.name.clone() }),
        Some(i) => {
            let pair = &configs[i];
            let a2b = request.direction == SyncDirection::A2B;
            let run = SyncRun {
                source: if a2b {
                    pair.source.clone()
                } else {
                    pair.destination.clone()
                },
                destination: if a2b {
                    pair.destination.clone()
                } else {
                    pair.source.clone()
                },
                base_branch: pair.branch.clone(),
                target_branch: request.branch.clone(),
                message: request.message.clone(),
                stage: Stage::Confirming,
            };
            Ok(run)
        },
    }
}

impl SyncRun {
    /// The action the caller must perform next, or nothing once the run
    /// ended in `Completed` or `Failed`.
    pub fn next_action(&self) -> (r: Option<Action>)
        ensures
            r == action_of(*self),
    {
        match self.stage {
            Stage::Confirming => Some(Action::AskConfirm),
            Stage::ResolvingSourceIdentity => Some(
                Action::ResolveIdentity { path: self.source.clone() },
            ),
            Stage::ResolvingDestIdentity => Some(
                Action::ResolveIdentity { path: self.destination.clone() },
            ),
            Stage::FetchingSource => Some(Action::Fetch { path: self.source.clone() }),
            Stage::FetchingDest => Some(Action::Fetch { path: self.destination.clone() }),
            Stage::SyncingBaseOnSource => Some(
                Action::EnsureBranch {
                    path: self.source.clone(),
                    branch: self.base_branch.clone(),
                    allow_create: false,
                },
            ),
            Stage::SyncingBaseOnDest => Some(
                Action::EnsureBranch {
                    path: self.destination.clone(),
                    branch: self.base_branch.clone(),
                    allow_create: false,
                },
            ),
            Stage::SyncingTargetOnSource => Some(
                Action::EnsureBranch {
                    path: self.source.clone(),
                    branch: self.target_branch.clone(),
                    allow_create: false,
                },
            ),
            Stage::SyncingTargetOnDest => Some(
                Action::EnsureBranch {
                    path: self.destination.clone(),
                    branch: self.target_branch.clone(),
                    allow_create: true,
                },
            ),
            Stage::Copying => Some(
                Action::MirrorCopy { from: self.source.clone(), to: self.destination.clone() },
            ),
            Stage::CheckingChanges => Some(
                Action::QueryChanges { path: self.destination.clone() },
            ),
            Stage::Publishing => Some(
                Action::Publish {
                    path: self.destination.clone(),
                    message: self.message.clone(),
                },
            ),
            Stage::Completed { .. } => None,
            Stage::Failed { .. } => None,
        }
    }

    /// Feeds back the pending action's event and moves to the next stage.
    /// The paths, branches and message never change over a run.
    pub fn step(&mut self, event: Event)
        ensures
            final(self).source == old(self).source,
            final(self).destination == old(self).destination,
            final(self).base_branch == old(self).base_branch,
            final(self).target_branch == old(self).target_branch,
            final(self).message == old(self).message,
            final(self).stage == next_stage(old(self).stage, event),
    {
        match (&self.stage, event) {
            (Stage::Confirming, Event::Answer { yes }) => {
                self.stage = if yes {
                    Stage::ResolvingSourceIdentity
                } else {
                    Stage::Failed { error: SyncError::Aborted }
                };
            },
            (Stage::ResolvingSourceIdentity, Event::Identity { .. }) => {
                self.stage = Stage::ResolvingDestIdentity;
            },
            (Stage::ResolvingDestIdentity, Event::Identity { .. }) => {
                self.stage = Stage::FetchingSource;
            },
            (Stage::FetchingSource, Event::Finished { result }) => {
                self.stage = match result {
                    Ok(_) => Stage::FetchingDest,
                    Err(diagnostic) => Stage::Failed {
                        error: SyncError::FetchFailed { diagnostic },
                    },
                };
            },
            (Stage::FetchingDest, Event::Finished { result }) => {
                self.stage = match result {
                    Ok(_) => Stage::SyncingBaseOnSource,
                    Err(diagnostic) => Stage::Failed {
                        error: SyncError::FetchFailed { diagnostic },
                    },
                };
            },
            (Stage::SyncingBaseOnSource, Event::Synced { result }) => {
                self.stage = match result {
                    Ok(_) => Stage::SyncingBaseOnDest,
                    Err(error) => Stage::Failed { error },
                };
            },
            (Stage::SyncingBaseOnDest, Event::Synced { result }) => {
                self.stage = match result {
                    Ok(_) => Stage::SyncingTargetOnSource,
                    Err(error) => Stage::Failed { error },
                };
            },
            (Stage::SyncingTargetOnSource, Event::Synced { result }) => {
                self.stage = match result {
                    Ok(_) => Stage::SyncingTargetOnDest,
                    Err(error) => Stage::Failed { error },
                };
            },
            (Stage::SyncingTargetOnDest, Event::Synced { result }) => {
                self.stage = match result {
                    Ok(_) => Stage::Copying,
                    Err(error) => Stage::Failed { error },
                };
            },
            (Stage::Copying, Event::Finished { result }) => {
                self.stage = match result {
                    Ok(_) => Stage::CheckingChanges,
                    Err(diagnostic) => Stage::Failed {
                        error: SyncError::CopyFailed { diagnostic },
                    },
                };
            },
            (Stage::CheckingChanges, Event::Changes { changed }) => {
                self.stage = if changed {
                    Stage::Publishing
                } else {
                    Stage::Completed { pushed: false }
                };
            },
            (Stage::Publishing, Event::Published { result }) => {
                self.stage = match result {
                    Ok(_) => Stage::Completed { pushed: true },
                    Err(error) => Stage::Failed { error },
                };
            },
            (_, _) => {},
        }
    }
}

/// Whether a working tree has uncommitted or untracked changes, read off
/// the short-format status query: a failed query counts as no changes (the
/// gate then only skips the commit step), and a successful one counts as
/// changed exactly when its output is non-empty.
pub fn has_changes_from_status(status_output: &Option<Vec<u8>>) -> (b: bool)
    ensures
        b == (status_output matches Some(out) && out@.len() > 0),
{
    match status_output {
        None => false,
        Some(out) => out.len() > 0,
    }
}

/// A prompt answer is affirmative when, with surrounding whitespace
/// dropped, it reads "y" or "yes" in any casing. Anything else declines.
pub open spec fn affirmative_answer(s: Seq<char>) -> bool {
    let t = trimmed(s);
    (t.len() == 1 && (t[0] == 'y' || t[0] == 'Y')) || (t.len() == 3 && (t[0] == 'y' || t[0] == 'Y')
        && (t[1] == 'e' || t[1] == 'E') && (t[2] == 's' || t[2] == 'S'))
}

/// Whether a raw prompt answer, whitespace and casing disregarded, counts
/// as affirmative: exactly "y" or "yes". Anything else declines.
pub fn is_affirmative(answer: &str) -> (b: bool)
    ensures
        b == affirmative_answer(answer@),
{
    let i = first_non_space(answer);
    let j = last_non_space_from(answer, i);
    proof {
        lemma_trim_front_skip(answer@, i as int);
        lemma_trim_back_take(answer@.skip(i as int), j as int - i as int);
        assert(answer@.skip(i as int).take(j as int - i as int) =~= answer@.subrange(
            i as int,
            j as int,
        ));
    }
    let len: usize = j - i;
    if len == 1 {
        let c0 = answer.get_char(i);
        c0 == 'y' || c0 == 'Y'
    } else if len == 3 {
        let c0 = answer.get_char(i);
        let c1 = answer.get_char(i + 1);
        let c2 = answer.get_char(i + 2);
        (c0 == 'y' || c0 == 'Y') && (c1 == 'e' || c1 == 'E') && (c2 == 's' || c2 == 'S')
    } else {
        false
    }
}

/// An ended run stays ended: whatever event still arrives, a run that
/// completed or failed keeps its stage and requests no action. With the
/// abort law below, this is what makes a declined confirmation final.
pub proof fn lemma_terminal_stages_absorb(run: SyncRun, event: Event)
    requires
        run.stage matches Stage::Completed { .. } || run.stage matches Stage::Failed { .. },
    ensures
        next_stage(run.stage, event) == run.stage,
        action_of(run) is None,
{
}

/// Declining the confirmation ends the run at once with `Aborted`, and the
/// ended run requests nothing more. Up to that point the only action a run
/// requests is the prompt itself, so no fetch, checkout, copy or commit is
/// ever attempted and neither tree changes.
pub proof fn lemma_decline_aborts(run: SyncRun)
    requires
        run.stage is Confirming,
    ensures
        action_of(run) == Option::Some(Action::AskConfirm),
        next_stage(run.stage, Event::Answer { yes: false }) == (Stage::Failed {
            error: SyncError::Aborted,
        }),
        action_of(SyncRun { stage: Stage::Failed { error: SyncError::Aborted }, ..run }) is None,
{
}

/// The two directions on the same pair plan the same run with exactly the
/// copy-from and copy-to roles swapped: branches, message and starting
/// stage agree. Since what comes next is a pure function of the stage and
/// the event, the two runs then execute the same sequence of steps, each
/// aimed at the swapped tree.
pub proof fn lemma_direction_swaps_roles(pair: AddConfig, a: SyncConfig, b: SyncConfig)
    requires
        a.name == b.name,
        a.branch == b.branch,
        a.message == b.message,
        a.direction is A2B,
        b.direction is B2A,
    ensures
        planned_run(pair, a).source == planned_run(pair, b).destination,
        planned_run(pair, a).destination == planned_run(pair, b).source,
        planned_run(pair, a).base_branch == planned_run(pair, b).base_branch,
        planned_run(pair, a).target_branch == planned_run(pair, b).target_branch,
        planned_run(pair, a).message == planned_run(pair, b).message,
        planned_run(pair, a).stage == planned_run(pair, b).stage,
{
}

/// Two runs in the same stage move to the same stage on the same event,
/// whatever their paths: together with the role-swap law above, the two
/// directions on one pair execute the identical sequence of steps, each
/// step aimed at the swapped tree.
pub proof fn lemma_swapped_runs_step_alike(x: SyncRun, y: SyncRun, event: Event)
    requires
        x.stage == y.stage,
    ensures
        next_stage(x.stage, event) == next_stage(y.stage, event),
{
}

/// An absent remote identity never aborts the run: whatever either
/// identity resolution reports, the run moves on to the next stage.
pub proof fn lemma_identity_failure_does_not_abort(id: Option<String>)
    ensures
        next_stage(Stage::ResolvingSourceIdentity, Event::Identity { id })
            == Stage::ResolvingDestIdentity,
        next_stage(Stage::ResolvingDestIdentity, Event::Identity { id })
            == Stage::FetchingSource,
{
}

/// When the change gate reports nothing to commit, the run completes at
/// once without the publish stage: the commit publisher is never invoked,
/// and the outcome is a success that pushed nothing.
pub proof fn lemma_no_changes_skips_publish(run: SyncRun)
    requires
        run.stage is CheckingChanges,
    ensures
        next_stage(run.stage, Event::Changes { changed: false }) == (Stage::Completed {
            pushed: false,
        }),
        action_of(SyncRun { stage: Stage::Completed { pushed: false }, ..run }) is None,
{
}

/// The publish stage is entered only through the change gate reporting
/// changes: the commit publisher is invoked exactly when the mirror copy
/// left something to commit.
pub proof fn lemma_publish_only_after_changes(stage: Stage, event: Event)
    requires
        next_stage(stage, event) == Stage::Publishing,
    ensures
        stage == Stage::Publishing || (stage == Stage::CheckingChanges && event == (Event::Changes {
            changed: true,
        })),
{
}

} // verus!

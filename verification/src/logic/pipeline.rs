//! A pipeline: preconditions on the repository, then steps run one after
//! another with `git`. The pipeline decides; whoever runs it performs the
//! actions it asks for (showing a line, running a command) and hands back
//! each command's outcome.
use vstd::prelude::*;
use vstd::string::*;
use crate::git::GitWrapper;
use crate::git::command::{GitCommand, GitCommandView};
use crate::git::errors::{GitError, GitErrorView};
use crate::git::parse::{contains_string, local_branch_names, remote_branch_names};
use crate::logic::errors::{
    execution_failure, failure_view, Failure, FailureView, PipelineError, PipelineErrorView,
};
use crate::shell::ShellOutcome;
use crate::text::views;

verus! {

/// A condition on the repository that must hold before any step runs.
#[derive(Debug, PartialEq, Eq)]
pub enum Precondition {
    /// No local or remote branch has this name.
    RequiresMissingBranch(String),
    /// A local branch has this name.
    RequiresExistingLocalBranch(String),
}

/// One operation of a pipeline.
#[derive(Debug, PartialEq, Eq)]
pub enum Step {
    /// Create this branch from the current one and check it out.
    CreateBranch(String),
    /// Check out this branch, unless it is checked out already.
    Checkout(String),
    /// Commit, allowing an empty commit, with this message.
    Commit(String),
    /// Delete this local branch.
    DeleteBranch(String),
    /// Merge this branch into the current one.
    Merge(String),
    /// Pull the current branch, when the remote has it.
    Pull(),
    /// Push the current branch, setting its upstream when the remote does
    /// not have it yet.
    Push(),
    /// Push the tags.
    PushTags(),
    /// Create this tag.
    Tag(String),
}

/// A `Precondition` with its branch as a character sequence.
pub enum PreconditionView {
    RequiresMissingBranch(Seq<char>),
    RequiresExistingLocalBranch(Seq<char>),
}

/// A `Step` with its texts as character sequences.
pub enum StepView {
    CreateBranch(Seq<char>),
    Checkout(Seq<char>),
    Commit(Seq<char>),
    DeleteBranch(Seq<char>),
    Merge(Seq<char>),
    Pull,
    Push,
    PushTags,
    Tag(Seq<char>),
}

impl View for Precondition {
    type V = PreconditionView;

    open spec fn view(&self) -> PreconditionView {
        match self {
            Precondition::RequiresMissingBranch(b) => PreconditionView::RequiresMissingBranch(b@),
            Precondition::RequiresExistingLocalBranch(b) => PreconditionView::RequiresExistingLocalBranch(
                b@,
            ),
        }
    }
}

impl View for Step {
    type V = StepView;

    open spec fn view(&self) -> StepView {
        match self {
            Step::CreateBranch(b) => StepView::CreateBranch(b@),
            Step::Checkout(b) => StepView::Checkout(b@),
            Step::Commit(m) => StepView::Commit(m@),
            Step::DeleteBranch(b) => StepView::DeleteBranch(b@),
            Step::Merge(b) => StepView::Merge(b@),
            Step::Pull() => StepView::Pull,
            Step::Push() => StepView::Push,
            Step::PushTags() => StepView::PushTags,
            Step::Tag(t) => StepView::Tag(t@),
        }
    }
}

/// The views of a sequence of preconditions.
pub open spec fn precondition_views(v: Seq<Precondition>) -> Seq<PreconditionView> {
    v.map_values(|p: Precondition| p@)
}

/// The views of a sequence of steps.
pub open spec fn step_views(v: Seq<Step>) -> Seq<StepView> {
    v.map_values(|s: Step| s@)
}

/// The branch a precondition is about.
pub open spec fn precondition_branch(p: PreconditionView) -> Seq<char> {
    match p {
        PreconditionView::RequiresMissingBranch(b) => b,
        PreconditionView::RequiresExistingLocalBranch(b) => b,
    }
}

/// The line shown before a step runs its command; none for a pull (it is
/// announced once the remote is known to have the branch) and for a
/// checkout of the branch checked out already (it does nothing).
pub open spec fn step_notice(s: StepView, cur: Seq<char>) -> Option<Seq<char>> {
    match s {
        StepView::CreateBranch(b) => Some("    Creating branch "@ + b),
        StepView::Checkout(b) => if cur != b {
            Some("    Checking out "@ + b + " branch"@)
        } else {
            None
        },
        StepView::Commit(m) => Some("    Creating commit '"@ + m + "'"@),
        StepView::DeleteBranch(b) => Some("    Deleting "@ + b + " branch"@),
        StepView::Merge(b) => Some("    Merging "@ + b + " branch"@),
        StepView::Pull => None,
        StepView::Push => Some("    Push to remote"@),
        StepView::PushTags => Some("    Push tags to remote"@),
        StepView::Tag(t) => Some("    Creating tag "@ + t),
    }
}

/// The command a step runs (a push runs the one its listing chose).
pub open spec fn step_command(s: StepView) -> GitCommandView {
    match s {
        StepView::CreateBranch(b) => GitCommandView::CreateBranch(b),
        StepView::Checkout(b) => GitCommandView::Checkout(b),
        StepView::Commit(m) => GitCommandView::Commit(m),
        StepView::DeleteBranch(b) => GitCommandView::DeleteBranch(b),
        StepView::Merge(b) => GitCommandView::Merge(b),
        StepView::Pull => GitCommandView::Pull,
        StepView::Push => GitCommandView::Push(None),
        StepView::PushTags => GitCommandView::PushTags,
        StepView::Tag(t) => GitCommandView::Tag(t),
    }
}

/// The push of `cur`, with `--set-upstream origin` when `upstream`.
pub open spec fn push_command(cur: Seq<char>, upstream: bool) -> GitCommandView {
    GitCommandView::Push(
        if upstream {
            Some(cur)
        } else {
            None
        },
    )
}

/// What the outcome of a step's command gives: the branch checked out
/// afterwards, or the `git` error.
pub open spec fn step_result(s: StepView, cur: Seq<char>, o: ShellOutcome) -> Result<
    Seq<char>,
    GitErrorView,
> {
    match o {
        Ok(_) => Ok(
            match s {
                StepView::CreateBranch(b) => b,
                StepView::Checkout(b) => b,
                _ => cur,
            },
        ),
        Err(e) => Err(
            match s {
                StepView::CreateBranch(b) => GitErrorView::BranchFailed(b, e),
                StepView::Checkout(b) => GitErrorView::CheckoutFailed(b, e),
                StepView::Commit(_) => GitErrorView::CommitFailed(cur, e),
                StepView::DeleteBranch(b) => GitErrorView::BranchDeletionFailed(b, e),
                StepView::Merge(b) => GitErrorView::MergeFailed(b, e),
                StepView::Pull => GitErrorView::PullFailed(cur, e),
                StepView::Push => GitErrorView::PushFailed(cur, e),
                StepView::PushTags => GitErrorView::PushTagsFailed(e),
                StepView::Tag(t) => GitErrorView::TagFailed(t, e),
            },
        ),
    }
}

/// The branch checked out after `steps` all succeeded, starting on `start`.
pub open spec fn branch_after(steps: Seq<StepView>, start: Seq<char>) -> Seq<char>
    decreases steps.len(),
{
    if steps.len() == 0 {
        start
    } else {
        match steps.last() {
            StepView::CreateBranch(b) => b,
            StepView::Checkout(b) => b,
            _ => branch_after(steps.drop_last(), start),
        }
    }
}

/// Where a pipeline is.
#[derive(Debug, PartialEq, Eq)]
pub enum Phase {
    /// Nothing done yet.
    Begin,
    /// About to check the precondition of this index (past the last one:
    /// about to start the steps).
    Precondition(usize),
    /// The check of this precondition was announced; next it lists the
    /// local branches.
    ListLocal(usize),
    /// Waiting for `git branch`, for this precondition.
    AwaitLocal(usize),
    /// Waiting for `git branch -r`, for this precondition; remembers
    /// whether the local branches have its branch.
    AwaitRemote(usize, bool),
    /// About to run the step of this index (past the last one: done).
    Step(usize),
    /// The step of this index was announced; next it runs its command.
    Issue(usize),
    /// Waiting for `git branch -r`, for the pull or push of this step.
    AwaitListing(usize),
    /// Waiting for the command of this step.
    AwaitStep(usize),
    /// Waiting for the push of this step, which set the upstream or not.
    AwaitPush(usize, bool),
    /// Ended, with this result.
    Finished(Result<(), PipelineError>),
}

/// A `Phase` with its result as a view.
pub enum PhaseView {
    Begin,
    Precondition(int),
    ListLocal(int),
    AwaitLocal(int),
    AwaitRemote(int, bool),
    Step(int),
    Issue(int),
    AwaitListing(int),
    AwaitStep(int),
    AwaitPush(int, bool),
    Finished(Result<(), PipelineErrorView>),
}

impl View for Phase {
    type V = PhaseView;

    open spec fn view(&self) -> PhaseView {
        match self {
            Phase::Begin => PhaseView::Begin,
            Phase::Precondition(i) => PhaseView::Precondition(*i as int),
            Phase::ListLocal(i) => PhaseView::ListLocal(*i as int),
            Phase::AwaitLocal(i) => PhaseView::AwaitLocal(*i as int),
            Phase::AwaitRemote(i, found) => PhaseView::AwaitRemote(*i as int, *found),
            Phase::Step(i) => PhaseView::Step(*i as int),
            Phase::Issue(i) => PhaseView::Issue(*i as int),
            Phase::AwaitListing(i) => PhaseView::AwaitListing(*i as int),
            Phase::AwaitStep(i) => PhaseView::AwaitStep(*i as int),
            Phase::AwaitPush(i, upstream) => PhaseView::AwaitPush(*i as int, *upstream),
            Phase::Finished(r) => PhaseView::Finished(
                match r {
                    Ok(()) => Ok(()),
                    Err(e) => Err(e@),
                },
            ),
        }
    }
}

/// What a pipeline asks its runner to do.
#[derive(Debug, PartialEq, Eq)]
pub enum PipelineAction {
    /// Show this line.
    Notify(String),
    /// Run `git` with this command and hand back its outcome.
    Run(GitCommand),
    /// Nothing to do; ask again.
    Proceed,
    /// The pipeline has ended; `result` tells how.
    Done,
}

/// A `PipelineAction` with its texts as character sequences.
pub enum PipelineActionView {
    Notify(Seq<char>),
    Run(GitCommandView),
    Proceed,
    Done,
}

impl View for PipelineAction {
    type V = PipelineActionView;

    open spec fn view(&self) -> PipelineActionView {
        match self {
            PipelineAction::Notify(m) => PipelineActionView::Notify(m@),
            PipelineAction::Run(c) => PipelineActionView::Run(c@),
            PipelineAction::Proceed => PipelineActionView::Proceed,
            PipelineAction::Done => PipelineActionView::Done,
        }
    }
}

/// Whether the pipeline waits for the outcome of a command in `phase`.
pub open spec fn awaits_outcome(phase: PhaseView) -> bool {
    match phase {
        PhaseView::AwaitLocal(_) | PhaseView::AwaitRemote(_, _) | PhaseView::AwaitListing(_)
        | PhaseView::AwaitStep(_) | PhaseView::AwaitPush(_, _) => true,
        _ => false,
    }
}

/// One move of a pipeline with preconditions `pre` and steps `steps`, from
/// `phase` with `cur` checked out, given `input` (the outcome of the command
/// it waits for, if it waits): the next phase, the branch checked out then,
/// and the action asked for. A pipeline that waits and gets no outcome asks
/// for the same command again; one that has ended stays where it is.
pub open spec fn next(
    pre: Seq<PreconditionView>,
    steps: Seq<StepView>,
    cur: Seq<char>,
    phase: PhaseView,
    input: Option<ShellOutcome>,
) -> (PhaseView, Seq<char>, PipelineActionView) {
    match phase {
        PhaseView::Begin => (
            PhaseView::Precondition(0),
            cur,
            PipelineActionView::Notify("  Starting pipeline"@),
        ),
        PhaseView::Precondition(i) => if i >= pre.len() {
            (PhaseView::Step(0), cur, PipelineActionView::Proceed)
        } else {
            match pre[i] {
                PreconditionView::RequiresMissingBranch(b) => (
                    PhaseView::ListLocal(i),
                    cur,
                    PipelineActionView::Notify("    Checking branch "@ + b),
                ),
                PreconditionView::RequiresExistingLocalBranch(_) => (
                    PhaseView::AwaitLocal(i),
                    cur,
                    PipelineActionView::Run(GitCommandView::ListBranches),
                ),
            }
        },
        PhaseView::ListLocal(i) => (
            PhaseView::AwaitLocal(i),
            cur,
            PipelineActionView::Run(GitCommandView::ListBranches),
        ),
        PhaseView::AwaitLocal(i) => match input {
            None => (phase, cur, PipelineActionView::Run(GitCommandView::ListBranches)),
            Some(Err(e)) => (
                PhaseView::Finished(
                    Err(
                        PipelineErrorView::PreconditionFailed(
                            "Could not get local branches"@,
                            Some(GitErrorView::ListBranchFailed(e)),
                        ),
                    ),
                ),
                cur,
                PipelineActionView::Done,
            ),
            Some(Ok(res)) => {
                let b = precondition_branch(pre[i]);
                let found = local_branch_names(res.stdout@).contains(b);
                match pre[i] {
                    PreconditionView::RequiresMissingBranch(_) => (
                        PhaseView::AwaitRemote(i, found),
                        cur,
                        PipelineActionView::Run(GitCommandView::ListRemoteBranches),
                    ),
                    PreconditionView::RequiresExistingLocalBranch(_) => if found {
                        (PhaseView::Precondition(i + 1), cur, PipelineActionView::Proceed)
                    } else {
                        (
                            PhaseView::Finished(
                                Err(
                                    PipelineErrorView::PreconditionFailed(
                                        "Branch "@ + b + " not found"@,
                                        None,
                                    ),
                                ),
                            ),
                            cur,
                            PipelineActionView::Done,
                        )
                    },
                }
            },
        },
        PhaseView::AwaitRemote(i, found) => match input {
            None => (phase, cur, PipelineActionView::Run(GitCommandView::ListRemoteBranches)),
            Some(Err(e)) => (
                PhaseView::Finished(
                    Err(
                        PipelineErrorView::PreconditionFailed(
                            "Could not get remote branches"@,
                            Some(GitErrorView::ListBranchFailed(e)),
                        ),
                    ),
                ),
                cur,
                PipelineActionView::Done,
            ),
            Some(Ok(res)) => {
                let b = precondition_branch(pre[i]);
                if found || remote_branch_names(res.stdout@).contains(b) {
                    (
                        PhaseView::Finished(
                            Err(
                                PipelineErrorView::PreconditionFailed(
                                    "Branch "@ + b + " already exists"@,
                                    None,
                                ),
                            ),
                        ),
                        cur,
                        PipelineActionView::Done,
                    )
                } else {
                    (PhaseView::Precondition(i + 1), cur, PipelineActionView::Proceed)
                }
            },
        },
        PhaseView::Step(i) => if i >= steps.len() {
            (PhaseView::Finished(Ok(())), cur, PipelineActionView::Done)
        } else if steps[i] is Pull {
            (
                PhaseView::AwaitListing(i),
                cur,
                PipelineActionView::Run(GitCommandView::ListRemoteBranches),
            )
        } else {
            match step_notice(steps[i], cur) {
                Some(n) => (PhaseView::Issue(i), cur, PipelineActionView::Notify(n)),
                None => (PhaseView::Step(i + 1), cur, PipelineActionView::Proceed),
            }
        },
        PhaseView::Issue(i) => if steps[i] is Push {
            (
                PhaseView::AwaitListing(i),
                cur,
                PipelineActionView::Run(GitCommandView::ListRemoteBranches),
            )
        } else {
            (PhaseView::AwaitStep(i), cur, PipelineActionView::Run(step_command(steps[i])))
        },
        PhaseView::AwaitListing(i) => match input {
            None => (phase, cur, PipelineActionView::Run(GitCommandView::ListRemoteBranches)),
            Some(Err(e)) => (
                PhaseView::Finished(Err(execution_failure(GitErrorView::ListBranchFailed(e)))),
                cur,
                PipelineActionView::Done,
            ),
            Some(Ok(res)) => {
                let listed = remote_branch_names(res.stdout@).contains(cur);
                if steps[i] is Push {
                    (
                        PhaseView::AwaitPush(i, !listed),
                        cur,
                        PipelineActionView::Run(push_command(cur, !listed)),
                    )
                } else if listed {
                    (
                        PhaseView::Issue(i),
                        cur,
                        PipelineActionView::Notify("    Pulling from remote"@),
                    )
                } else {
                    (PhaseView::Step(i + 1), cur, PipelineActionView::Proceed)
                }
            },
        },
        PhaseView::AwaitStep(i) => match input {
            None => (phase, cur, PipelineActionView::Run(step_command(steps[i]))),
            Some(o) => match step_result(steps[i], cur, o) {
                Ok(b) => (PhaseView::Step(i + 1), b, PipelineActionView::Proceed),
                Err(g) => (
                    PhaseView::Finished(Err(execution_failure(g))),
                    cur,
                    PipelineActionView::Done,
                ),
            },
        },
        PhaseView::AwaitPush(i, upstream) => match input {
            None => (phase, cur, PipelineActionView::Run(push_command(cur, upstream))),
            Some(o) => match step_result(StepView::Push, cur, o) {
                Ok(b) => (PhaseView::Step(i + 1), b, PipelineActionView::Proceed),
                Err(g) => (
                    PhaseView::Finished(Err(execution_failure(g))),
                    cur,
                    PipelineActionView::Done,
                ),
            },
        },
        PhaseView::Finished(_) => (phase, cur, PipelineActionView::Done),
    }
}

/// Whether the pipeline is still checking its preconditions in `phase`.
pub open spec fn checking(phase: PhaseView) -> bool {
    match phase {
        PhaseView::Begin | PhaseView::Precondition(_) | PhaseView::ListLocal(_)
        | PhaseView::AwaitLocal(_) | PhaseView::AwaitRemote(_, _) => true,
        _ => false,
    }
}

/// The indices held by `phase` point into the preconditions or steps, at
/// an entry of the kind the phase is for.
pub open spec fn indices_fit(pre: Seq<PreconditionView>, steps: Seq<StepView>, phase: PhaseView) -> bool {
    match phase {
        PhaseView::Precondition(i) => 0 <= i <= pre.len(),
        PhaseView::ListLocal(i) => 0 <= i < pre.len() && pre[i] is RequiresMissingBranch,
        PhaseView::AwaitLocal(i) => 0 <= i < pre.len(),
        PhaseView::AwaitRemote(i, _) => 0 <= i < pre.len() && pre[i] is RequiresMissingBranch,
        PhaseView::Step(i) => 0 <= i <= steps.len(),
        PhaseView::Issue(i) => 0 <= i < steps.len(),
        PhaseView::AwaitListing(i) => 0 <= i < steps.len() && (steps[i] is Pull || steps[i] is Push),
        PhaseView::AwaitStep(i) => 0 <= i < steps.len() && !(steps[i] is Push),
        PhaseView::AwaitPush(i, _) => 0 <= i < steps.len() && steps[i] is Push,
        _ => true,
    }
}

/// Every command in `issued` only reads.
pub open spec fn only_reads(issued: Seq<GitCommandView>) -> bool {
    forall|k: int| 0 <= k < issued.len() ==> #[trigger] issued[k].is_read_only()
}

/// Law: while the preconditions are checked, and when one of them failed,
/// no command that changes anything has run.
pub open spec fn checks_before_changes(phase: PhaseView, issued: Seq<GitCommandView>) -> bool {
    (checking(phase) || phase matches PhaseView::Finished(
        Err(PipelineErrorView::PreconditionFailed(_, _)),
    )) ==> only_reads(issued)
}

/// Law: the branch checked out is the one the steps that succeeded lead
/// to, from the branch the pipeline started on.
pub open spec fn on_expected_branch(
    steps: Seq<StepView>,
    start: Seq<char>,
    cur: Seq<char>,
    phase: PhaseView,
) -> bool {
    match phase {
        PhaseView::Step(i) | PhaseView::Issue(i) | PhaseView::AwaitListing(i)
        | PhaseView::AwaitStep(i) | PhaseView::AwaitPush(i, _) => cur == branch_after(
            steps.take(i),
            start,
        ),
        PhaseView::Finished(Ok(())) => cur == branch_after(steps, start),
        PhaseView::Finished(Err(_)) => true,
        _ => cur == start,
    }
}

/// How many moves are left at most: every move that does not wait in vain
/// lowers it, so every run ends.
pub open spec fn work_left(pre: Seq<PreconditionView>, steps: Seq<StepView>, phase: PhaseView) -> int {
    let t = 5 * steps.len() + 1;
    let p = pre.len() as int;
    let s = steps.len() as int;
    match phase {
        PhaseView::Begin => t + 4 * p + 2,
        PhaseView::Precondition(i) => t + 4 * (p - i) + 1,
        PhaseView::ListLocal(i) => t + 4 * (p - i),
        PhaseView::AwaitLocal(i) => t + 4 * (p - i) - 1,
        PhaseView::AwaitRemote(i, _) => t + 4 * (p - i) - 2,
        PhaseView::Step(j) => 5 * (s - j) + 1,
        PhaseView::Issue(j) => if steps[j] is Pull {
            5 * (s - j) - 1
        } else {
            5 * (s - j)
        },
        PhaseView::AwaitListing(j) => if steps[j] is Pull {
            5 * (s - j)
        } else {
            5 * (s - j) - 1
        },
        PhaseView::AwaitStep(j) => 5 * (s - j) - 2,
        PhaseView::AwaitPush(j, _) => 5 * (s - j) - 2,
        PhaseView::Finished(_) => 0,
    }
}


/// The branch a precondition is about.
fn branch_of(p: &Precondition) -> (b: &String)
    ensures
        b@ == precondition_branch(p@),
{
    match p {
        Precondition::RequiresMissingBranch(b) => b,
        Precondition::RequiresExistingLocalBranch(b) => b,
    }
}

/// The line shown before `step` runs, with `cur` checked out.
fn notice_for(step: &Step, cur: &String) -> (n: Option<String>)
    ensures
        match n {
            Some(m) => step_notice(step@, cur@) == Some(m@),
            None => step_notice(step@, cur@) is None,
        },
{
    match step {
        Step::CreateBranch(b) => {
            let mut m = String::from_str("    Creating branch ");
            m.append(b.as_str());
            Some(m)
        },
        Step::Checkout(b) => {
            if !(*cur == *b) {
                let mut m = String::from_str("    Checking out ");
                m.append(b.as_str());
                m.append(" branch");
                Some(m)
            } else {
                None
            }
        },
        Step::Commit(msg) => {
            let mut m = String::from_str("    Creating commit '");
            m.append(msg.as_str());
            m.append("'");
            Some(m)
        },
        Step::DeleteBranch(b) => {
            let mut m = String::from_str("    Deleting ");
            m.append(b.as_str());
            m.append(" branch");
            Some(m)
        },
        Step::Merge(b) => {
            let mut m = String::from_str("    Merging ");
            m.append(b.as_str());
            m.append(" branch");
            Some(m)
        },
        Step::Pull() => None,
        Step::Push() => Some(String::from_str("    Push to remote")),
        Step::PushTags() => Some(String::from_str("    Push tags to remote")),
        Step::Tag(t) => {
            let mut m = String::from_str("    Creating tag ");
            m.append(t.as_str());
            Some(m)
        },
    }
}

/// The command `step` runs.
fn command_for(step: &Step) -> (c: GitCommand)
    ensures
        c@ == step_command(step@),
{
    match step {
        Step::CreateBranch(b) => GitCommand::CreateBranch(b.clone()),
        Step::Checkout(b) => GitCommand::Checkout(b.clone()),
        Step::Commit(m) => GitCommand::Commit(m.clone()),
        Step::DeleteBranch(b) => GitCommand::DeleteBranch(b.clone()),
        Step::Merge(b) => GitCommand::Merge(b.clone()),
        Step::Pull() => GitCommand::Pull,
        Step::Push() => GitCommand::Push(None),
        Step::PushTags() => GitCommand::PushTags,
        Step::Tag(t) => GitCommand::Tag(t.clone()),
    }
}

/// What the repository makes of the outcome of `step`'s command.
fn apply_step(git: &mut GitWrapper, step: &Step, outcome: ShellOutcome) -> (r: Result<(), GitError>)
    ensures
        final(git).main_name() == old(git).main_name(),
        match step_result(step@, old(git).current(), outcome) {
            Ok(b) => r is Ok && final(git).current() == b,
            Err(g) => r matches Err(e) && e@ == g && final(git).current() == old(git).current(),
        },
{
    match step {
        Step::CreateBranch(b) => git.create_branch(b.as_str(), outcome),
        Step::Checkout(b) => git.checkout(b.as_str(), outcome),
        Step::Commit(_) => git.commit(outcome),
        Step::DeleteBranch(b) => git.delete_branch(b.as_str(), outcome),
        Step::Merge(b) => git.merge(b.as_str(), outcome),
        Step::Pull() => git.pull(outcome),
        Step::Push() => git.push(outcome),
        Step::PushTags() => git.push_tags(outcome),
        Step::Tag(t) => git.tag(t.as_str(), outcome),
    }
}

/// The error a pipeline ends with when a step failed with `g`.
fn execution_error(g: GitError) -> (e: PipelineError)
    ensures
        e@ == execution_failure(g@),
{
    let inner = PipelineError::ExecutionFailed(Box::new(Failure::Git(g)));
    let ghost inner_view = PipelineErrorView::ExecutionFailed(Box::new(FailureView::Git(g@)));
    assert(failure_view(Failure::Git(g)) == FailureView::Git(g@));
    assert(inner@ == inner_view);
    assert(failure_view(Failure::Pipeline(inner)) == FailureView::Pipeline(inner_view));
    PipelineError::ExecutionFailed(Box::new(Failure::Pipeline(inner)))
}

/// The steps up to and including `i` end on the branch the step `i` leads
/// to from where the steps before it ended.
proof fn lemma_branch_after_next(steps: Seq<StepView>, start: Seq<char>, i: int)
    requires
        0 <= i < steps.len(),
    ensures
        branch_after(steps.take(i + 1), start) == match steps[i] {
            StepView::CreateBranch(b) => b,
            StepView::Checkout(b) => b,
            _ => branch_after(steps.take(i), start),
        },
{
    assert(steps.take(i + 1).drop_last() == steps.take(i));
    assert(steps.take(i + 1).last() == steps[i]);
}

/// A pipeline being run: its preconditions and steps, the repository it
/// works on, and where it is. For its laws it also remembers the branch it
/// started on and the commands it has asked for.
pub struct LogicPipeline {
    preconditions: Vec<Precondition>,
    steps: Vec<Step>,
    git: GitWrapper,
    phase: Phase,
    start: Ghost<Seq<char>>,
    issued: Ghost<Seq<GitCommandView>>,
}

impl LogicPipeline {
    pub closed spec fn pre(&self) -> Seq<PreconditionView> {
        precondition_views(self.preconditions@)
    }

    pub closed spec fn plan(&self) -> Seq<StepView> {
        step_views(self.steps@)
    }

    pub closed spec fn repo(&self) -> GitWrapper {
        self.git
    }

    pub closed spec fn phase(&self) -> PhaseView {
        self.phase@
    }

    /// The branch checked out when the pipeline was made.
    pub closed spec fn start(&self) -> Seq<char> {
        self.start@
    }

    /// The commands asked for so far, in order.
    pub closed spec fn issued(&self) -> Seq<GitCommandView> {
        self.issued@
    }

    /// The pipeline is in a state its moves can reach, and its laws hold.
    pub open spec fn wf(&self) -> bool {
        &&& indices_fit(self.pre(), self.plan(), self.phase())
        &&& checks_before_changes(self.phase(), self.issued())
        &&& on_expected_branch(self.plan(), self.start(), self.repo().current(), self.phase())
    }

    /// One call of `execute_pipeline` took the pipeline from `before` to
    /// `after`, given `input`, asking for `a`.
    pub open spec fn advanced(
        before: LogicPipeline,
        after: LogicPipeline,
        input: Option<ShellOutcome>,
        a: PipelineActionView,
    ) -> bool {
        &&& after.wf()
        &&& after.pre() == before.pre()
        &&& after.plan() == before.plan()
        &&& after.start() == before.start()
        &&& after.repo().main_name() == before.repo().main_name()
        &&& (after.phase(), after.repo().current(), a) == next(
            before.pre(),
            before.plan(),
            before.repo().current(),
            before.phase(),
            input,
        )
        &&& after.issued() == match a {
            PipelineActionView::Run(c) => before.issued().push(c),
            _ => before.issued(),
        }
        &&& (!(before.phase() is Finished) && (input is Some || !awaits_outcome(before.phase())))
            ==> work_left(after.pre(), after.plan(), after.phase()) < work_left(
            before.pre(),
            before.plan(),
            before.phase(),
        )
    }

    /// A pipeline that has not started, on the repository `git`.
    pub fn new(preconditions: Vec<Precondition>, steps: Vec<Step>, git: GitWrapper) -> (p:
        LogicPipeline)
        ensures
            p.wf(),
            p.pre() == precondition_views(preconditions@),
            p.plan() == step_views(steps@),
            p.repo() == git,
            p.phase() == PhaseView::Begin,
            p.start() == git.current(),
            p.issued() == Seq::<GitCommandView>::empty(),
    {
        let ghost start = git.current();
        LogicPipeline {
            preconditions,
            steps,
            git,
            phase: Phase::Begin,
            start: Ghost(start),
            issued: Ghost(Seq::empty()),
        }
    }

    /// The repository the pipeline works on.
    pub fn git(&self) -> (g: &GitWrapper)
        ensures
            *g == self.repo(),
    {
        &self.git
    }

    /// Asks for `cmd` to be run, and remembers that it was.
    fn ask(&mut self, cmd: GitCommand) -> (a: PipelineAction)
        ensures
            a@ == PipelineActionView::Run(cmd@),
            final(self).issued() == old(self).issued().push(cmd@),
            final(self).preconditions == old(self).preconditions,
            final(self).steps == old(self).steps,
            final(self).git == old(self).git,
            final(self).phase == old(self).phase,
            final(self).start == old(self).start,
    {
        proof {
            self.issued@ = self.issued@.push(cmd@);
        }
        PipelineAction::Run(cmd)
    }

    fn start_precondition(&mut self, i: usize, input: Option<ShellOutcome>) -> (a: PipelineAction)
        requires
            old(self).wf(),
            old(self).phase() == PhaseView::Precondition(i as int),
        ensures
            Self::advanced(*old(self), *final(self), input, a@),
    {
        if i >= self.preconditions.len() {
            self.phase = Phase::Step(0);
            assert(self.plan().take(0) == Seq::<StepView>::empty());
            return PipelineAction::Proceed;
        }
        let notice = match &self.preconditions[i] {
            Precondition::RequiresMissingBranch(b) => {
                let mut m = String::from_str("    Checking branch ");
                m.append(b.as_str());
                Some(m)
            },
            Precondition::RequiresExistingLocalBranch(_) => None,
        };
        assert(self.pre()[i as int] == self.preconditions@[i as int]@);
        match notice {
            Some(m) => {
                self.phase = Phase::ListLocal(i);
                PipelineAction::Notify(m)
            },
            None => {
                self.phase = Phase::AwaitLocal(i);
                self.ask(GitCommand::ListBranches)
            },
        }
    }

    fn after_local_listing(&mut self, i: usize, input: Option<ShellOutcome>) -> (a: PipelineAction)
        requires
            old(self).wf(),
            old(self).phase() == PhaseView::AwaitLocal(i as int),
        ensures
            Self::advanced(*old(self), *final(self), input, a@),
    {
        assert(self.pre().len() == self.preconditions@.len());
        let count = self.preconditions.len();
        assert(i < count);
        match input {
            None => self.ask(GitCommand::ListBranches),
            Some(outcome) => match self.git.get_branches(outcome) {
                Err(g) => {
                    self.phase = Phase::Finished(
                        Err(
                            PipelineError::PreconditionFailed(
                                String::from_str("Could not get local branches"),
                                Some(g),
                            ),
                        ),
                    );
                    PipelineAction::Done
                },
                Ok(local) => {
                    assert(self.pre()[i as int] == self.preconditions@[i as int]@);
                    let found = contains_string(local.as_slice(), branch_of(&self.preconditions[i]));
                    let missing = match &self.preconditions[i] {
                        Precondition::RequiresMissingBranch(_) => true,
                        Precondition::RequiresExistingLocalBranch(_) => false,
                    };
                    if missing {
                        self.phase = Phase::AwaitRemote(i, found);
                        self.ask(GitCommand::ListRemoteBranches)
                    } else if found {
                        self.phase = Phase::Precondition(i + 1);
                        PipelineAction::Proceed
                    } else {
                        let mut m = String::from_str("Branch ");
                        m.append(branch_of(&self.preconditions[i]).as_str());
                        m.append(" not found");
                        self.phase = Phase::Finished(
                            Err(PipelineError::PreconditionFailed(m, None)),
                        );
                        PipelineAction::Done
                    }
                },
            },
        }
    }

    fn after_remote_listing(&mut self, i: usize, found: bool, input: Option<ShellOutcome>) -> (a:
        PipelineAction)
        requires
            old(self).wf(),
            old(self).phase() == PhaseView::AwaitRemote(i as int, found),
        ensures
            Self::advanced(*old(self), *final(self), input, a@),
    {
        assert(self.pre().len() == self.preconditions@.len());
        let count = self.preconditions.len();
        assert(i < count);
        match input {
            None => self.ask(GitCommand::ListRemoteBranches),
            Some(outcome) => match self.git.get_remote_branches(outcome) {
                Err(g) => {
                    self.phase = Phase::Finished(
                        Err(
                            PipelineError::PreconditionFailed(
                                String::from_str("Could not get remote branches"),
                                Some(g),
                            ),
                        ),
                    );
                    PipelineAction::Done
                },
                Ok(remotes) => {
                    assert(self.pre()[i as int] == self.preconditions@[i as int]@);
                    let branch = branch_of(&self.preconditions[i]);
                    if found || contains_string(remotes.as_slice(), branch) {
                        let mut m = String::from_str("Branch ");
                        m.append(branch.as_str());
                        m.append(" already exists");
                        self.phase = Phase::Finished(
                            Err(PipelineError::PreconditionFailed(m, None)),
                        );
                        PipelineAction::Done
                    } else {
                        self.phase = Phase::Precondition(i + 1);
                        PipelineAction::Proceed
                    }
                },
            },
        }
    }

    fn start_step(&mut self, i: usize, input: Option<ShellOutcome>) -> (a: PipelineAction)
        requires
            old(self).wf(),
            old(self).phase() == PhaseView::Step(i as int),
        ensures
            Self::advanced(*old(self), *final(self), input, a@),
    {
        assert(self.plan().len() == self.steps@.len());
        let count = self.steps.len();
        if i >= self.steps.len() {
            self.phase = Phase::Finished(Ok(()));
            assert(self.plan().take(i as int) == self.plan());
            return PipelineAction::Done;
        }
        assert(self.plan()[i as int] == self.steps@[i as int]@);
        let is_pull = match &self.steps[i] {
            Step::Pull() => true,
            _ => false,
        };
        if is_pull {
            self.phase = Phase::AwaitListing(i);
            return self.ask(GitCommand::ListRemoteBranches);
        }
        let notice = notice_for(&self.steps[i], self.git.get_branch());
        match notice {
            Some(n) => {
                self.phase = Phase::Issue(i);
                PipelineAction::Notify(n)
            },
            None => {
                proof {
                    lemma_branch_after_next(self.plan(), self.start(), i as int);
                }
                self.phase = Phase::Step(i + 1);
                PipelineAction::Proceed
            },
        }
    }

    fn issue_step(&mut self, i: usize, input: Option<ShellOutcome>) -> (a: PipelineAction)
        requires
            old(self).wf(),
            old(self).phase() == PhaseView::Issue(i as int),
        ensures
            Self::advanced(*old(self), *final(self), input, a@),
    {
        assert(self.plan().len() == self.steps@.len());
        let count = self.steps.len();
        assert(self.plan()[i as int] == self.steps@[i as int]@);
        let is_push = match &self.steps[i] {
            Step::Push() => true,
            _ => false,
        };
        if is_push {
            self.phase = Phase::AwaitListing(i);
            self.ask(GitCommand::ListRemoteBranches)
        } else {
            let cmd = command_for(&self.steps[i]);
            self.phase = Phase::AwaitStep(i);
            self.ask(cmd)
        }
    }

    fn after_step_listing(&mut self, i: usize, input: Option<ShellOutcome>) -> (a: PipelineAction)
        requires
            old(self).wf(),
            old(self).phase() == PhaseView::AwaitListing(i as int),
        ensures
            Self::advanced(*old(self), *final(self), input, a@),
    {
        assert(self.plan().len() == self.steps@.len());
        let count = self.steps.len();
        assert(self.plan()[i as int] == self.steps@[i as int]@);
        let is_push = match &self.steps[i] {
            Step::Push() => true,
            _ => false,
        };
        match input {
            None => self.ask(GitCommand::ListRemoteBranches),
            Some(outcome) => {
                if is_push {
                    match self.git.push_command(outcome) {
                        Err(g) => {
                            self.phase = Phase::Finished(Err(execution_error(g)));
                            PipelineAction::Done
                        },
                        Ok(cmd) => {
                            let upstream = match &cmd {
                                GitCommand::Push(Some(_)) => true,
                                _ => false,
                            };
                            self.phase = Phase::AwaitPush(i, upstream);
                            self.ask(cmd)
                        },
                    }
                } else {
                    match self.git.get_remote_branches(outcome) {
                        Err(g) => {
                            self.phase = Phase::Finished(Err(execution_error(g)));
                            PipelineAction::Done
                        },
                        Ok(remotes) => {
                            if contains_string(remotes.as_slice(), self.git.get_branch()) {
                                self.phase = Phase::Issue(i);
                                PipelineAction::Notify(String::from_str("    Pulling from remote"))
                            } else {
                                proof {
                                    lemma_branch_after_next(self.plan(), self.start(), i as int);
                                }
                                self.phase = Phase::Step(i + 1);
                                PipelineAction::Proceed
                            }
                        },
                    }
                }
            },
        }
    }

    fn after_step(&mut self, i: usize, input: Option<ShellOutcome>) -> (a: PipelineAction)
        requires
            old(self).wf(),
            old(self).phase() == PhaseView::AwaitStep(i as int),
        ensures
            Self::advanced(*old(self), *final(self), input, a@),
    {
        assert(self.plan().len() == self.steps@.len());
        let count = self.steps.len();
        assert(self.plan()[i as int] == self.steps@[i as int]@);
        match input {
            None => {
                let cmd = command_for(&self.steps[i]);
                self.ask(cmd)
            },
            Some(outcome) => {
                proof {
                    lemma_branch_after_next(self.plan(), self.start(), i as int);
                }
                match apply_step(&mut self.git, &self.steps[i], outcome) {
                    Ok(()) => {
                        self.phase = Phase::Step(i + 1);
                        PipelineAction::Proceed
                    },
                    Err(g) => {
                        self.phase = Phase::Finished(Err(execution_error(g)));
                        PipelineAction::Done
                    },
                }
            },
        }
    }

    fn after_push(&mut self, i: usize, upstream: bool, input: Option<ShellOutcome>) -> (a:
        PipelineAction)
        requires
            old(self).wf(),
            old(self).phase() == PhaseView::AwaitPush(i as int, upstream),
        ensures
            Self::advanced(*old(self), *final(self), input, a@),
    {
        assert(self.plan().len() == self.steps@.len());
        let count = self.steps.len();
        match input {
            None => {
                let cmd = if upstream {
                    GitCommand::Push(Some(self.git.get_branch().clone()))
                } else {
                    GitCommand::Push(None)
                };
                self.ask(cmd)
            },
            Some(outcome) => {
                proof {
                    lemma_branch_after_next(self.plan(), self.start(), i as int);
                }
                match self.git.push(outcome) {
                    Ok(()) => {
                        self.phase = Phase::Step(i + 1);
                        PipelineAction::Proceed
                    },
                    Err(g) => {
                        self.phase = Phase::Finished(Err(execution_error(g)));
                        PipelineAction::Done
                    },
                }
            },
        }
    }

    /// Moves the pipeline on by one action. `input` is the outcome of the
    /// command it last asked for, when it waits for one; otherwise it is
    /// ignored. The move is the one `next` describes; the laws of `wf` hold
    /// after it, and every move that does not wait in vain brings the end
    /// nearer.
    pub fn execute_pipeline(&mut self, input: Option<ShellOutcome>) -> (a: PipelineAction)
        requires
            old(self).wf(),
        ensures
            Self::advanced(*old(self), *final(self), input, a@),
            a@ == PipelineActionView::Done <==> final(self).phase() is Finished,
            final(self).phase() matches PhaseView::Finished(Ok(())) ==> final(self).repo().current()
                == branch_after(final(self).plan(), final(self).start()),
            final(self).phase() matches PhaseView::Finished(
                Err(PipelineErrorView::PreconditionFailed(_, _)),
            ) ==> only_reads(final(self).issued()),
    {
        match self.phase {
            Phase::Begin => {
                self.phase = Phase::Precondition(0);
                PipelineAction::Notify(String::from_str("  Starting pipeline"))
            },
            Phase::Precondition(i) => self.start_precondition(i, input),
            Phase::ListLocal(i) => {
                self.phase = Phase::AwaitLocal(i);
                self.ask(GitCommand::ListBranches)
            },
            Phase::AwaitLocal(i) => self.after_local_listing(i, input),
            Phase::AwaitRemote(i, found) => self.after_remote_listing(i, found, input),
            Phase::Step(i) => self.start_step(i, input),
            Phase::Issue(i) => self.issue_step(i, input),
            Phase::AwaitListing(i) => self.after_step_listing(i, input),
            Phase::AwaitStep(i) => self.after_step(i, input),
            Phase::AwaitPush(i, upstream) => self.after_push(i, upstream, input),
            Phase::Finished(_) => PipelineAction::Done,
        }
    }

    /// How the pipeline ended; none while it runs.
    pub fn result(&self) -> (r: Option<&Result<(), PipelineError>>)
        ensures
            match r {
                Some(res) => self.phase() == PhaseView::Finished(
                    match res {
                        Ok(()) => Ok(()),
                        Err(e) => Err(e@),
                    },
                ),
                None => !(self.phase() is Finished),
            },
    {
        match &self.phase {
            Phase::Finished(res) => Some(res),
            _ => None,
        }
    }
}

/// A pipeline being put together: its preconditions and steps, in the order
/// they were added.
pub struct Pipeline {
    preconditions: Vec<Precondition>,
    steps: Vec<Step>,
}

impl Pipeline {
    pub closed spec fn pre(&self) -> Seq<PreconditionView> {
        precondition_views(self.preconditions@)
    }

    pub closed spec fn plan(&self) -> Seq<StepView> {
        step_views(self.steps@)
    }

    /// A pipeline with no preconditions and no steps.
    pub fn new() -> (p: Pipeline)
        ensures
            p.pre() == Seq::<PreconditionView>::empty(),
            p.plan() == Seq::<StepView>::empty(),
    {
        Pipeline { preconditions: Vec::new(), steps: Vec::new() }
    }

    /// Adds `step` after the steps added so far.
    pub fn step(&mut self, step: Step) -> (r: &mut Pipeline)
        ensures
            r.pre() == old(self).pre(),
            r.plan() == old(self).plan().push(step@),
            *final(self) == *final(r),
    {
        let ghost before = self.plan();
        self.steps.push(step);
        assert(self.plan() =~= before.push(step@));
        self
    }

    /// Adds `precondition` after the preconditions added so far.
    pub fn require(&mut self, precondition: Precondition) -> (r: &mut Pipeline)
        ensures
            r.pre() == old(self).pre().push(precondition@),
            r.plan() == old(self).plan(),
            *final(self) == *final(r),
    {
        let ghost before = self.pre();
        self.preconditions.push(precondition);
        assert(self.pre() =~= before.push(precondition@));
        self
    }

    /// The run of this pipeline on the repository `git`, not started yet.
    pub fn run(self, git: GitWrapper) -> (p: LogicPipeline)
        ensures
            p.wf(),
            p.pre() == self.pre(),
            p.plan() == self.plan(),
            p.repo() == git,
            p.phase() == PhaseView::Begin,
            p.start() == git.current(),
            p.issued() == Seq::<GitCommandView>::empty(),
    {
        LogicPipeline::new(self.preconditions, self.steps, git)
    }
}

} // verus!

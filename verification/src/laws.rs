//! The laws of the library: what holds of every run of a pipeline, of every
//! git-flow operation, and of the way branch listings are read back.
use vstd::prelude::*;
use crate::git::parse::{cleaned_entry, local_branch_names, kind_name, kind_names_in, remote_branch_name, remote_branch_names, remote_kind_name, remote_kind_names_in};
use crate::logic::errors::{execution_failure, PipelineErrorView};
use crate::git::command::GitCommandView;
use crate::git::errors::GitErrorView;
use crate::logic::flow::{
    merges_into, pushed_before_leaving,
    branch_for, develop_finish_steps, hotfix_finish_steps, is_flow_name, is_name_char,
    release_finish_steps, start_steps,
};
use crate::logic::pipeline::{
    branch_after, next, only_reads, LogicPipeline, PhaseView, PipelineActionView,
    PreconditionView, StepView,
};
use crate::others::exit_code::ExitCode;
use crate::shell::{ShellError, ShellOutcome, ShellResult};
use crate::ui::widgets::{next_choice, previous_choice};
use crate::text::{
    is_white_space, lemma_lines_nonempty, lemma_lines_single, lemma_replace_absent,
    lemma_replace_kept, lemma_replace_leading, lemma_replace_no_match, lemma_split_once_at, lemma_split_once_none, lemma_trim_clean,
    lemma_trim_start_white, lines, replace, trim_start, trim_start_char,
};

verus! {

/// Once a pipeline has ended it stays ended, keeps the repository as it is
/// and asks for nothing more, whatever it is given.
pub proof fn law_ended_pipeline_stays(
    pre: Seq<PreconditionView>,
    steps: Seq<StepView>,
    cur: Seq<char>,
    result: Result<(), PipelineErrorView>,
    input: Option<ShellOutcome>,
)
    ensures
        next(pre, steps, cur, PhaseView::Finished(result), input) == (
            PhaseView::Finished(result),
            cur,
            PipelineActionView::Done,
        ),
{
}

/// A pipeline that succeeded has the branch checked out that its steps lead
/// to from the branch it started on.
pub proof fn law_success_ends_on_planned_branch(p: LogicPipeline)
    requires
        p.wf(),
        p.phase() == PhaseView::Finished(Ok(())),
    ensures
        p.repo().current() == branch_after(p.plan(), p.start()),
{
}

/// A pipeline stopped by a precondition has changed nothing: each command
/// it asked for only reads.
pub proof fn law_failed_check_changes_nothing(p: LogicPipeline)
    requires
        p.wf(),
        p.phase() matches PhaseView::Finished(Err(PipelineErrorView::PreconditionFailed(_, _))),
    ensures
        only_reads(p.issued()),
{
}

/// Starting a branch leaves it checked out.
pub proof fn law_start_ends_on_new_branch(base: Seq<char>, branch: Seq<char>, start: Seq<char>)
    ensures
        branch_after(start_steps(base, branch), start) == branch,
{
    let s = start_steps(base, branch);
    assert(s.last() == StepView::CreateBranch(branch));
}

/// Finishing a feature, bugfix, hotfix or release leaves `develop` checked
/// out.
pub proof fn law_finish_ends_on_develop(
    branch: Seq<char>,
    message: Seq<char>,
    name: Seq<char>,
    main: Seq<char>,
    start: Seq<char>,
)
    ensures
        branch_after(develop_finish_steps(branch, message), start) == "develop"@,
        branch_after(hotfix_finish_steps(name, main), start) == "develop"@,
        branch_after(release_finish_steps(name, main), start) == "develop"@,
{
    reveal_with_fuel(branch_after, 10);
    let d = develop_finish_steps(branch, message);
    assert(d == seq![
        StepView::Checkout(branch),
        StepView::Pull,
        StepView::Push,
        StepView::Checkout("develop"@),
        StepView::Pull,
        StepView::Merge(branch),
        StepView::Commit(message),
        StepView::Push,
        StepView::DeleteBranch(branch),
    ]);
    let h = hotfix_finish_steps(name, main);
    assert(h == seq![
        StepView::Checkout(branch_for("hotfix"@, name)),
        StepView::Pull,
        StepView::Push,
        StepView::Checkout(main),
        StepView::Pull,
        StepView::Merge(branch_for("hotfix"@, name)),
        StepView::Commit("Merge after "@ + name + " hotfix merge"@),
        StepView::Push,
        StepView::Checkout("develop"@),
        StepView::Pull,
        StepView::Merge(main),
        StepView::Push,
        StepView::DeleteBranch(branch_for("hotfix"@, name)),
    ]);
    let r = release_finish_steps(name, main);
    assert(r == seq![
        StepView::Checkout(branch_for("release"@, name)),
        StepView::Pull,
        StepView::Push,
        StepView::Checkout(main),
        StepView::Pull,
        StepView::Merge(branch_for("release"@, name)),
        StepView::Tag(name),
        StepView::Push,
        StepView::PushTags,
        StepView::Checkout("develop"@),
        StepView::Merge(main),
        StepView::Push,
        StepView::DeleteBranch(branch_for("release"@, name)),
    ]);
}

/// Whether `steps` end by deleting `branch`, after merging it and without
/// deleting it before.
pub open spec fn merges_before_deleting(steps: Seq<StepView>, branch: Seq<char>) -> bool {
    &&& steps.len() > 0
    &&& steps.last() == StepView::DeleteBranch(branch)
    &&& exists|i: int| 0 <= i < steps.len() - 1 && steps[i] == StepView::Merge(branch)
    &&& forall|j: int| 0 <= j < steps.len() - 1 ==> steps[j] != StepView::DeleteBranch(branch)
}

/// Every finish merges its branch before it deletes it, and deletes it
/// only at the end.
pub proof fn law_finish_merges_before_deleting(
    branch: Seq<char>,
    message: Seq<char>,
    name: Seq<char>,
    main: Seq<char>,
)
    ensures
        merges_before_deleting(develop_finish_steps(branch, message), branch),
        merges_before_deleting(hotfix_finish_steps(name, main), branch_for("hotfix"@, name)),
        merges_before_deleting(release_finish_steps(name, main), branch_for("release"@, name)),
{
    let d = develop_finish_steps(branch, message);
    assert(d[5] == StepView::Merge(branch));
    let h = hotfix_finish_steps(name, main);
    assert(h[5] == StepView::Merge(branch_for("hotfix"@, name)));
    let r = release_finish_steps(name, main);
    assert(r[5] == StepView::Merge(branch_for("release"@, name)));
}

/// A run of a start that succeeded is on the new branch; a run of a finish
/// that succeeded is on `develop`.
pub proof fn law_flow_runs_end_where_planned(p: LogicPipeline, base: Seq<char>, branch: Seq<char>)
    requires
        p.wf(),
        p.phase() == PhaseView::Finished(Ok(())),
    ensures
        p.plan() == start_steps(base, branch) ==> p.repo().current() == branch,
        (exists|message: Seq<char>| p.plan() == develop_finish_steps(branch, message))
            ==> p.repo().current() == "develop"@,
        (exists|name: Seq<char>, main: Seq<char>|
            p.plan() == hotfix_finish_steps(name, main) || p.plan() == release_finish_steps(
                name,
                main,
            )) ==> p.repo().current() == "develop"@,
{
    law_start_ends_on_new_branch(base, branch, p.start());
    if exists|message: Seq<char>| p.plan() == develop_finish_steps(branch, message) {
        let message = choose|message: Seq<char>| p.plan() == develop_finish_steps(branch, message);
        law_finish_ends_on_develop(branch, message, Seq::empty(), Seq::empty(), p.start());
    }
    if exists|name: Seq<char>, main: Seq<char>|
        p.plan() == hotfix_finish_steps(name, main) || p.plan() == release_finish_steps(
            name,
            main,
        ) {
        let (name, main) = choose|name: Seq<char>, main: Seq<char>|
            p.plan() == hotfix_finish_steps(name, main) || p.plan() == release_finish_steps(
                name,
                main,
            );
        law_finish_ends_on_develop(Seq::empty(), Seq::empty(), name, main, p.start());
    }
}

/// `git status --porcelain` reports changes exactly when it prints
/// something: its output has lines exactly when it is not empty.
pub proof fn law_changes_iff_output(stdout: Seq<char>)
    ensures
        (lines(stdout).len() > 0) == (stdout.len() > 0),
{
    lemma_lines_nonempty(stdout);
}

proof fn lemma_name_char_plain(c: char)
    requires
        is_name_char(c),
    ensures
        !is_white_space(c),
        c != '*',
        c != '/',
        c != '\n',
{
}

/// A branch started by a git-flow operation is read back from its line in
/// `git branch` (marked `* ` when checked out, indented by two spaces
/// otherwise) as itself, and the branches of its kind then hold its name.
pub proof fn law_started_branch_is_listed(kind: Seq<char>, name: Seq<char>, checked_out: bool)
    requires
        is_flow_name(kind),
        is_flow_name(name),
    ensures
        ({
            let line = (if checked_out {
                seq!['*', ' ']
            } else {
                seq![' ', ' ']
            }) + branch_for(kind, name);
            &&& local_branch_names(line) == seq![branch_for(kind, name)]
            &&& kind_names_in(local_branch_names(line), kind) == seq![name]
        }),
{
    reveal_strlit("* ");
    let b = branch_for(kind, name);
    lemma_flow_branch(kind, name);
    let marker = "* "@;
    assert(marker == seq!['*', ' ']);
    let line = (if checked_out {
        seq!['*', ' ']
    } else {
        seq![' ', ' ']
    }) + b;
    assert forall|i: int| 0 <= i < line.len() implies line[i] != '\n' by {
        if i >= 2 {
            assert(line[i] == b[i - 2]);
        }
    }
    lemma_lines_single(line);
    assert(lines(line).map_values(|l: Seq<char>| crate::git::parse::local_branch_name(l))
        =~= seq![crate::git::parse::local_branch_name(line)]);
    lemma_replace_absent(b, marker, Seq::empty());
    lemma_trim_clean(b);
    if checked_out {
        lemma_replace_leading(marker, Seq::empty(), b);
        assert(Seq::<char>::empty() + b == b);
    } else {
        lemma_replace_kept(' ', seq![' '] + b, marker, Seq::empty());
        lemma_replace_kept(' ', b, marker, Seq::empty());
        assert(line == seq![' '] + (seq![' '] + b));
        let spaced = seq![' '] + (seq![' '] + b);
        assert(replace(line, marker, Seq::empty()) == spaced);
        lemma_trim_start_white(' ', seq![' '] + b);
        lemma_trim_start_white(' ', b);
        assert(trim_start(spaced) == b);
    }
    assert(crate::git::parse::local_branch_name(line) == b);
}

/// The facts about a branch `<kind>/<name>` of flow names that reading it
/// back from a listing rests on.
proof fn lemma_flow_branch(kind: Seq<char>, name: Seq<char>)
    requires
        is_flow_name(kind),
        is_flow_name(name),
    ensures
        ({
            let b = branch_for(kind, name);
            &&& forall|i: int| 0 <= i < b.len() ==> b[i] != '*' && b[i] != '\n' && !is_white_space(#[trigger] b[i])
            &&& forall|i: int| 0 <= i < b.len() && i != kind.len() ==> #[trigger] b[i] != '/'
            &&& b[kind.len() as int] == '/'
            &&& cleaned_entry(b) == b
            &&& kind_name(b, kind) == Some(name)
            &&& kind_names_in(seq![b], kind) == seq![name]
        }),
{
    reveal_strlit("/");
    let b = branch_for(kind, name);
    assert forall|i: int| 0 <= i < b.len() implies b[i] != '*' && b[i] != '\n'
        && !is_white_space(#[trigger] b[i]) && (i != kind.len() ==> b[i] != '/') by {
        if i < kind.len() {
            assert(b[i] == kind[i]);
            lemma_name_char_plain(kind[i]);
        } else if i > kind.len() {
            assert(b[i] == name[i - kind.len() - 1]);
            lemma_name_char_plain(name[i - kind.len() - 1]);
        } else {
            assert(b[i] == '/');
        }
    }
    assert(b[0] == kind[0]);
    assert(b.last() == name.last());
    lemma_trim_clean(b);
    assert(trim_start_char(b, '*') == b);
    assert(cleaned_entry(b) == b);
    lemma_split_once_at(b, '/', kind.len() as int);
    assert(b.take(kind.len() as int) == kind);
    assert(b.skip(kind.len() + 1int) == name);
    assert(kind_name(b, kind) == Some(name));
    let listed = seq![b];
    assert(listed.drop_last() == Seq::<Seq<char>>::empty());
    assert(kind_names_in(Seq::<Seq<char>>::empty(), kind) == Seq::<Seq<char>>::empty());
    assert(listed.last() == b);
    assert(kind_names_in(listed, kind) == Seq::<Seq<char>>::empty().push(name));
}

/// A branch pushed to `origin` is read back from its line in `git branch -r`
/// (`  origin/<kind>/<name>`) as `<kind>/<name>`: the `origin/` prefix is
/// removed, so the entry has no remote part left and the remote branches of
/// its kind do not list it. This holds for every kind that does not itself
/// end in `origin`.
pub proof fn law_origin_entry_loses_its_remote(kind: Seq<char>, name: Seq<char>)
    requires
        is_flow_name(kind),
        is_flow_name(name),
        !(kind.len() >= 6 && kind.subrange(kind.len() - 6, kind.len() as int) == "origin"@),
    ensures
        ({
            let line = seq![' ', ' '] + "origin/"@ + branch_for(kind, name);
            &&& remote_branch_names(line) == seq![branch_for(kind, name)]
            &&& remote_kind_names_in(remote_branch_names(line), kind) == Seq::<Seq<char>>::empty()
        }),
{
    reveal_strlit("* ");
    reveal_strlit("origin/");
    reveal_strlit("origin");
    let b = branch_for(kind, name);
    lemma_flow_branch(kind, name);
    let marker = "* "@;
    let origin = "origin/"@;
    assert(marker == seq!['*', ' ']);
    assert(origin == seq!['o', 'r', 'i', 'g', 'i', 'n', '/']);
    let line = seq![' ', ' '] + origin + b;
    assert forall|i: int| 0 <= i < line.len() implies line[i] != '\n' && line[i] != '*' by {
        if i >= 9 {
            assert(line[i] == b[i - 9]);
        }
    }
    lemma_lines_single(line);
    assert(lines(line).map_values(|l: Seq<char>| remote_branch_name(l)) =~= seq![remote_branch_name(line)]);
    lemma_replace_absent(line, marker, Seq::empty());
    // `origin/` does not occur in the branch: its one `/` would have to end it.
    assert forall|i: int| 0 <= i && i + origin.len() <= b.len()
        implies #[trigger] b.subrange(i, i + origin.len()) != origin by {
        if b.subrange(i, i + origin.len()) == origin {
            assert(b[i + 6] == origin[6]);
            assert(i + 6 == kind.len());
            assert(kind.subrange(kind.len() - 6, kind.len() as int) =~= "origin"@) by {
                assert forall|j: int| 0 <= j < 6 implies kind.subrange(kind.len() - 6, kind.len() as int)[j]
                    == "origin"@[j] by {
                    assert(b[i + j] == kind[i + j]);
                    assert(b.subrange(i, i + origin.len())[j] == b[i + j]);
                }
            }
        }
    }
    lemma_replace_no_match(b, origin, Seq::empty());
    lemma_replace_leading(origin, Seq::empty(), b);
    assert(Seq::<char>::empty() + b == b);
    lemma_replace_kept(' ', origin + b, origin, Seq::empty());
    lemma_replace_kept(' ', seq![' '] + (origin + b), origin, Seq::empty());
    assert(line == seq![' '] + (seq![' '] + (origin + b)));
    let spaced = seq![' '] + (seq![' '] + b);
    assert(replace(line, origin, Seq::empty()) == spaced);
    lemma_trim_start_white(' ', seq![' '] + b);
    lemma_trim_start_white(' ', b);
    assert(trim_start(spaced) == b);
    assert(remote_branch_name(line) == b);
    // `<kind>/<name>` has one `/`: after the first part there is no second.
    lemma_split_once_at(b, '/', kind.len() as int);
    assert(b.skip(kind.len() + 1int) == name);
    assert forall|j: int| 0 <= j < name.len() implies name[j] != '/' by {
        lemma_name_char_plain(name[j]);
    }
    lemma_split_once_none(name, '/');
    assert(remote_kind_name(b, kind) is None);
    let listed = seq![b];
    assert(listed.drop_last() == Seq::<Seq<char>>::empty());
    assert(remote_kind_names_in(Seq::<Seq<char>>::empty(), kind) == Seq::<Seq<char>>::empty());
    assert(listed.last() == b);
}

/// An entry `<remote>/<kind>/<name>` of a remote branch (as
/// `get_remote_branches` gives it) is read as a branch `name` of kind
/// `kind`: the remote part is skipped.
pub proof fn law_remote_entry_is_read(remote: Seq<char>, kind: Seq<char>, name: Seq<char>)
    requires
        is_flow_name(remote),
        is_flow_name(kind),
        is_flow_name(name),
    ensures
        remote_kind_names_in(seq![remote + "/"@ + branch_for(kind, name)], kind) == seq![name],
{
    reveal_strlit("/");
    let b = branch_for(kind, name);
    lemma_flow_branch(kind, name);
    let e = remote + "/"@ + b;
    assert forall|i: int| 0 <= i < e.len() implies !is_white_space(#[trigger] e[i]) && e[i] != '*'
        && (i < remote.len() ==> e[i] != '/') by {
        if i < remote.len() {
            assert(e[i] == remote[i]);
            lemma_name_char_plain(remote[i]);
        } else if i > remote.len() {
            let j = i - remote.len() - 1;
            assert(e[i] == b[j]);
            assert(!is_white_space(b[j]) && b[j] != '*');
        } else {
            assert(e[i] == '/');
        }
    }
    assert(e[0] == remote[0]);
    assert(e.last() == b.last());
    lemma_trim_clean(e);
    assert(trim_start_char(e, '*') == e);
    assert(cleaned_entry(e) == e);
    lemma_split_once_at(e, '/', remote.len() as int);
    assert(e.take(remote.len() as int) == remote);
    assert(e.skip(remote.len() + 1int) == b);
    lemma_split_once_at(b, '/', kind.len() as int);
    assert(b.take(kind.len() as int) == kind);
    assert(b.skip(kind.len() + 1int) == name);
    assert(remote_kind_name(e, kind) == Some(name));
    let listed = seq![e];
    assert(listed.drop_last() == Seq::<Seq<char>>::empty());
    assert(remote_kind_names_in(Seq::<Seq<char>>::empty(), kind) == Seq::<Seq<char>>::empty());
    assert(listed.last() == e);
    assert(remote_kind_names_in(listed, kind) == Seq::<Seq<char>>::empty().push(name));
}

/// Moving through a row of `n` choices never leaves it.
pub proof fn law_choice_stays_in_row(selected: int, n: usize)
    requires
        n > 0,
        0 <= selected < n,
    ensures
        0 <= next_choice(selected, Some(n)) < n,
        0 <= previous_choice(selected) < n,
{
}

/// Moving to the next choice and back returns to where one was, unless one
/// was on the last choice.
pub proof fn law_next_then_previous(selected: int, n: usize)
    requires
        0 <= selected,
        selected + 1 < n,
    ensures
        previous_choice(next_choice(selected, Some(n))) == selected,
{
}

/// Each exit reason has a code of its own, and success is 0.
pub proof fn law_exit_codes_distinct()
    ensures
        ExitCode::Success.spec_code() == 0,
        ExitCode::Success.spec_code() != ExitCode::NotAGitRepository.spec_code(),
        ExitCode::Success.spec_code() != ExitCode::UncommitedChanges.spec_code(),
        ExitCode::NotAGitRepository.spec_code() != ExitCode::UncommitedChanges.spec_code(),
{
}

/// Checking that a branch is missing refuses it when the local branches
/// have it, whatever the remote ones are, and when the remote ones have it:
/// the check passes only when neither listing has it. Either way only the
/// two listings were asked for, and the repository is as it was.
pub proof fn law_missing_branch_checked_everywhere(
    p0: LogicPipeline,
    p1: LogicPipeline,
    p2: LogicPipeline,
    i: int,
    b: Seq<char>,
    local: ShellResult,
    remote: ShellResult,
    a1: PipelineActionView,
    a2: PipelineActionView,
)
    requires
        p0.wf(),
        p0.phase() == PhaseView::AwaitLocal(i),
        0 <= i < p0.pre().len(),
        p0.pre()[i] == PreconditionView::RequiresMissingBranch(b),
        LogicPipeline::advanced(p0, p1, Some(Ok(local)), a1),
        LogicPipeline::advanced(p1, p2, Some(Ok(remote)), a2),
    ensures
        a1 == PipelineActionView::Run(GitCommandView::ListRemoteBranches),
        local_branch_names(local.stdout@).contains(b) ==> p2.phase() == PhaseView::Finished(
            Err(PipelineErrorView::PreconditionFailed("Branch "@ + b + " already exists"@, None)),
        ) && a2 == PipelineActionView::Done,
        remote_branch_names(remote.stdout@).contains(b) ==> p2.phase() == PhaseView::Finished(
            Err(PipelineErrorView::PreconditionFailed("Branch "@ + b + " already exists"@, None)),
        ) && a2 == PipelineActionView::Done,
        !local_branch_names(local.stdout@).contains(b) && !remote_branch_names(
            remote.stdout@,
        ).contains(b) ==> p2.phase() == PhaseView::Precondition(i + 1) && a2
            == PipelineActionView::Proceed,
        p2.issued() == p0.issued().push(GitCommandView::ListRemoteBranches),
        p2.repo().current() == p0.repo().current(),
{
}

/// Checking that a local branch exists refuses it, before anything changes,
/// when `git branch` does not list it, and passes on otherwise.
pub proof fn law_existing_branch_checked_locally(
    p0: LogicPipeline,
    p1: LogicPipeline,
    i: int,
    b: Seq<char>,
    local: ShellResult,
    a: PipelineActionView,
)
    requires
        p0.wf(),
        p0.phase() == PhaseView::AwaitLocal(i),
        0 <= i < p0.pre().len(),
        p0.pre()[i] == PreconditionView::RequiresExistingLocalBranch(b),
        LogicPipeline::advanced(p0, p1, Some(Ok(local)), a),
    ensures
        !local_branch_names(local.stdout@).contains(b) ==> p1.phase() == PhaseView::Finished(
            Err(PipelineErrorView::PreconditionFailed("Branch "@ + b + " not found"@, None)),
        ) && a == PipelineActionView::Done && only_reads(p1.issued()),
        local_branch_names(local.stdout@).contains(b) ==> p1.phase() == PhaseView::Precondition(
            i + 1,
        ),
{
}

/// A step whose command fails (or whose listing of the remote branches,
/// for a pull or a push, fails) ends the run at once: the pipeline asks for
/// nothing more (an ended pipeline stays ended), keeps the branch it was
/// on, and fails with the `git` error of that step wrapped as an execution
/// failure; a failed merge of `b` is reported as such.
pub proof fn law_failed_step_stops(
    p0: LogicPipeline,
    p1: LogicPipeline,
    e: ShellError,
    a: PipelineActionView,
)
    requires
        p0.wf(),
        p0.phase() is AwaitStep || p0.phase() is AwaitPush || p0.phase() is AwaitListing,
        LogicPipeline::advanced(p0, p1, Some(Err(e)), a),
    ensures
        a == PipelineActionView::Done,
        p1.phase() matches PhaseView::Finished(Err(PipelineErrorView::ExecutionFailed(_))),
        p1.issued() == p0.issued(),
        p1.repo().current() == p0.repo().current(),
        p0.phase() matches PhaseView::AwaitStep(i) ==> (p0.plan()[i] matches StepView::Merge(b)
            ==> p1.phase() == PhaseView::Finished(
            Err(execution_failure(GitErrorView::MergeFailed(b, e))),
        )),
{
}

/// Every finish publishes what it changes: each branch that receives a
/// merge or a commit is pushed before another branch is checked out.
pub proof fn law_finish_publishes_changes(
    branch: Seq<char>,
    message: Seq<char>,
    name: Seq<char>,
    main: Seq<char>,
)
    ensures
        pushed_before_leaving(develop_finish_steps(branch, message)),
        pushed_before_leaving(hotfix_finish_steps(name, main)),
        pushed_before_leaving(release_finish_steps(name, main)),
{
    let d = develop_finish_steps(branch, message);
    assert forall|i: int|
        0 <= i < d.len() && (#[trigger] d[i] is Merge || d[i] is Commit) implies exists|j: int|
            i < j < d.len() && #[trigger] d[j] is Push && forall|k: int|
                i < k < j ==> !(#[trigger] d[k] is Checkout) && !(d[k] is CreateBranch) by {
        assert(d[7] is Push);
    }
    let h = hotfix_finish_steps(name, main);
    assert forall|i: int|
        0 <= i < h.len() && (#[trigger] h[i] is Merge || h[i] is Commit) implies exists|j: int|
            i < j < h.len() && #[trigger] h[j] is Push && forall|k: int|
                i < k < j ==> !(#[trigger] h[k] is Checkout) && !(h[k] is CreateBranch) by {
        if i <= 7 {
            assert(h[7] is Push);
        } else {
            assert(h[11] is Push);
        }
    }
    let r = release_finish_steps(name, main);
    assert forall|i: int|
        0 <= i < r.len() && (#[trigger] r[i] is Merge || r[i] is Commit) implies exists|j: int|
            i < j < r.len() && #[trigger] r[j] is Push && forall|k: int|
                i < k < j ==> !(#[trigger] r[k] is Checkout) && !(r[k] is CreateBranch) by {
        if i <= 7 {
            assert(r[7] is Push);
        } else {
            assert(r[11] is Push);
        }
    }
}

/// Every finish carries its branch into where it belongs: a feature or
/// bugfix is merged into `develop`; a hotfix or release is merged into the
/// main branch, and the main branch then into `develop`.
pub proof fn law_finish_merges_where_it_belongs(
    branch: Seq<char>,
    message: Seq<char>,
    name: Seq<char>,
    main: Seq<char>,
)
    ensures
        merges_into(develop_finish_steps(branch, message), branch, "develop"@),
        merges_into(hotfix_finish_steps(name, main), branch_for("hotfix"@, name), main),
        merges_into(hotfix_finish_steps(name, main), main, "develop"@),
        merges_into(release_finish_steps(name, main), branch_for("release"@, name), main),
        merges_into(release_finish_steps(name, main), main, "develop"@),
{
    let d = develop_finish_steps(branch, message);
    assert forall|start: Seq<char>| #[trigger] branch_after(d.take(5), start) == "develop"@ by {
        reveal_with_fuel(branch_after, 3);
        assert(d.take(5).last() == StepView::Pull);
        assert(d.take(5).drop_last().last() == StepView::Checkout("develop"@));
        assert(d.take(5).drop_last() == d.take(4));
    }
    assert(d[5] == StepView::Merge(branch));
    let h = hotfix_finish_steps(name, main);
    assert forall|start: Seq<char>| #[trigger] branch_after(h.take(5), start) == main by {
        reveal_with_fuel(branch_after, 3);
        assert(h.take(5).last() == StepView::Pull);
        assert(h.take(5).drop_last() == h.take(4));
        assert(h.take(4).last() == StepView::Checkout(main));
    }
    assert(h[5] == StepView::Merge(branch_for("hotfix"@, name)));
    assert forall|start: Seq<char>| #[trigger] branch_after(h.take(10), start) == "develop"@ by {
        reveal_with_fuel(branch_after, 3);
        assert(h.take(10).last() == StepView::Pull);
        assert(h.take(10).drop_last() == h.take(9));
        assert(h.take(9).last() == StepView::Checkout("develop"@));
    }
    assert(h[10] == StepView::Merge(main));
    let r = release_finish_steps(name, main);
    assert forall|start: Seq<char>| #[trigger] branch_after(r.take(5), start) == main by {
        reveal_with_fuel(branch_after, 3);
        assert(r.take(5).last() == StepView::Pull);
        assert(r.take(5).drop_last() == r.take(4));
        assert(r.take(4).last() == StepView::Checkout(main));
    }
    assert(r[5] == StepView::Merge(branch_for("release"@, name)));
    assert forall|start: Seq<char>| #[trigger] branch_after(r.take(10), start) == "develop"@ by {
        reveal_with_fuel(branch_after, 2);
        assert(r.take(10).last() == StepView::Checkout("develop"@));
    }
    assert(r[10] == StepView::Merge(main));
}

/// A pull runs only when the remote has the branch checked out: given the
/// listing of `git branch -r`, a pull step announces and issues `git pull`
/// exactly when the listing holds the current branch, and is skipped
/// otherwise; a push sets the upstream exactly when the listing lacks it.
pub proof fn law_pull_and_push_follow_the_remote(
    p0: LogicPipeline,
    p1: LogicPipeline,
    p2: LogicPipeline,
    listing: ShellResult,
    a1: PipelineActionView,
    a2: PipelineActionView,
    i: int,
)
    requires
        p0.wf(),
        p0.phase() == PhaseView::AwaitListing(i),
        LogicPipeline::advanced(p0, p1, Some(Ok(listing)), a1),
        LogicPipeline::advanced(p1, p2, None, a2),
    ensures
        p0.plan()[i] is Pull && remote_branch_names(listing.stdout@).contains(p0.repo().current())
            ==> a1 == PipelineActionView::Notify("    Pulling from remote"@) && a2
            == PipelineActionView::Run(GitCommandView::Pull),
        p0.plan()[i] is Pull && !remote_branch_names(listing.stdout@).contains(p0.repo().current())
            ==> a1 == PipelineActionView::Proceed && p1.phase() == PhaseView::Step(i + 1)
            && p1.issued() == p0.issued(),
        p0.plan()[i] is Push ==> a1 == PipelineActionView::Run(
            GitCommandView::Push(
                if remote_branch_names(listing.stdout@).contains(p0.repo().current()) {
                    None
                } else {
                    Some(p0.repo().current())
                },
            ),
        ),
{
}

/// Starting a branch brings its base up to date first: the branch is
/// created while the base is checked out, after a pull of the base.
pub proof fn law_start_branches_off_updated_base(base: Seq<char>, branch: Seq<char>)
    ensures
        ({
            let s = start_steps(base, branch);
            &&& s[2] == StepView::CreateBranch(branch)
            &&& s[1] is Pull
            &&& forall|start: Seq<char>|
                #[trigger] branch_after(s.take(1), start) == base && branch_after(s.take(2), start)
                    == base
        }),
{
    let s = start_steps(base, branch);
    assert forall|start: Seq<char>|
        #[trigger] branch_after(s.take(1), start) == base && branch_after(s.take(2), start) == base by {
        reveal_with_fuel(branch_after, 2);
        assert(s.take(1).last() == StepView::Checkout(base));
        assert(s.take(2).last() == StepView::Pull);
        assert(s.take(2).drop_last() == s.take(1));
    }
}

/// Finishing a release tags the main branch once the release is merged
/// into it, and then pushes the tags.
pub proof fn law_release_tags_merged_main(name: Seq<char>, main: Seq<char>)
    ensures
        ({
            let r = release_finish_steps(name, main);
            exists|m: int, k: int, j: int|
                0 <= m < k < j < r.len() && #[trigger] r[m] == StepView::Merge(branch_for("release"@, name))
                    && #[trigger] r[k] == StepView::Tag(name) && (forall|start: Seq<char>|
                    #[trigger] branch_after(r.take(k), start) == main) && #[trigger] r[j]
                    is PushTags
        }),
{
    let r = release_finish_steps(name, main);
    assert forall|start: Seq<char>| #[trigger] branch_after(r.take(6), start) == main by {
        reveal_with_fuel(branch_after, 3);
        assert(r.take(6).last() == StepView::Merge(branch_for("release"@, name)));
        assert(r.take(6).drop_last() == r.take(5));
        assert(r.take(5).last() == StepView::Pull);
        assert(r.take(5).drop_last() == r.take(4));
        assert(r.take(4).last() == StepView::Checkout(main));
    }
    assert(r[5] == StepView::Merge(branch_for("release"@, name)));
    assert(r[6] == StepView::Tag(name));
    assert(r[8] is PushTags);
}

} // verus!

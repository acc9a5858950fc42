//! A git-flow operation: what to announce, the pipeline to run, and what to
//! announce when it succeeded.
use vstd::prelude::*;
use vstd::string::*;
use crate::logic::pipeline::{branch_after, Pipeline, StepView};

verus! {

/// A git-flow operation, ready to run.
pub struct Flow {
    /// The line shown before the pipeline runs.
    pub intro: String,
    /// The preconditions and steps of the operation.
    pub pipeline: Pipeline,
    /// The line shown once the pipeline succeeded.
    pub outro: String,
}

/// A character the git-flow screens let one type in a name: an ASCII
/// letter or digit, or `-`.
pub open spec fn is_name_char(c: char) -> bool {
    let u = c as u32;
    ||| 97 <= u <= 122
    ||| 65 <= u <= 90
    ||| 48 <= u <= 57
    ||| u == 45
}

/// A name as the git-flow screens let one type it: not empty, of name
/// characters only.
pub open spec fn is_flow_name(name: Seq<char>) -> bool {
    name.len() > 0 && forall|i: int| 0 <= i < name.len() ==> is_name_char(#[trigger] name[i])
}

/// The branch of kind `kind` named `name`: `<kind>/<name>`.
pub open spec fn branch_for(kind: Seq<char>, name: Seq<char>) -> Seq<char> {
    kind + "/"@ + name
}

/// The branch `<kind>/<name>`.
pub fn branch_name(kind: &str, name: &str) -> (b: String)
    ensures
        b@ == branch_for(kind@, name@),
{
    let mut b = String::from_str(kind);
    b.append("/");
    b.append(name);
    b
}

/// The steps that start a branch from `base`: bring `base` up to date, then
/// branch off it.
pub open spec fn start_steps(base: Seq<char>, branch: Seq<char>) -> Seq<StepView> {
    seq![StepView::Checkout(base), StepView::Pull, StepView::CreateBranch(branch)]
}

/// The steps that publish `branch` and merge it into an up-to-date `into`.
pub open spec fn merge_steps(branch: Seq<char>, into: Seq<char>) -> Seq<StepView> {
    seq![
        StepView::Checkout(branch),
        StepView::Pull,
        StepView::Push,
        StepView::Checkout(into),
        StepView::Pull,
        StepView::Merge(branch),
    ]
}

/// The steps that finish a branch into `develop`: merge it, record the
/// merge with `message`, publish `develop`, delete the branch.
pub open spec fn develop_finish_steps(branch: Seq<char>, message: Seq<char>) -> Seq<StepView> {
    merge_steps(branch, "develop"@) + seq![
        StepView::Commit(message),
        StepView::Push,
        StepView::DeleteBranch(branch),
    ]
}

/// The steps that finish hotfix `name` with main branch `main`.
pub open spec fn hotfix_finish_steps(name: Seq<char>, main: Seq<char>) -> Seq<StepView> {
    merge_steps(branch_for("hotfix"@, name), main) + seq![
        StepView::Commit("Merge after "@ + name + " hotfix merge"@),
        StepView::Push,
    ] + seq![
        StepView::Checkout("develop"@),
        StepView::Pull,
        StepView::Merge(main),
        StepView::Push,
        StepView::DeleteBranch(branch_for("hotfix"@, name)),
    ]
}

/// The steps that finish release `name` with main branch `main`.
pub open spec fn release_finish_steps(name: Seq<char>, main: Seq<char>) -> Seq<StepView> {
    merge_steps(branch_for("release"@, name), main) + seq![
        StepView::Tag(name),
        StepView::Push,
        StepView::PushTags,
    ] + seq![
        StepView::Checkout("develop"@),
        StepView::Merge(main),
        StepView::Push,
        StepView::DeleteBranch(branch_for("release"@, name)),
    ]
}

/// Whether every branch that a step of `steps` changes (a merge or a
/// commit on it) is pushed before the steps check out another branch: a
/// push follows, with no checkout or branch creation in between.
pub open spec fn pushed_before_leaving(steps: Seq<StepView>) -> bool {
    forall|i: int|
        0 <= i < steps.len() && (#[trigger] steps[i] is Merge || steps[i] is Commit) ==> exists|j: int|
            i < j < steps.len() && #[trigger] steps[j] is Push && forall|k: int|
                i < k < j ==> !(#[trigger] steps[k] is Checkout) && !(steps[k] is CreateBranch)
}

/// Whether `steps` merge `from` into `into`: some step merges `from` while
/// `into` is checked out, wherever the steps started.
pub open spec fn merges_into(steps: Seq<StepView>, from: Seq<char>, into: Seq<char>) -> bool {
    exists|k: int|
        0 <= k < steps.len() && #[trigger] steps[k] == StepView::Merge(from) && forall|start: Seq<char>|
            #[trigger] branch_after(steps.take(k), start) == into
}

} // verus!

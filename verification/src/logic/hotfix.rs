//! Hotfix branches: `hotfix/<name>`, started from the main branch and
//! merged into it, which is then merged into `develop`.
use vstd::prelude::*;
use vstd::string::*;
use crate::git::GitWrapper;
use crate::logic::flow::{
    merges_into, pushed_before_leaving,
    branch_for, branch_name, hotfix_finish_steps, merge_steps, start_steps, Flow,
};
use crate::laws::{law_finish_merges_where_it_belongs, law_finish_publishes_changes};
use crate::logic::pipeline::{Pipeline, Precondition, PreconditionView, Step, StepView};

verus! {

/// Starting hotfix `name`: with no branch `hotfix/<name>` anywhere,
/// branch it off the up-to-date main branch of `git`.
pub fn hotfix_start(name: &str, git: &GitWrapper) -> (f: Flow)
    ensures
        f.intro@ == "Starting creation of hotfix "@ + name@ + "..."@,
        f.pipeline.pre() == seq![
            PreconditionView::RequiresMissingBranch(branch_for("hotfix"@, name@)),
        ],
        f.pipeline.plan() == start_steps(git.main_name(), branch_for("hotfix"@, name@)),
        f.outro@ == "Hotfix started succesfully"@,
{
    let branch = branch_name("hotfix", name);
    let mut intro = String::from_str("Starting creation of hotfix ");
    intro.append(name);
    intro.append("...");
    let mut pipeline = Pipeline::new();
    pipeline.require(Precondition::RequiresMissingBranch(branch.clone()));
    pipeline.step(Step::Checkout(git.get_main_branch().clone()));
    pipeline.step(Step::Pull());
    pipeline.step(Step::CreateBranch(branch));
    Flow { intro, pipeline, outro: String::from_str("Hotfix started succesfully") }
}

/// Finishing hotfix `name`: publish `hotfix/<name>`, merge it into the
/// up-to-date main branch of `git`, record the merge and publish it, merge
/// the main branch into an up-to-date `develop`, publish that and delete the
/// hotfix branch.
pub fn hotfix_finish(name: &str, git: &GitWrapper) -> (f: Flow)
    ensures
        f.intro@ == "Finishing hotfix "@ + name@ + "..."@,
        f.pipeline.pre() == seq![
            PreconditionView::RequiresExistingLocalBranch(branch_for("hotfix"@, name@)),
        ],
        f.pipeline.plan() == hotfix_finish_steps(name@, git.main_name()),
        f.outro@ == "Hotfix finished succesfully"@,
        pushed_before_leaving(f.pipeline.plan()),
        merges_into(f.pipeline.plan(), branch_for("hotfix"@, name@), git.main_name()),
        merges_into(f.pipeline.plan(), git.main_name(), "develop"@),
{
    let branch = branch_name("hotfix", name);
    let main_branch = git.get_main_branch();
    let mut intro = String::from_str("Finishing hotfix ");
    intro.append(name);
    intro.append("...");
    let mut message = String::from_str("Merge after ");
    message.append(name);
    message.append(" hotfix merge");
    let mut pipeline = Pipeline::new();
    pipeline.require(Precondition::RequiresExistingLocalBranch(branch.clone()));
    pipeline.step(Step::Checkout(branch.clone()));
    pipeline.step(Step::Pull());
    pipeline.step(Step::Push());
    pipeline.step(Step::Checkout(main_branch.clone()));
    pipeline.step(Step::Pull());
    pipeline.step(Step::Merge(branch.clone()));
    pipeline.step(Step::Commit(message));
    pipeline.step(Step::Push());
    pipeline.step(Step::Checkout(String::from_str("develop")));
    pipeline.step(Step::Pull());
    pipeline.step(Step::Merge(main_branch.clone()));
    pipeline.step(Step::Push());
    pipeline.step(Step::DeleteBranch(branch));
    assert(pipeline.plan() =~= merge_steps(branch_for("hotfix"@, name@), git.main_name()) + seq![
        StepView::Commit("Merge after "@ + name@ + " hotfix merge"@),
        StepView::Push,
    ] + seq![
        StepView::Checkout("develop"@),
        StepView::Pull,
        StepView::Merge(git.main_name()),
        StepView::Push,
        StepView::DeleteBranch(branch_for("hotfix"@, name@)),
    ]);
    proof {
        law_finish_publishes_changes(Seq::empty(), Seq::empty(), name@, git.main_name());
        law_finish_merges_where_it_belongs(Seq::empty(), Seq::empty(), name@, git.main_name());
    }
    Flow { intro, pipeline, outro: String::from_str("Hotfix finished succesfully") }
}

} // verus!

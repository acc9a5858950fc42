//! Release branches: `release/<name>`, started from `develop`, merged
//! into the main branch and tagged `<name>`, then carried into `develop`.
use vstd::prelude::*;
use vstd::string::*;
use crate::git::GitWrapper;
use crate::logic::flow::{
    merges_into, pushed_before_leaving,
    branch_for, branch_name, release_finish_steps, merge_steps, start_steps, Flow,
};
use crate::laws::{law_finish_merges_where_it_belongs, law_finish_publishes_changes};
use crate::logic::pipeline::{Pipeline, Precondition, PreconditionView, Step, StepView};

verus! {

/// Starting release `name`: with no branch `release/<name>` anywhere,
/// branch it off an up-to-date `develop`.
pub fn release_start(name: &str) -> (f: Flow)
    ensures
        f.intro@ == "Starting creation of release "@ + name@ + "..."@,
        f.pipeline.pre() == seq![
            PreconditionView::RequiresMissingBranch(branch_for("release"@, name@)),
        ],
        f.pipeline.plan() == start_steps("develop"@, branch_for("release"@, name@)),
        f.outro@ == "Release started successfully"@,
{
    let branch = branch_name("release", name);
    let mut intro = String::from_str("Starting creation of release ");
    intro.append(name);
    intro.append("...");
    let mut pipeline = Pipeline::new();
    pipeline.require(Precondition::RequiresMissingBranch(branch.clone()));
    pipeline.step(Step::Checkout(String::from_str("develop")));
    pipeline.step(Step::Pull());
    pipeline.step(Step::CreateBranch(branch));
    Flow { intro, pipeline, outro: String::from_str("Release started successfully") }
}

/// Finishing release `name`: publish `release/<name>`, merge it into the
/// up-to-date main branch of `git`, tag it `name`, publish the main branch
/// and the tags, merge the main branch into `develop`, publish that and
/// delete the release branch.
pub fn release_finish(name: &str, git: &GitWrapper) -> (f: Flow)
    ensures
        f.intro@ == "Finishing release "@ + name@ + "..."@,
        f.pipeline.pre() == seq![
            PreconditionView::RequiresExistingLocalBranch(branch_for("release"@, name@)),
        ],
        f.pipeline.plan() == release_finish_steps(name@, git.main_name()),
        f.outro@ == "Release finished successfully"@,
        pushed_before_leaving(f.pipeline.plan()),
        merges_into(f.pipeline.plan(), branch_for("release"@, name@), git.main_name()),
        merges_into(f.pipeline.plan(), git.main_name(), "develop"@),
{
    let branch = branch_name("release", name);
    let mut intro = String::from_str("Finishing release ");
    intro.append(name);
    intro.append("...");
    let main_branch = git.get_main_branch();
    let mut pipeline = Pipeline::new();
    pipeline.require(Precondition::RequiresExistingLocalBranch(branch.clone()));
    pipeline.step(Step::Checkout(branch.clone()));
    pipeline.step(Step::Pull());
    pipeline.step(Step::Push());
    pipeline.step(Step::Checkout(main_branch.clone()));
    pipeline.step(Step::Pull());
    pipeline.step(Step::Merge(branch.clone()));
    pipeline.step(Step::Tag(String::from_str(name)));
    pipeline.step(Step::Push());
    pipeline.step(Step::PushTags());
    pipeline.step(Step::Checkout(String::from_str("develop")));
    pipeline.step(Step::Merge(main_branch.clone()));
    pipeline.step(Step::Push());
    pipeline.step(Step::DeleteBranch(branch));
    assert(pipeline.plan() =~= merge_steps(branch_for("release"@, name@), git.main_name()) + seq![
        StepView::Tag(name@),
        StepView::Push,
        StepView::PushTags,
    ] + seq![
        StepView::Checkout("develop"@),
        StepView::Merge(git.main_name()),
        StepView::Push,
        StepView::DeleteBranch(branch_for("release"@, name@)),
    ]);
    proof {
        law_finish_publishes_changes(Seq::empty(), Seq::empty(), name@, git.main_name());
        law_finish_merges_where_it_belongs(Seq::empty(), Seq::empty(), name@, git.main_name());
    }
    Flow { intro, pipeline, outro: String::from_str("Release finished successfully") }
}

} // verus!

//! Bugfix branches: `bugfix/<name>`, started from and merged into
//! `develop`.
use vstd::prelude::*;
use vstd::string::*;
use crate::logic::flow::{
    merges_into, pushed_before_leaving,
    branch_for, branch_name, develop_finish_steps, merge_steps, start_steps, Flow,
};
use crate::laws::{law_finish_merges_where_it_belongs, law_finish_publishes_changes};
use crate::logic::pipeline::{Pipeline, Precondition, PreconditionView, Step, StepView};

verus! {

/// Starting bugfix `name`: with no branch `bugfix/<name>` anywhere,
/// branch it off an up-to-date `develop`.
pub fn bugfix_start(name: &str) -> (f: Flow)
    ensures
        f.intro@ == "Starting creation of bugfix "@ + name@ + "..."@,
        f.pipeline.pre() == seq![
            PreconditionView::RequiresMissingBranch(branch_for("bugfix"@, name@)),
        ],
        f.pipeline.plan() == start_steps("develop"@, branch_for("bugfix"@, name@)),
        f.outro@ == "Bugfix started succesfully"@,
{
    let branch = branch_name("bugfix", name);
    let mut intro = String::from_str("Starting creation of bugfix ");
    intro.append(name);
    intro.append("...");
    let mut pipeline = Pipeline::new();
    pipeline.require(Precondition::RequiresMissingBranch(branch.clone()));
    pipeline.step(Step::Checkout(String::from_str("develop")));
    pipeline.step(Step::Pull());
    pipeline.step(Step::CreateBranch(branch));
    Flow { intro, pipeline, outro: String::from_str("Bugfix started succesfully") }
}

/// Finishing bugfix `name`: publish `bugfix/<name>`, merge it into an
/// up-to-date `develop`, record the merge, publish `develop` and delete the
/// bugfix branch.
pub fn bugfix_finish(name: &str) -> (f: Flow)
    ensures
        f.intro@ == "Finishing bugfix "@ + name@ + "..."@,
        f.pipeline.pre() == seq![
            PreconditionView::RequiresExistingLocalBranch(branch_for("bugfix"@, name@)),
        ],
        f.pipeline.plan() == develop_finish_steps(
            branch_for("bugfix"@, name@),
            "Merge after "@ + name@ + " bugfix merge"@,
        ),
        f.outro@ == "Bugfix finished succesfully"@,
        pushed_before_leaving(f.pipeline.plan()),
        merges_into(f.pipeline.plan(), branch_for("bugfix"@, name@), "develop"@),
{
    let branch = branch_name("bugfix", name);
    let mut intro = String::from_str("Finishing bugfix ");
    intro.append(name);
    intro.append("...");
    let mut message = String::from_str("Merge after ");
    message.append(name);
    message.append(" bugfix merge");
    let mut pipeline = Pipeline::new();
    pipeline.require(Precondition::RequiresExistingLocalBranch(branch.clone()));
    pipeline.step(Step::Checkout(branch.clone()));
    pipeline.step(Step::Pull());
    pipeline.step(Step::Push());
    pipeline.step(Step::Checkout(String::from_str("develop")));
    pipeline.step(Step::Pull());
    pipeline.step(Step::Merge(branch.clone()));
    pipeline.step(Step::Commit(message));
    pipeline.step(Step::Push());
    pipeline.step(Step::DeleteBranch(branch));
    assert(pipeline.plan() =~= merge_steps(branch_for("bugfix"@, name@), "develop"@) + seq![
        StepView::Commit("Merge after "@ + name@ + " bugfix merge"@),
        StepView::Push,
        StepView::DeleteBranch(branch_for("bugfix"@, name@)),
    ]);
    proof {
        law_finish_publishes_changes(branch_for("bugfix"@, name@), "Merge after "@ + name@ + " bugfix merge"@, Seq::empty(), Seq::empty());
        law_finish_merges_where_it_belongs(branch_for("bugfix"@, name@), "Merge after "@ + name@ + " bugfix merge"@, Seq::empty(), Seq::empty());
    }
    Flow { intro, pipeline, outro: String::from_str("Bugfix finished succesfully") }
}

} // verus!

//! Feature branches: `feature/<name>`, started from and merged into
//! `develop`.
use vstd::prelude::*;
use vstd::string::*;
use crate::logic::flow::{
    merges_into, pushed_before_leaving,
    branch_for, branch_name, develop_finish_steps, merge_steps, start_steps, Flow,
};
use crate::laws::{law_finish_merges_where_it_belongs, law_finish_publishes_changes};
use crate::logic::pipeline::{Pipeline, Precondition, PreconditionView, Step, StepView};

verus! {

/// Starting feature `name`: with no branch `feature/<name>` anywhere,
/// branch it off an up-to-date `develop`.
pub fn feature_start(name: &str) -> (f: Flow)
    ensures
        f.intro@ == "Starting creation of feature "@ + name@ + "..."@,
        f.pipeline.pre() == seq![
            PreconditionView::RequiresMissingBranch(branch_for("feature"@, name@)),
        ],
        f.pipeline.plan() == start_steps("develop"@, branch_for("feature"@, name@)),
        f.outro@ == "Feature started succesfully"@,
{
    let branch = branch_name("feature", name);
    let mut intro = String::from_str("Starting creation of feature ");
    intro.append(name);
    intro.append("...");
    let mut pipeline = Pipeline::new();
    pipeline.require(Precondition::RequiresMissingBranch(branch.clone()));
    pipeline.step(Step::Checkout(String::from_str("develop")));
    pipeline.step(Step::Pull());
    pipeline.step(Step::CreateBranch(branch));
    Flow { intro, pipeline, outro: String::from_str("Feature started succesfully") }
}

/// Finishing feature `name`: publish `feature/<name>`, merge it into an
/// up-to-date `develop`, record the merge, publish `develop` and delete the
/// feature branch.
pub fn feature_finish(name: &str) -> (f: Flow)
    ensures
        f.intro@ == "Finishing feature "@ + name@ + "..."@,
        f.pipeline.pre() == seq![
            PreconditionView::RequiresExistingLocalBranch(branch_for("feature"@, name@)),
        ],
        f.pipeline.plan() == develop_finish_steps(
            branch_for("feature"@, name@),
            "Merge after "@ + name@ + " feature merge"@,
        ),
        f.outro@ == "Feature finished succesfully"@,
        pushed_before_leaving(f.pipeline.plan()),
        merges_into(f.pipeline.plan(), branch_for("feature"@, name@), "develop"@),
{
    let branch = branch_name("feature", name);
    let mut intro = String::from_str("Finishing feature ");
    intro.append(name);
    intro.append("...");
    let mut message = String::from_str("Merge after ");
    message.append(name);
    message.append(" feature merge");
    let mut pipeline = Pipeline::new();
    pipeline.require(Precondition::RequiresExistingLocalBranch(branch.clone()));
    pipeline.step(Step::Checkout(branch.clone()));
    pipeline.step(Step::Pull());
    pipeline.step(Step::Push());
    pipeline.step(Step::Checkout(String::from_str("develop")));
    pipeline.step(Step::Pull());
    pipeline.step(Step::Merge(branch.clone()));
    pipeline.step(Step::Commit(message));
    pipeline.step(Step::Push());
    pipeline.step(Step::DeleteBranch(branch));
    assert(pipeline.plan() =~= merge_steps(branch_for("feature"@, name@), "develop"@) + seq![
        StepView::Commit("Merge after "@ + name@ + " feature merge"@),
        StepView::Push,
        StepView::DeleteBranch(branch_for("feature"@, name@)),
    ]);
    proof {
        law_finish_publishes_changes(branch_for("feature"@, name@), "Merge after "@ + name@ + " feature merge"@, Seq::empty(), Seq::empty());
        law_finish_merges_where_it_belongs(branch_for("feature"@, name@), "Merge after "@ + name@ + " feature merge"@, Seq::empty(), Seq::empty());
    }
    Flow { intro, pipeline, outro: String::from_str("Feature finished succesfully") }
}

} // verus!

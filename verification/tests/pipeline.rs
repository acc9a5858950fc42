use git_flow_tui::git::command::GitCommand;
use git_flow_tui::git::errors::GitError;
use git_flow_tui::git::GitWrapper;
use git_flow_tui::logic::bugfix::{bugfix_finish, bugfix_start};
use git_flow_tui::logic::errors::{Failure, PipelineError};
use git_flow_tui::logic::feature::{feature_finish, feature_start};
use git_flow_tui::logic::flow::{branch_name, Flow};
use git_flow_tui::logic::hotfix::{hotfix_finish, hotfix_start};
use git_flow_tui::logic::pipeline::{LogicPipeline, Pipeline, PipelineAction, Precondition, Step};
use git_flow_tui::logic::release::{release_finish, release_start};
use git_flow_tui::shell::{ShellError, ShellOutcome, ShellResult};

/// A repository kept in memory, answering the commands the pipeline asks for.
struct FakeRepo {
    local: Vec<String>,
    remote: Vec<String>,
    current: String,
    tags: Vec<String>,
    commits: Vec<String>,
    fail: Option<Vec<String>>,
}

impl FakeRepo {
    fn new() -> Self {
        FakeRepo {
            local: vec!["develop".to_string(), "main".to_string()],
            remote: vec!["develop".to_string(), "main".to_string()],
            current: "develop".to_string(),
            tags: Vec::new(),
            commits: Vec::new(),
            fail: None,
        }
    }

    fn git(&self) -> GitWrapper {
        GitWrapper::new("main".to_string(), self.current.clone())
    }

    fn run(&mut self, args: &[String]) -> ShellOutcome {
        let ok = |stdout: String| Ok(ShellResult { status: 0, stdout, stderr: String::new() });
        let bad = |msg: &str| Err(ShellError::BadExitStatus(1, msg.to_string()));
        if self.fail.as_deref() == Some(args) {
            return bad("refused");
        }
        let a: Vec<&str> = args.iter().map(|s| s.as_str()).collect();
        match a.as_slice() {
            ["branch"] => ok(self
                .local
                .iter()
                .map(|b| if *b == self.current { format!("* {}", b) } else { format!("  {}", b) })
                .collect::<Vec<_>>()
                .join("\n")),
            ["branch", "-r"] => {
                ok(self.remote.iter().map(|b| format!("  origin/{}", b)).collect::<Vec<_>>().join("\n"))
            }
            ["checkout", "-b", b] => {
                if self.local.iter().any(|x| x == b) {
                    bad("exists")
                } else {
                    self.local.push(b.to_string());
                    self.current = b.to_string();
                    ok(String::new())
                }
            }
            ["checkout", b] => {
                if self.local.iter().any(|x| x == b) {
                    self.current = b.to_string();
                    ok(String::new())
                } else {
                    bad("no such branch")
                }
            }
            ["pull"] | ["push"] | ["push", "--tags"] => ok(String::new()),
            ["push", "--set-upstream", "origin", b] => {
                self.remote.push(b.to_string());
                ok(String::new())
            }
            ["merge", b] => {
                if self.local.iter().any(|x| x == b) {
                    ok(String::new())
                } else {
                    bad("nothing to merge")
                }
            }
            ["commit", "--allow-empty", "-m", m] => {
                self.commits.push(m.to_string());
                ok(String::new())
            }
            ["tag", t] => {
                self.tags.push(t.to_string());
                ok(String::new())
            }
            ["branch", "-D", b] => {
                self.local.retain(|x| x != b);
                ok(String::new())
            }
            _ => bad("unknown command"),
        }
    }
}

struct Run {
    notices: Vec<String>,
    commands: Vec<Vec<String>>,
    pipeline: LogicPipeline,
}

fn drive(mut pipeline: LogicPipeline, repo: &mut FakeRepo) -> Run {
    let mut notices = Vec::new();
    let mut commands = Vec::new();
    let mut input: Option<ShellOutcome> = None;
    for _ in 0..1000 {
        match pipeline.execute_pipeline(input.take()) {
            PipelineAction::Notify(m) => notices.push(m),
            PipelineAction::Run(c) => {
                let args = c.args();
                input = Some(repo.run(&args));
                commands.push(args);
            }
            PipelineAction::Proceed => {}
            PipelineAction::Done => return Run { notices, commands, pipeline },
        }
    }
    panic!("the pipeline did not end");
}

fn run_flow(flow: Flow, repo: &mut FakeRepo) -> Run {
    let git = repo.git();
    drive(flow.pipeline.run(git), repo)
}

fn cmds(v: &[&[&str]]) -> Vec<Vec<String>> {
    v.iter().map(|c| c.iter().map(|s| s.to_string()).collect()).collect()
}

fn texts(v: &[&str]) -> Vec<String> {
    v.iter().map(|s| s.to_string()).collect()
}

#[test]
fn test_01_features() {
    let mut repo = FakeRepo::new();
    let start = feature_start("test-features");
    assert_eq!(start.intro, "Starting creation of feature test-features...");
    assert_eq!(start.outro, "Feature started succesfully");
    let run = run_flow(start, &mut repo);
    assert_eq!(run.pipeline.result(), Some(&Ok(())));
    assert_eq!(run.pipeline.git().get_branch(), "feature/test-features");
    assert_eq!(
        run.commands,
        cmds(&[
            &["branch"],
            &["branch", "-r"],
            &["branch", "-r"],
            &["pull"],
            &["checkout", "-b", "feature/test-features"],
        ])
    );
    assert_eq!(
        run.notices,
        texts(&[
            "  Starting pipeline",
            "    Checking branch feature/test-features",
            "    Pulling from remote",
            "    Creating branch feature/test-features",
        ])
    );

    let finish = feature_finish("test-features");
    assert_eq!(finish.intro, "Finishing feature test-features...");
    let run = run_flow(finish, &mut repo);
    assert_eq!(run.pipeline.result(), Some(&Ok(())));
    assert_eq!(run.pipeline.git().get_branch(), "develop");
    assert_eq!(repo.local, texts(&["develop", "main"]));
    assert!(repo.remote.contains(&"feature/test-features".to_string()));
    assert_eq!(repo.commits, texts(&["Merge after test-features feature merge"]));
    assert_eq!(
        run.commands,
        cmds(&[
            &["branch"],
            &["branch", "-r"],
            &["branch", "-r"],
            &["push", "--set-upstream", "origin", "feature/test-features"],
            &["checkout", "develop"],
            &["branch", "-r"],
            &["pull"],
            &["merge", "feature/test-features"],
            &["commit", "--allow-empty", "-m", "Merge after test-features feature merge"],
            &["branch", "-r"],
            &["push"],
            &["branch", "-D", "feature/test-features"],
        ])
    );
}

#[test]
fn test_02_bugfix() {
    let mut repo = FakeRepo::new();
    let run = run_flow(bugfix_start("test-bugfix"), &mut repo);
    assert_eq!(run.pipeline.result(), Some(&Ok(())));
    assert_eq!(repo.current, "bugfix/test-bugfix");
    let finish = bugfix_finish("test-bugfix");
    assert_eq!(finish.outro, "Bugfix finished succesfully");
    let run = run_flow(finish, &mut repo);
    assert_eq!(run.pipeline.result(), Some(&Ok(())));
    assert_eq!(repo.current, "develop");
    assert_eq!(repo.commits, texts(&["Merge after test-bugfix bugfix merge"]));
    assert!(!repo.local.contains(&"bugfix/test-bugfix".to_string()));
}

#[test]
fn test_03_hotfix() {
    let mut repo = FakeRepo::new();
    let git = repo.git();
    let start = hotfix_start("test-hotfix", &git);
    assert_eq!(start.outro, "Hotfix started succesfully");
    let run = run_flow(start, &mut repo);
    assert_eq!(run.pipeline.result(), Some(&Ok(())));
    assert_eq!(
        run.commands,
        cmds(&[
            &["branch"],
            &["branch", "-r"],
            &["checkout", "main"],
            &["branch", "-r"],
            &["pull"],
            &["checkout", "-b", "hotfix/test-hotfix"],
        ])
    );
    let git = repo.git();
    let run = run_flow(hotfix_finish("test-hotfix", &git), &mut repo);
    assert_eq!(run.pipeline.result(), Some(&Ok(())));
    assert_eq!(repo.current, "develop");
    assert_eq!(repo.commits, texts(&["Merge after test-hotfix hotfix merge"]));
    assert!(run.commands.contains(&texts(&["merge", "main"])));
    assert!(!repo.local.contains(&"hotfix/test-hotfix".to_string()));
}

#[test]
fn test_04_release() {
    let mut repo = FakeRepo::new();
    let start = release_start("test-release");
    assert_eq!(start.outro, "Release started successfully");
    let run = run_flow(start, &mut repo);
    assert_eq!(run.pipeline.result(), Some(&Ok(())));
    let git = repo.git();
    let finish = release_finish("test-release", &git);
    assert_eq!(finish.intro, "Finishing release test-release...");
    assert_eq!(finish.outro, "Release finished successfully");
    let run = run_flow(finish, &mut repo);
    assert_eq!(run.pipeline.result(), Some(&Ok(())));
    assert_eq!(repo.tags, texts(&["test-release"]));
    assert_eq!(repo.current, "develop");
    assert!(repo.commits.is_empty());
    assert!(run.commands.contains(&texts(&["push", "--tags"])));
}

#[test]
fn starting_an_existing_branch_changes_nothing() {
    let mut repo = FakeRepo::new();
    repo.remote.push("feature/dup".to_string());
    let run = run_flow(feature_start("dup"), &mut repo);
    assert_eq!(
        run.pipeline.result(),
        Some(&Err(PipelineError::PreconditionFailed("Branch feature/dup already exists".to_string(), None)))
    );
    assert_eq!(run.commands, cmds(&[&["branch"], &["branch", "-r"]]));
    assert_eq!(repo.current, "develop");
    let message = run.pipeline.result().unwrap().as_ref().unwrap_err().message();
    assert_eq!(message, "Precondition failed: Branch feature/dup already exists");
}

#[test]
fn finishing_a_missing_branch_changes_nothing() {
    let mut repo = FakeRepo::new();
    let run = run_flow(bugfix_finish("ghost"), &mut repo);
    assert_eq!(
        run.pipeline.result(),
        Some(&Err(PipelineError::PreconditionFailed("Branch bugfix/ghost not found".to_string(), None)))
    );
    assert_eq!(run.commands, cmds(&[&["branch"]]));
}

#[test]
fn an_unreadable_listing_fails_the_check() {
    let mut repo = FakeRepo::new();
    repo.fail = Some(texts(&["branch"]));
    let run = run_flow(feature_start("x"), &mut repo);
    let err = PipelineError::PreconditionFailed(
        "Could not get local branches".to_string(),
        Some(GitError::ListBranchFailed(ShellError::BadExitStatus(1, "refused".to_string()))),
    );
    assert_eq!(run.pipeline.result(), Some(&Err(err)));
    assert_eq!(
        run.pipeline.result().unwrap().as_ref().unwrap_err().message(),
        "Precondition failed: Could not get local branches\n  Caused by: Could not list local branches\n  Caused by: Program finished with status 1. Error output:\n  refused"
    );
    repo.fail = Some(texts(&["branch", "-r"]));
    let run = run_flow(feature_start("x"), &mut repo);
    assert!(matches!(
        run.pipeline.result(),
        Some(Err(PipelineError::PreconditionFailed(m, Some(GitError::ListBranchFailed(_))))) if m == "Could not get remote branches"
    ));
}

#[test]
fn a_failing_step_stops_the_pipeline() {
    let mut repo = FakeRepo::new();
    repo.fail = Some(texts(&["checkout", "-b", "feature/x"]));
    let run = run_flow(feature_start("x"), &mut repo);
    let git_error = GitError::BranchFailed("feature/x".to_string(), ShellError::BadExitStatus(1, "refused".to_string()));
    let expected = PipelineError::ExecutionFailed(Box::new(Failure::Pipeline(PipelineError::ExecutionFailed(
        Box::new(Failure::Git(git_error)),
    ))));
    assert_eq!(run.pipeline.result(), Some(&Err(expected)));
    assert_eq!(run.pipeline.git().get_branch(), "develop");
    let g = "Could not create feature/x branch\n  Caused by: Program finished with status 1. Error output:\n  refused";
    let inner = format!("Execution failed: {}\n  Caused by: {}", g, g);
    assert_eq!(
        run.pipeline.result().unwrap().as_ref().unwrap_err().message(),
        format!("Execution failed: {}\n  Caused by: {}", inner, inner)
    );
}

#[test]
fn waiting_pipeline_asks_again_and_ended_pipeline_stays() {
    let repo = FakeRepo::new();
    let mut p = Pipeline::new();
    p.require(Precondition::RequiresExistingLocalBranch("develop".to_string()))
        .step(Step::Checkout("develop".to_string()))
        .step(Step::Tag("v1".to_string()));
    let mut run = p.run(repo.git());
    assert_eq!(run.execute_pipeline(None), PipelineAction::Notify("  Starting pipeline".to_string()));
    assert_eq!(run.execute_pipeline(None), PipelineAction::Run(GitCommand::ListBranches));
    assert_eq!(run.execute_pipeline(None), PipelineAction::Run(GitCommand::ListBranches));
    let out = Ok(ShellResult { status: 0, stdout: "* develop".to_string(), stderr: String::new() });
    assert_eq!(run.execute_pipeline(Some(out)), PipelineAction::Proceed);
    assert_eq!(run.execute_pipeline(None), PipelineAction::Proceed);
    // Checking out the branch that is checked out does nothing.
    assert_eq!(run.execute_pipeline(None), PipelineAction::Proceed);
    assert_eq!(run.execute_pipeline(None), PipelineAction::Notify("    Creating tag v1".to_string()));
    let tag = GitCommand::Tag("v1".to_string());
    assert_eq!(run.execute_pipeline(None), PipelineAction::Run(tag));
    let done = Ok(ShellResult { status: 0, stdout: String::new(), stderr: String::new() });
    assert_eq!(run.execute_pipeline(Some(done)), PipelineAction::Proceed);
    assert_eq!(run.execute_pipeline(None), PipelineAction::Done);
    assert_eq!(run.execute_pipeline(None), PipelineAction::Done);
    assert_eq!(run.result(), Some(&Ok(())));
}

#[test]
fn branch_names() {
    assert_eq!(branch_name("release", "1.2"), "release/1.2");
}

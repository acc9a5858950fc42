use git_flow_tui::git::command::GitCommand;
use git_flow_tui::git::errors::GitError;
use git_flow_tui::git::GitWrapper;
use git_flow_tui::shell::{ShellError, ShellOutcome, ShellResult};

fn ok(stdout: &str) -> ShellOutcome {
    Ok(ShellResult { status: 0, stdout: stdout.to_string(), stderr: String::new() })
}

fn failed() -> ShellOutcome {
    Err(ShellError::BadExitStatus(1, "boom".to_string()))
}

fn repo(main: &str, cur: &str) -> GitWrapper {
    GitWrapper::new(main.to_string(), cur.to_string())
}

fn strings(v: &[&str]) -> Vec<String> {
    v.iter().map(|s| s.to_string()).collect()
}

#[test]
fn initialize_outside_repository() {
    let r = GitWrapper::initialize(failed());
    assert!(matches!(r, Err(GitError::NotAGitRepository())));
}

#[test]
fn initialize_reads_main_and_current_branch() {
    let init = GitWrapper::initialize(ok("")).unwrap();
    assert_eq!(init.branch_commands(), (GitCommand::SymbolicRefOriginHead, GitCommand::RevParseAbbrevHead));
    let g = init.read_branches(ok("refs/remotes/origin/trunk"), ok("feature/x"));
    assert_eq!(g.get_main_branch(), "trunk");
    assert_eq!(g.get_branch(), "feature/x");
}

#[test]
fn initialize_falls_back() {
    let g = GitWrapper::initialize(ok("")).unwrap().read_branches(failed(), failed());
    assert_eq!(g.get_main_branch(), "main");
    assert_eq!(g.get_branch(), "main");
    let g = GitWrapper::initialize(ok("")).unwrap().read_branches(ok("refs/remotes/origin/master"), failed());
    assert_eq!(g.get_main_branch(), "master");
    assert_eq!(g.get_branch(), "refs/remotes/origin/master");
}

#[test]
fn has_changes_reads_porcelain() {
    let g = repo("main", "develop");
    assert_eq!(g.has_changes(ok("")).unwrap(), false);
    assert_eq!(g.has_changes(ok(" M src/lib.rs")).unwrap(), true);
    match g.has_changes(failed()) {
        Err(e) => assert_eq!(
            e.message(),
            "Command 'git status --porcelain' failed\n  Caused by: Program finished with status 1. Error output:\n  boom"
        ),
        Ok(_) => panic!("expected an error"),
    }
}

#[test]
fn checkout_and_create_move_the_current_branch() {
    let mut g = repo("main", "develop");
    g.checkout("main", ok("")).unwrap();
    assert_eq!(g.get_branch(), "main");
    assert_eq!(
        g.checkout("nowhere", failed()),
        Err(GitError::CheckoutFailed("nowhere".to_string(), ShellError::BadExitStatus(1, "boom".to_string())))
    );
    assert_eq!(g.get_branch(), "main");
    g.create_branch("feature/a", ok("")).unwrap();
    assert_eq!(g.get_branch(), "feature/a");
    assert!(matches!(g.create_branch("feature/b", failed()), Err(GitError::BranchFailed(b, _)) if b == "feature/b"));
    assert_eq!(g.get_branch(), "feature/a");
}

#[test]
fn operation_errors_name_their_subject() {
    let g = repo("main", "develop");
    assert!(matches!(g.merge("feature/a", failed()), Err(GitError::MergeFailed(b, _)) if b == "feature/a"));
    assert!(matches!(g.pull(failed()), Err(GitError::PullFailed(b, _)) if b == "develop"));
    assert!(matches!(g.push(failed()), Err(GitError::PushFailed(b, _)) if b == "develop"));
    assert!(matches!(g.push_tags(failed()), Err(GitError::PushTagsFailed(_))));
    assert!(matches!(g.commit(failed()), Err(GitError::CommitFailed(b, _)) if b == "develop"));
    assert!(matches!(g.tag("1.0", failed()), Err(GitError::TagFailed(t, _)) if t == "1.0"));
    assert!(matches!(g.fetch(failed()), Err(GitError::FetchFailed(_))));
    assert!(matches!(g.delete_branch("old", failed()), Err(GitError::BranchDeletionFailed(b, _)) if b == "old"));
    assert!(g.merge("x", ok("")).is_ok());
    assert!(g.fetch(ok("")).is_ok());
}

#[test]
fn branch_listings_are_parsed() {
    let g = repo("main", "develop");
    let local = g.get_branches(ok("  bugfix/b\n* develop\n  feature/a\n  main")).unwrap();
    assert_eq!(local, strings(&["bugfix/b", "develop", "feature/a", "main"]));
    let remote = g
        .get_remote_branches(ok("  origin/HEAD -> origin/main\n  origin/develop\n  upstream/feature/z"))
        .unwrap();
    assert_eq!(remote, strings(&["HEAD -> main", "develop", "upstream/feature/z"]));
    assert!(matches!(g.get_branches(failed()), Err(GitError::ListBranchFailed(_))));
}

#[test]
fn kinds_are_filtered() {
    let g = repo("main", "develop");
    let listing = "  bugfix/b\n* feature/current\n  feature/a/deep\n  release/1.0\n  hotfix/h\n  develop";
    assert_eq!(g.get_features(ok(listing)).unwrap(), strings(&["current", "a/deep"]));
    assert_eq!(g.get_bugfixes(ok(listing)).unwrap(), strings(&["b"]));
    assert_eq!(g.get_releases(ok(listing)).unwrap(), strings(&["1.0"]));
    assert_eq!(g.get_hotfixes(ok(listing)).unwrap(), strings(&["h"]));
    let entries = strings(&[" * feature/x ", "**feature/y", "featurex", "feature/"]);
    assert_eq!(g.filter_local_branches(&entries, &"feature".to_string()), strings(&["x", "y", ""]));
}

#[test]
fn remote_kinds_need_a_remote_component() {
    let g = repo("main", "develop");
    // `git branch -r` lines lose their `origin/` prefix first, so only
    // branches of other remotes keep their remote part.
    let listing = "  origin/HEAD -> origin/main\n  origin/feature/a\n  upstream/feature/b\n  upstream/bugfix/c/d\n  origin/hotfix/x\n  upstream/release";
    assert_eq!(g.get_remote_features(ok(listing)).unwrap(), strings(&["b"]));
    assert_eq!(g.get_remote_bugfixes(ok(listing)).unwrap(), strings(&["c/d"]));
    assert_eq!(g.get_remote_releases(ok(listing)).unwrap(), Vec::<String>::new());
    assert_eq!(g.get_remote_hotfixes(ok(listing)).unwrap(), Vec::<String>::new());
    assert!(matches!(g.get_remote_bugfixes(failed()), Err(GitError::ListBranchFailed(_))));
}

#[test]
fn remote_filter_skips_the_remote_part() {
    let g = repo("main", "develop");
    let entries = strings(&["origin/feature/x", "feature/y", " * up/feature/z/w ", "up/featurex/q", "up/feature/"]);
    assert_eq!(g.filter_remote_branches(&entries, &"feature".to_string()), strings(&["x", "z/w", ""]));
    let entries = strings(&["r/hotfix/x", "hotfix/x"]);
    assert_eq!(g.filter_remote_branches(&entries, &"hotfix".to_string()), strings(&["x"]));
}

#[test]
fn push_sets_upstream_for_unknown_branches() {
    let g = repo("main", "feature/new");
    assert_eq!(
        g.push_command(ok("  origin/develop\n  origin/main")).unwrap(),
        GitCommand::Push(Some("feature/new".to_string()))
    );
    assert_eq!(g.push_command(ok("  origin/feature/new")).unwrap(), GitCommand::Push(None));
    assert!(matches!(g.push_command(failed()), Err(GitError::ListBranchFailed(_))));
}

#[test]
fn command_lines() {
    let cases: Vec<(GitCommand, Vec<&str>)> = vec![
        (GitCommand::Status, vec!["status"]),
        (GitCommand::SymbolicRefOriginHead, vec!["symbolic-ref", "refs/remotes/origin/HEAD"]),
        (GitCommand::RevParseAbbrevHead, vec!["rev-parse", "--abbrev-ref", "HEAD"]),
        (GitCommand::StatusPorcelain, vec!["status", "--porcelain"]),
        (GitCommand::Checkout("b".to_string()), vec!["checkout", "b"]),
        (GitCommand::Merge("b".to_string()), vec!["merge", "b"]),
        (GitCommand::Pull, vec!["pull"]),
        (GitCommand::Push(None), vec!["push"]),
        (GitCommand::Push(Some("b".to_string())), vec!["push", "--set-upstream", "origin", "b"]),
        (GitCommand::PushTags, vec!["push", "--tags"]),
        (GitCommand::Commit("m s".to_string()), vec!["commit", "--allow-empty", "-m", "m s"]),
        (GitCommand::Tag("1.0".to_string()), vec!["tag", "1.0"]),
        (GitCommand::Fetch(false, false), vec!["fetch"]),
        (GitCommand::Fetch(true, false), vec!["fetch", "--all"]),
        (GitCommand::Fetch(false, true), vec!["fetch", "--prune"]),
        (GitCommand::Fetch(true, true), vec!["fetch", "--all", "--prune"]),
        (GitCommand::CreateBranch("b".to_string()), vec!["checkout", "-b", "b"]),
        (GitCommand::DeleteBranch("b".to_string()), vec!["branch", "-D", "b"]),
        (GitCommand::ListBranches, vec!["branch"]),
        (GitCommand::ListRemoteBranches, vec!["branch", "-r"]),
    ];
    for (cmd, expected) in cases {
        assert_eq!(cmd.args(), strings(&expected), "{:?}", cmd);
    }
}

#[test]
fn git_error_messages() {
    let e = || ShellError::BadExitStatus(2, "why".to_string());
    let cause = "\n  Caused by: Program finished with status 2. Error output:\n  why";
    assert_eq!(GitError::NotAGitRepository().message(), "Not a git repository");
    assert!(GitError::NotAGitRepository().source().is_none());
    let cases = vec![
        (GitError::CommandFailed("git x".to_string(), e()), "Command 'git x' failed"),
        (GitError::MergeFailed("b".to_string(), e()), "Could not merge b branch"),
        (GitError::CheckoutFailed("b".to_string(), e()), "Could not checkout b branch"),
        (GitError::PullFailed("b".to_string(), e()), "Could not pull b branch from remote"),
        (GitError::PushFailed("b".to_string(), e()), "Could not push b branch to remote"),
        (GitError::PushTagsFailed(e()), "Could not push tags"),
        (GitError::BranchFailed("b".to_string(), e()), "Could not create b branch"),
        (GitError::BranchDeletionFailed("b".to_string(), e()), "Could not delete local branch b"),
        (GitError::ListBranchFailed(e()), "Could not list local branches"),
        (GitError::CommitFailed("b".to_string(), e()), "Could not commit local branch b"),
        (GitError::TagFailed("t".to_string(), e()), "Could not create tag t"),
        (GitError::FetchFailed(e()), "Could not fetch remotes"),
    ];
    for (err, headline) in cases {
        assert_eq!(err.message(), format!("{}{}", headline, cause));
        assert_eq!(err.source(), Some(&e()));
    }
}

#[test]
fn started_branch_is_listed_back() {
    let g = repo("main", "develop");
    for (kind, name) in [("feature", "abc-1"), ("bugfix", "X9"), ("hotfix", "h"), ("release", "2-0")] {
        let branch = format!("{}/{}", kind, name);
        for line in [format!("* {}", branch), format!("  {}", branch)] {
            assert_eq!(g.get_branches(ok(&line)).unwrap(), vec![branch.clone()]);
            let listed = g.get_branches(ok(&line)).unwrap();
            assert_eq!(g.filter_local_branches(&listed, &kind.to_string()), vec![name.to_string()]);
        }
    }
}

//! The `git` invocations the library asks for.
use vstd::prelude::*;
use vstd::string::*;

verus! {

/// One run of `git`; `args` gives its command line after the program name.
#[derive(Debug, PartialEq, Eq)]
pub enum GitCommand {
    /// `git status`: succeeds inside a repository.
    Status,
    /// `git symbolic-ref refs/remotes/origin/HEAD`: names the remote's main branch.
    SymbolicRefOriginHead,
    /// `git rev-parse --abbrev-ref HEAD`: names the current branch.
    RevParseAbbrevHead,
    /// `git status --porcelain`: lists uncommitted changes.
    StatusPorcelain,
    Checkout(String),
    Merge(String),
    Pull,
    /// `git push`, with `--set-upstream origin <branch>` for a branch the
    /// remote does not have yet.
    Push(Option<String>),
    PushTags,
    /// `git commit --allow-empty -m <message>`.
    Commit(String),
    Tag(String),
    /// `git fetch`, with `--all` and `--prune` when asked for.
    Fetch(bool, bool),
    /// `git checkout -b <branch>`.
    CreateBranch(String),
    /// `git branch -D <branch>`.
    DeleteBranch(String),
    /// `git branch`.
    ListBranches,
    /// `git branch -r`.
    ListRemoteBranches,
}

/// A `GitCommand` with its texts as character sequences.
pub enum GitCommandView {
    Status,
    SymbolicRefOriginHead,
    RevParseAbbrevHead,
    StatusPorcelain,
    Checkout(Seq<char>),
    Merge(Seq<char>),
    Pull,
    Push(Option<Seq<char>>),
    PushTags,
    Commit(Seq<char>),
    Tag(Seq<char>),
    Fetch(bool, bool),
    CreateBranch(Seq<char>),
    DeleteBranch(Seq<char>),
    ListBranches,
    ListRemoteBranches,
}

impl View for GitCommand {
    type V = GitCommandView;

    open spec fn view(&self) -> GitCommandView {
        match self {
            GitCommand::Status => GitCommandView::Status,
            GitCommand::SymbolicRefOriginHead => GitCommandView::SymbolicRefOriginHead,
            GitCommand::RevParseAbbrevHead => GitCommandView::RevParseAbbrevHead,
            GitCommand::StatusPorcelain => GitCommandView::StatusPorcelain,
            GitCommand::Checkout(branch) => GitCommandView::Checkout(branch@),
            GitCommand::Merge(branch) => GitCommandView::Merge(branch@),
            GitCommand::Pull => GitCommandView::Pull,
            GitCommand::Push(upstream) => GitCommandView::Push(
                match upstream {
                    Some(branch) => Some(branch@),
                    None => None,
                },
            ),
            GitCommand::PushTags => GitCommandView::PushTags,
            GitCommand::Commit(message) => GitCommandView::Commit(message@),
            GitCommand::Tag(name) => GitCommandView::Tag(name@),
            GitCommand::Fetch(all, prune) => GitCommandView::Fetch(*all, *prune),
            GitCommand::CreateBranch(branch) => GitCommandView::CreateBranch(branch@),
            GitCommand::DeleteBranch(branch) => GitCommandView::DeleteBranch(branch@),
            GitCommand::ListBranches => GitCommandView::ListBranches,
            GitCommand::ListRemoteBranches => GitCommandView::ListRemoteBranches,
        }
    }
}

impl GitCommandView {
    /// The command line after `git`.
    pub open spec fn args(self) -> Seq<Seq<char>> {
        match self {
            GitCommandView::Status => seq!["status"@],
            GitCommandView::SymbolicRefOriginHead => seq!["symbolic-ref"@, "refs/remotes/origin/HEAD"@],
            GitCommandView::RevParseAbbrevHead => seq!["rev-parse"@, "--abbrev-ref"@, "HEAD"@],
            GitCommandView::StatusPorcelain => seq!["status"@, "--porcelain"@],
            GitCommandView::Checkout(branch) => seq!["checkout"@, branch],
            GitCommandView::Merge(branch) => seq!["merge"@, branch],
            GitCommandView::Pull => seq!["pull"@],
            GitCommandView::Push(upstream) => match upstream {
                Some(branch) => seq!["push"@, "--set-upstream"@, "origin"@, branch],
                None => seq!["push"@],
            },
            GitCommandView::PushTags => seq!["push"@, "--tags"@],
            GitCommandView::Commit(message) => seq!["commit"@, "--allow-empty"@, "-m"@, message],
            GitCommandView::Tag(name) => seq!["tag"@, name],
            GitCommandView::Fetch(all, prune) => {
                let with_all = if all {
                    seq!["fetch"@, "--all"@]
                } else {
                    seq!["fetch"@]
                };
                if prune {
                    with_all.push("--prune"@)
                } else {
                    with_all
                }
            },
            GitCommandView::CreateBranch(branch) => seq!["checkout"@, "-b"@, branch],
            GitCommandView::DeleteBranch(branch) => seq!["branch"@, "-D"@, branch],
            GitCommandView::ListBranches => seq!["branch"@],
            GitCommandView::ListRemoteBranches => seq!["branch"@, "-r"@],
        }
    }

    /// Whether the command only reads the repository and its remotes.
    pub open spec fn is_read_only(self) -> bool {
        match self {
            GitCommandView::Status | GitCommandView::SymbolicRefOriginHead
            | GitCommandView::RevParseAbbrevHead | GitCommandView::StatusPorcelain
            | GitCommandView::ListBranches | GitCommandView::ListRemoteBranches => true,
            _ => false,
        }
    }
}

impl GitCommand {
    /// The command line after `git`.
    pub fn args(&self) -> (r: Vec<String>)
        ensures
            r.deep_view() == self@.args(),
    {
        let mut r: Vec<String> = Vec::new();
        match self {
            GitCommand::Status => {
                r.push(String::from_str("status"));
            },
            GitCommand::SymbolicRefOriginHead => {
                r.push(String::from_str("symbolic-ref"));
                r.push(String::from_str("refs/remotes/origin/HEAD"));
            },
            GitCommand::RevParseAbbrevHead => {
                r.push(String::from_str("rev-parse"));
                r.push(String::from_str("--abbrev-ref"));
                r.push(String::from_str("HEAD"));
            },
            GitCommand::StatusPorcelain => {
                r.push(String::from_str("status"));
                r.push(String::from_str("--porcelain"));
            },
            GitCommand::Checkout(branch) => {
                r.push(String::from_str("checkout"));
                r.push(branch.clone());
            },
            GitCommand::Merge(branch) => {
                r.push(String::from_str("merge"));
                r.push(branch.clone());
            },
            GitCommand::Pull => {
                r.push(String::from_str("pull"));
            },
            GitCommand::Push(upstream) => {
                r.push(String::from_str("push"));
                match upstream {
                    Some(branch) => {
                        r.push(String::from_str("--set-upstream"));
                        r.push(String::from_str("origin"));
                        r.push(branch.clone());
                    },
                    None => {},
                }
            },
            GitCommand::PushTags => {
                r.push(String::from_str("push"));
                r.push(String::from_str("--tags"));
            },
            GitCommand::Commit(message) => {
                r.push(String::from_str("commit"));
                r.push(String::from_str("--allow-empty"));
                r.push(String::from_str("-m"));
                r.push(message.clone());
            },
            GitCommand::Tag(name) => {
                r.push(String::from_str("tag"));
                r.push(name.clone());
            },
            GitCommand::Fetch(all, prune) => {
                r.push(String::from_str("fetch"));
                if *all {
                    r.push(String::from_str("--all"));
                }
                if *prune {
                    r.push(String::from_str("--prune"));
                }
            },
            GitCommand::CreateBranch(branch) => {
                r.push(String::from_str("checkout"));
                r.push(String::from_str("-b"));
                r.push(branch.clone());
            },
            GitCommand::DeleteBranch(branch) => {
                r.push(String::from_str("branch"));
                r.push(String::from_str("-D"));
                r.push(branch.clone());
            },
            GitCommand::ListBranches => {
                r.push(String::from_str("branch"));
            },
            GitCommand::ListRemoteBranches => {
                r.push(String::from_str("branch"));
                r.push(String::from_str("-r"));
            },
        }
        assert(r.deep_view() =~= self@.args());
        r
    }
}

} // verus!

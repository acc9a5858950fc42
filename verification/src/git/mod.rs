//! The repository as the flows see it: its main and current branch, and
//! what each `git` operation makes of the outcome of its command.
pub mod command;
pub mod errors;
pub mod parse;

use vstd::prelude::*;
use vstd::string::*;
use crate::git::command::{GitCommand, GitCommandView};
use crate::git::errors::{GitError, GitErrorView};
use crate::git::parse::{
    contains_string, kind_names, local_branch_names, kind_names_in, parse_local_branches,
    parse_remote_branches, remote_branch_names, remote_kind_names, remote_kind_names_in,
};
use crate::shell::ShellOutcome;
use crate::text::{after_last, after_last_chars, chars_of, lines, lines_of, string_of, views};

verus! {

/// The standard output of a command, or `fallback` when it failed.
pub open spec fn stdout_or(outcome: ShellOutcome, fallback: Seq<char>) -> Seq<char> {
    match outcome {
        Ok(res) => res.stdout@,
        Err(_) => fallback,
    }
}

/// A repository in which `git status` succeeded, whose branches are still
/// to be read.
pub struct Initialization {
    in_repository: bool,
}

impl Initialization {
    /// The commands that read the branches, in the order they run:
    /// `git symbolic-ref refs/remotes/origin/HEAD`, then
    /// `git rev-parse --abbrev-ref HEAD`.
    pub fn branch_commands(&self) -> (c: (GitCommand, GitCommand))
        ensures
            c.0@ == GitCommandView::SymbolicRefOriginHead,
            c.1@ == GitCommandView::RevParseAbbrevHead,
    {
        (GitCommand::SymbolicRefOriginHead, GitCommand::RevParseAbbrevHead)
    }

    /// The repository read from the outcomes of the two branch commands. The
    /// main branch is the last `/`-separated component of the remote's head
    /// reference, `main` when it cannot be read; the current branch is what
    /// `rev-parse` printed, or else the remote's head reference.
    pub fn read_branches(self, symbolic_ref: ShellOutcome, rev_parse: ShellOutcome) -> (g: GitWrapper)
        ensures
            g.main_name() == after_last(stdout_or(symbolic_ref, "main"@), '/'),
            g.current() == stdout_or(rev_parse, stdout_or(symbolic_ref, "main"@)),
    {
        let head_ref = match symbolic_ref {
            Ok(res) => res.stdout,
            Err(_) => String::from_str("main"),
        };
        let head_chars = chars_of(head_ref.as_str());
        let main_chars = after_last_chars(head_chars.as_slice(), '/');
        let main_branch = string_of(main_chars.as_slice());
        let cur_branch = match rev_parse {
            Ok(res) => res.stdout,
            Err(_) => head_ref,
        };
        GitWrapper { main_branch, cur_branch }
    }
}

/// The repository: the name of its main branch and the branch checked out.
#[derive(Debug, Clone, PartialEq, Eq)]
pub struct GitWrapper {
    pub main_branch: String,
    cur_branch: String,
}

impl GitWrapper {
    /// The branch checked out, as far as the operations have seen.
    pub closed spec fn current(&self) -> Seq<char> {
        self.cur_branch@
    }

    /// The name of the main branch.
    pub closed spec fn main_name(&self) -> Seq<char> {
        self.main_branch@
    }

    /// The name of the main branch.
    pub fn get_main_branch(&self) -> (b: &String)
        ensures
            b@ == self.main_name(),
    {
        &self.main_branch
    }

    /// A repository state with the given main and current branch.
    pub fn new(main_branch: String, cur_branch: String) -> (g: GitWrapper)
        ensures
            g.main_name() == main_branch@,
            g.current() == cur_branch@,
    {
        GitWrapper { main_branch, cur_branch }
    }

    /// The first step of reading the repository, on the outcome of
    /// `git status`: outside a repository (the command failed) it ends with
    /// `NotAGitRepository`, and no other command is to run; inside one the
    /// branches are read next (`Initialization::read_branches`).
    pub fn initialize(status: ShellOutcome) -> (r: Result<Initialization, GitError>)
        ensures
            status is Err <==> r == Err::<Initialization, GitError>(GitError::NotAGitRepository()),
            status is Ok <==> r is Ok,
    {
        match status {
            Ok(_) => Ok(Initialization { in_repository: true }),
            Err(_) => Err(GitError::NotAGitRepository()),
        }
    }

    /// Whether the outcome of `git status --porcelain` lists changes.
    pub fn has_changes(&self, outcome: ShellOutcome) -> (r: Result<bool, GitError>)
        ensures
            match outcome {
                Ok(res) => r == Ok::<bool, GitError>(lines(res.stdout@).len() > 0),
                Err(e) => r matches Err(g) && g@ == GitErrorView::CommandFailed("git status --porcelain"@, e),
            },
    {
        match outcome {
            Ok(res) => {
                let text = chars_of(res.stdout.as_str());
                let found = lines_of(text.as_slice());
                Ok(found.len() > 0)
            },
            Err(e) => Err(GitError::CommandFailed(String::from_str("git status --porcelain"), e)),
        }
    }

    /// The branch checked out.
    pub fn get_branch(&self) -> (b: &String)
        ensures
            b@ == self.current(),
    {
        &self.cur_branch
    }

    /// After `git checkout <branch>`: on success `branch` is checked out.
    pub fn checkout(&mut self, branch: &str, outcome: ShellOutcome) -> (r: Result<(), GitError>)
        ensures
            final(self).main_name() == old(self).main_name(),
            match outcome {
                Ok(_) => r is Ok && final(self).current() == branch@,
                Err(e) => r matches Err(g) && g@ == GitErrorView::CheckoutFailed(branch@, e) && final(self).current() == old(self).current(),
            },
    {
        match outcome {
            Ok(_) => {
                self.cur_branch = String::from_str(branch);
                Ok(())
            },
            Err(e) => Err(GitError::CheckoutFailed(String::from_str(branch), e)),
        }
    }

    /// After `git merge <branch>`.
    pub fn merge(&self, branch: &str, outcome: ShellOutcome) -> (r: Result<(), GitError>)
        ensures
            match outcome {
                Ok(_) => r is Ok,
                Err(e) => r matches Err(g) && g@ == GitErrorView::MergeFailed(branch@, e),
            },
    {
        match outcome {
            Ok(_) => Ok(()),
            Err(e) => Err(GitError::MergeFailed(String::from_str(branch), e)),
        }
    }

    /// After `git pull`; a failure names the current branch.
    pub fn pull(&self, outcome: ShellOutcome) -> (r: Result<(), GitError>)
        ensures
            match outcome {
                Ok(_) => r is Ok,
                Err(e) => r matches Err(g) && g@ == GitErrorView::PullFailed(self.current(), e),
            },
    {
        match outcome {
            Ok(_) => Ok(()),
            Err(e) => Err(GitError::PullFailed(self.cur_branch.clone(), e)),
        }
    }

    /// The push to run, given the outcome of `git branch -r`: a branch the
    /// remote does not list yet is pushed with `--set-upstream origin`.
    pub fn push_command(&self, remote_listing: ShellOutcome) -> (r: Result<GitCommand, GitError>)
        ensures
            match remote_listing {
                Ok(res) => if remote_branch_names(res.stdout@).contains(self.current()) {
                    r == Ok::<GitCommand, GitError>(GitCommand::Push(None))
                } else {
                    r matches Ok(GitCommand::Push(Some(b))) && b@ == self.current()
                },
                Err(e) => r == Err::<GitCommand, GitError>(GitError::ListBranchFailed(e)),
            },
    {
        match remote_listing {
            Ok(res) => {
                let remotes = parse_remote_branches(res.stdout.as_str());
                if contains_string(remotes.as_slice(), &self.cur_branch) {
                    Ok(GitCommand::Push(None))
                } else {
                    Ok(GitCommand::Push(Some(self.cur_branch.clone())))
                }
            },
            Err(e) => Err(GitError::ListBranchFailed(e)),
        }
    }

    /// After the push that `push_command` chose; a failure names the
    /// current branch.
    pub fn push(&self, outcome: ShellOutcome) -> (r: Result<(), GitError>)
        ensures
            match outcome {
                Ok(_) => r is Ok,
                Err(e) => r matches Err(g) && g@ == GitErrorView::PushFailed(self.current(), e),
            },
    {
        match outcome {
            Ok(_) => Ok(()),
            Err(e) => Err(GitError::PushFailed(self.cur_branch.clone(), e)),
        }
    }

    /// After `git push --tags`.
    pub fn push_tags(&self, outcome: ShellOutcome) -> (r: Result<(), GitError>)
        ensures
            match outcome {
                Ok(_) => r is Ok,
                Err(e) => r == Err::<(), GitError>(GitError::PushTagsFailed(e)),
            },
    {
        match outcome {
            Ok(_) => Ok(()),
            Err(e) => Err(GitError::PushTagsFailed(e)),
        }
    }

    /// After `git commit --allow-empty -m <message>`; a failure names the
    /// current branch.
    pub fn commit(&self, outcome: ShellOutcome) -> (r: Result<(), GitError>)
        ensures
            match outcome {
                Ok(_) => r is Ok,
                Err(e) => r matches Err(g) && g@ == GitErrorView::CommitFailed(self.current(), e),
            },
    {
        match outcome {
            Ok(_) => Ok(()),
            Err(e) => Err(GitError::CommitFailed(self.cur_branch.clone(), e)),
        }
    }

    /// After `git tag <name>`.
    pub fn tag(&self, name: &str, outcome: ShellOutcome) -> (r: Result<(), GitError>)
        ensures
            match outcome {
                Ok(_) => r is Ok,
                Err(e) => r matches Err(g) && g@ == GitErrorView::TagFailed(name@, e),
            },
    {
        match outcome {
            Ok(_) => Ok(()),
            Err(e) => Err(GitError::TagFailed(String::from_str(name), e)),
        }
    }

    /// After `git fetch` (with `--all`, `--prune` as asked).
    pub fn fetch(&self, outcome: ShellOutcome) -> (r: Result<(), GitError>)
        ensures
            match outcome {
                Ok(_) => r is Ok,
                Err(e) => r == Err::<(), GitError>(GitError::FetchFailed(e)),
            },
    {
        match outcome {
            Ok(_) => Ok(()),
            Err(e) => Err(GitError::FetchFailed(e)),
        }
    }

    /// After `git checkout -b <branch>`: on success `branch` is checked out.
    pub fn create_branch(&mut self, branch: &str, outcome: ShellOutcome) -> (r: Result<(), GitError>)
        ensures
            final(self).main_name() == old(self).main_name(),
            match outcome {
                Ok(_) => r is Ok && final(self).current() == branch@,
                Err(e) => r matches Err(g) && g@ == GitErrorView::BranchFailed(branch@, e)
                    && final(self).current() == old(self).current(),
            },
    {
        match outcome {
            Ok(_) => {
                self.cur_branch = String::from_str(branch);
                Ok(())
            },
            Err(e) => Err(GitError::BranchFailed(String::from_str(branch), e)),
        }
    }

    /// After `git branch -D <branch>`.
    pub fn delete_branch(&self, branch: &str, outcome: ShellOutcome) -> (r: Result<(), GitError>)
        ensures
            match outcome {
                Ok(_) => r is Ok,
                Err(e) => r matches Err(g) && g@ == GitErrorView::BranchDeletionFailed(branch@, e),
            },
    {
        match outcome {
            Ok(_) => Ok(()),
            Err(e) => Err(GitError::BranchDeletionFailed(String::from_str(branch), e)),
        }
    }

    /// The local branches listed by the outcome of `git branch`.
    pub fn get_branches(&self, outcome: ShellOutcome) -> (r: Result<Vec<String>, GitError>)
        ensures
            match outcome {
                Ok(res) => r matches Ok(v) && views(v@) == local_branch_names(res.stdout@),
                Err(e) => r == Err::<Vec<String>, GitError>(GitError::ListBranchFailed(e)),
            },
    {
        match outcome {
            Ok(res) => Ok(parse_local_branches(res.stdout.as_str())),
            Err(e) => Err(GitError::ListBranchFailed(e)),
        }
    }

    /// The remote branches listed by the outcome of `git branch -r`.
    pub fn get_remote_branches(&self, outcome: ShellOutcome) -> (r: Result<Vec<String>, GitError>)
        ensures
            match outcome {
                Ok(res) => r matches Ok(v) && views(v@) == remote_branch_names(res.stdout@),
                Err(e) => r == Err::<Vec<String>, GitError>(GitError::ListBranchFailed(e)),
            },
    {
        match outcome {
            Ok(res) => Ok(parse_remote_branches(res.stdout.as_str())),
            Err(e) => Err(GitError::ListBranchFailed(e)),
        }
    }

    /// The names of the local branches `<tpe>/<name>`.
    pub fn filter_local_branches(&self, branches: &[String], tpe: &String) -> (r: Vec<String>)
        ensures
            views(r@) == kind_names_in(views(branches@), tpe@),
    {
        kind_names(branches, tpe)
    }

    /// The names of the remote branches `<remote>/<tpe>/<name>`: each entry
    /// (cleaned as for local branches) with at least three `/`-separated
    /// parts whose second part is `tpe` gives the rest, in listing order.
    pub fn filter_remote_branches(&self, branches: &[String], tpe: &String) -> (r: Vec<String>)
        ensures
            views(r@) == remote_kind_names_in(views(branches@), tpe@),
    {
        remote_kind_names(branches, tpe)
    }

    /// The names of the local branches `release/<name>` listed by the outcome of
    /// `git branch`.
    pub fn get_releases(&self, outcome: ShellOutcome) -> (r: Result<Vec<String>, GitError>)
        ensures
            match outcome {
                Ok(res) => r matches Ok(v) && views(v@) == kind_names_in(
                    local_branch_names(res.stdout@),
                    "release"@,
                ),
                Err(e) => r == Err::<Vec<String>, GitError>(GitError::ListBranchFailed(e)),
            },
    {
        let branches = self.get_branches(outcome)?;
        Ok(self.filter_local_branches(branches.as_slice(), &String::from_str("release")))
    }

    /// The names of the local branches `feature/<name>` listed by the outcome of
    /// `git branch`.
    pub fn get_features(&self, outcome: ShellOutcome) -> (r: Result<Vec<String>, GitError>)
        ensures
            match outcome {
                Ok(res) => r matches Ok(v) && views(v@) == kind_names_in(
                    local_branch_names(res.stdout@),
                    "feature"@,
                ),
                Err(e) => r == Err::<Vec<String>, GitError>(GitError::ListBranchFailed(e)),
            },
    {
        let branches = self.get_branches(outcome)?;
        Ok(self.filter_local_branches(branches.as_slice(), &String::from_str("feature")))
    }

    /// The names of the local branches `bugfix/<name>` listed by the outcome of
    /// `git branch`.
    pub fn get_bugfixes(&self, outcome: ShellOutcome) -> (r: Result<Vec<String>, GitError>)
        ensures
            match outcome {
                Ok(res) => r matches Ok(v) && views(v@) == kind_names_in(
                    local_branch_names(res.stdout@),
                    "bugfix"@,
                ),
                Err(e) => r == Err::<Vec<String>, GitError>(GitError::ListBranchFailed(e)),
            },
    {
        let branches = self.get_branches(outcome)?;
        Ok(self.filter_local_branches(branches.as_slice(), &String::from_str("bugfix")))
    }

    /// The names of the local branches `hotfix/<name>` listed by the outcome of
    /// `git branch`.
    pub fn get_hotfixes(&self, outcome: ShellOutcome) -> (r: Result<Vec<String>, GitError>)
        ensures
            match outcome {
                Ok(res) => r matches Ok(v) && views(v@) == kind_names_in(
                    local_branch_names(res.stdout@),
                    "hotfix"@,
                ),
                Err(e) => r == Err::<Vec<String>, GitError>(GitError::ListBranchFailed(e)),
            },
    {
        let branches = self.get_branches(outcome)?;
        Ok(self.filter_local_branches(branches.as_slice(), &String::from_str("hotfix")))
    }

    /// The names of the remote branches `<remote>/release/<name>` listed by the
    /// outcome of `git branch -r`, read after `origin/` is removed from each
    /// line: a line `upstream/release/<name>` gives `<name>`, while a line
    /// `origin/release/<name>` (read as `release/<name>`) gives nothing.
    pub fn get_remote_releases(&self, outcome: ShellOutcome) -> (r: Result<Vec<String>, GitError>)
        ensures
            match outcome {
                Ok(res) => r matches Ok(v) && views(v@) == remote_kind_names_in(
                    remote_branch_names(res.stdout@),
                    "release"@,
                ),
                Err(e) => r == Err::<Vec<String>, GitError>(GitError::ListBranchFailed(e)),
            },
    {
        let branches = self.get_remote_branches(outcome)?;
        Ok(self.filter_remote_branches(branches.as_slice(), &String::from_str("release")))
    }

    /// The names of the remote branches `<remote>/feature/<name>` listed by the
    /// outcome of `git branch -r`, read after `origin/` is removed from each
    /// line: a line `upstream/feature/<name>` gives `<name>`, while a line
    /// `origin/feature/<name>` (read as `feature/<name>`) gives nothing.
    pub fn get_remote_features(&self, outcome: ShellOutcome) -> (r: Result<Vec<String>, GitError>)
        ensures
            match outcome {
                Ok(res) => r matches Ok(v) && views(v@) == remote_kind_names_in(
                    remote_branch_names(res.stdout@),
                    "feature"@,
                ),
                Err(e) => r == Err::<Vec<String>, GitError>(GitError::ListBranchFailed(e)),
            },
    {
        let branches = self.get_remote_branches(outcome)?;
        Ok(self.filter_remote_branches(branches.as_slice(), &String::from_str("feature")))
    }

    /// The names of the remote branches `<remote>/bugfix/<name>` listed by the
    /// outcome of `git branch -r`, read after `origin/` is removed from each
    /// line: a line `upstream/bugfix/<name>` gives `<name>`, while a line
    /// `origin/bugfix/<name>` (read as `bugfix/<name>`) gives nothing.
    pub fn get_remote_bugfixes(&self, outcome: ShellOutcome) -> (r: Result<Vec<String>, GitError>)
        ensures
            match outcome {
                Ok(res) => r matches Ok(v) && views(v@) == remote_kind_names_in(
                    remote_branch_names(res.stdout@),
                    "bugfix"@,
                ),
                Err(e) => r == Err::<Vec<String>, GitError>(GitError::ListBranchFailed(e)),
            },
    {
        let branches = self.get_remote_branches(outcome)?;
        Ok(self.filter_remote_branches(branches.as_slice(), &String::from_str("bugfix")))
    }

    /// The names of the remote branches `<remote>/hotfix/<name>` listed by the
    /// outcome of `git branch -r`, read after `origin/` is removed from each
    /// line: a line `upstream/hotfix/<name>` gives `<name>`, while a line
    /// `origin/hotfix/<name>` (read as `hotfix/<name>`) gives nothing.
    pub fn get_remote_hotfixes(&self, outcome: ShellOutcome) -> (r: Result<Vec<String>, GitError>)
        ensures
            match outcome {
                Ok(res) => r matches Ok(v) && views(v@) == remote_kind_names_in(
                    remote_branch_names(res.stdout@),
                    "hotfix"@,
                ),
                Err(e) => r == Err::<Vec<String>, GitError>(GitError::ListBranchFailed(e)),
            },
    {
        let branches = self.get_remote_branches(outcome)?;
        Ok(self.filter_remote_branches(branches.as_slice(), &String::from_str("hotfix")))
    }
}

} // verus!

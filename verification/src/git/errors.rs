//! The ways a `git` operation can fail.
use vstd::prelude::*;
use vstd::string::*;
use crate::shell::ShellError;

verus! {

/// A failed `git` operation, with the branch, tag or command it concerned
/// and the error of the program run.
#[derive(Debug, PartialEq, Eq)]
pub enum GitError {
    NotAGitRepository(),
    CommandFailed(String, ShellError),
    MergeFailed(String, ShellError),
    CheckoutFailed(String, ShellError),
    PullFailed(String, ShellError),
    PushFailed(String, ShellError),
    PushTagsFailed(ShellError),
    BranchFailed(String, ShellError),
    BranchDeletionFailed(String, ShellError),
    ListBranchFailed(ShellError),
    CommitFailed(String, ShellError),
    TagFailed(String, ShellError),
    FetchFailed(ShellError),
}

/// A `GitError` with its texts as character sequences.
pub enum GitErrorView {
    NotAGitRepository,
    CommandFailed(Seq<char>, ShellError),
    MergeFailed(Seq<char>, ShellError),
    CheckoutFailed(Seq<char>, ShellError),
    PullFailed(Seq<char>, ShellError),
    PushFailed(Seq<char>, ShellError),
    PushTagsFailed(ShellError),
    BranchFailed(Seq<char>, ShellError),
    BranchDeletionFailed(Seq<char>, ShellError),
    ListBranchFailed(ShellError),
    CommitFailed(Seq<char>, ShellError),
    TagFailed(Seq<char>, ShellError),
    FetchFailed(ShellError),
}

impl View for GitError {
    type V = GitErrorView;

    open spec fn view(&self) -> GitErrorView {
        match self {
            GitError::NotAGitRepository() => GitErrorView::NotAGitRepository,
            GitError::CommandFailed(cmd, err) => GitErrorView::CommandFailed(cmd@, *err),
            GitError::MergeFailed(branch, err) => GitErrorView::MergeFailed(branch@, *err),
            GitError::CheckoutFailed(branch, err) => GitErrorView::CheckoutFailed(branch@, *err),
            GitError::PullFailed(branch, err) => GitErrorView::PullFailed(branch@, *err),
            GitError::PushFailed(branch, err) => GitErrorView::PushFailed(branch@, *err),
            GitError::PushTagsFailed(err) => GitErrorView::PushTagsFailed(*err),
            GitError::BranchFailed(branch, err) => GitErrorView::BranchFailed(branch@, *err),
            GitError::BranchDeletionFailed(branch, err) => GitErrorView::BranchDeletionFailed(
                branch@,
                *err,
            ),
            GitError::ListBranchFailed(err) => GitErrorView::ListBranchFailed(*err),
            GitError::CommitFailed(branch, err) => GitErrorView::CommitFailed(branch@, *err),
            GitError::TagFailed(tag, err) => GitErrorView::TagFailed(tag@, *err),
            GitError::FetchFailed(err) => GitErrorView::FetchFailed(*err),
        }
    }
}

impl GitErrorView {
    /// The program error behind this one (`Error::source`).
    pub open spec fn source(self) -> Option<ShellError> {
        match self {
            GitErrorView::NotAGitRepository => None,
            GitErrorView::CommandFailed(_, err) => Some(err),
            GitErrorView::MergeFailed(_, err) => Some(err),
            GitErrorView::CheckoutFailed(_, err) => Some(err),
            GitErrorView::PullFailed(_, err) => Some(err),
            GitErrorView::PushFailed(_, err) => Some(err),
            GitErrorView::PushTagsFailed(err) => Some(err),
            GitErrorView::BranchFailed(_, err) => Some(err),
            GitErrorView::BranchDeletionFailed(_, err) => Some(err),
            GitErrorView::ListBranchFailed(err) => Some(err),
            GitErrorView::CommitFailed(_, err) => Some(err),
            GitErrorView::TagFailed(_, err) => Some(err),
            GitErrorView::FetchFailed(err) => Some(err),
        }
    }

    /// The first line of the description: what failed.
    pub open spec fn headline(self) -> Seq<char> {
        match self {
            GitErrorView::NotAGitRepository => "Not a git repository"@,
            GitErrorView::CommandFailed(cmd, _) => "Command '"@ + cmd + "' failed"@,
            GitErrorView::MergeFailed(branch, _) => "Could not merge "@ + branch + " branch"@,
            GitErrorView::CheckoutFailed(branch, _) => "Could not checkout "@ + branch
                + " branch"@,
            GitErrorView::PullFailed(branch, _) => "Could not pull "@ + branch
                + " branch from remote"@,
            GitErrorView::PushFailed(branch, _) => "Could not push "@ + branch
                + " branch to remote"@,
            GitErrorView::PushTagsFailed(_) => "Could not push tags"@,
            GitErrorView::BranchFailed(branch, _) => "Could not create "@ + branch + " branch"@,
            GitErrorView::BranchDeletionFailed(branch, _) => "Could not delete local branch "@
                + branch,
            GitErrorView::ListBranchFailed(_) => "Could not list local branches"@,
            GitErrorView::CommitFailed(branch, _) => "Could not commit local branch "@ + branch,
            GitErrorView::TagFailed(tag, _) => "Could not create tag "@ + tag,
            GitErrorView::FetchFailed(_) => "Could not fetch remotes"@,
        }
    }

    /// The description of the error: what failed, then what caused it.
    pub open spec fn message(self) -> Seq<char> {
        match self.source() {
            Some(err) => self.headline() + "\n  Caused by: "@ + err.spec_message(),
            None => self.headline(),
        }
    }
}

impl GitError {
    /// The program error behind this one.
    pub fn source(&self) -> (r: Option<&ShellError>)
        ensures
            match r {
                Some(e) => self@.source() == Some(*e),
                None => self@.source() is None,
            },
    {
        match self {
            GitError::NotAGitRepository() => None,
            GitError::CommandFailed(_, err) => Some(err),
            GitError::MergeFailed(_, err) => Some(err),
            GitError::CheckoutFailed(_, err) => Some(err),
            GitError::PullFailed(_, err) => Some(err),
            GitError::PushFailed(_, err) => Some(err),
            GitError::PushTagsFailed(err) => Some(err),
            GitError::BranchFailed(_, err) => Some(err),
            GitError::BranchDeletionFailed(_, err) => Some(err),
            GitError::ListBranchFailed(err) => Some(err),
            GitError::CommitFailed(_, err) => Some(err),
            GitError::TagFailed(_, err) => Some(err),
            GitError::FetchFailed(err) => Some(err),
        }
    }

    fn headline(&self) -> (m: String)
        ensures
            m@ == self@.headline(),
    {
        match self {
            GitError::NotAGitRepository() => String::from_str("Not a git repository"),
            GitError::CommandFailed(cmd, _) => {
                let mut m = String::from_str("Command '");
                m.append(cmd.as_str());
                m.append("' failed");
                m
            },
            GitError::MergeFailed(branch, _) => {
                let mut m = String::from_str("Could not merge ");
                m.append(branch.as_str());
                m.append(" branch");
                m
            },
            GitError::CheckoutFailed(branch, _) => {
                let mut m = String::from_str("Could not checkout ");
                m.append(branch.as_str());
                m.append(" branch");
                m
            },
            GitError::PullFailed(branch, _) => {
                let mut m = String::from_str("Could not pull ");
                m.append(branch.as_str());
                m.append(" branch from remote");
                m
            },
            GitError::PushFailed(branch, _) => {
                let mut m = String::from_str("Could not push ");
                m.append(branch.as_str());
                m.append(" branch to remote");
                m
            },
            GitError::PushTagsFailed(_) => String::from_str("Could not push tags"),
            GitError::BranchFailed(branch, _) => {
                let mut m = String::from_str("Could not create ");
                m.append(branch.as_str());
                m.append(" branch");
                m
            },
            GitError::BranchDeletionFailed(branch, _) => {
                let mut m = String::from_str("Could not delete local branch ");
                m.append(branch.as_str());
                m
            },
            GitError::ListBranchFailed(_) => String::from_str("Could not list local branches"),
            GitError::CommitFailed(branch, _) => {
                let mut m = String::from_str("Could not commit local branch ");
                m.append(branch.as_str());
                m
            },
            GitError::TagFailed(tag, _) => {
                let mut m = String::from_str("Could not create tag ");
                m.append(tag.as_str());
                m
            },
            GitError::FetchFailed(_) => String::from_str("Could not fetch remotes"),
        }
    }

    /// The description of the error (its `Display`).
    pub fn message(&self) -> (m: String)
        ensures
            m@ == self@.message(),
    {
        let mut m = self.headline();
        match self.source() {
            Some(err) => {
                m.append("\n  Caused by: ");
                let cause = err.message();
                m.append(cause.as_str());
            },
            None => {},
        }
        m
    }
}

} // verus!

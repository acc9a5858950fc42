use vstd::prelude::*;

verus! {

/// The process exit codes of the command line front end.
#[derive(Debug, PartialEq, Eq)]
pub enum ExitCode {
    Success,
    NotAGitRepository,
    UncommitedChanges,
}

impl ExitCode {
    /// The numeric code of each exit reason.
    pub open spec fn spec_code(self) -> i32 {
        match self {
            ExitCode::Success => 0,
            ExitCode::NotAGitRepository => 1,
            ExitCode::UncommitedChanges => 2,
        }
    }

    pub fn code(self) -> (c: i32)
        ensures
            c == self.spec_code(),
    {
        match self {
            ExitCode::Success => 0,
            ExitCode::NotAGitRepository => 1,
            ExitCode::UncommitedChanges => 2,
        }
    }
}

} // verus!

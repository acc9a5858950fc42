//! The outcome of running an external program, as the rest of the library
//! sees it.
use vstd::prelude::*;
use vstd::string::*;
use crate::text::{chars_of, decimal, decimal_of, string_of, trim, trim_chars};

verus! {

/// What a finished program left behind: its exit status and its trimmed
/// output streams.
#[derive(Debug, Clone, PartialEq, Eq)]
pub struct ShellResult {
    pub status: i32,
    pub stdout: String,
    pub stderr: String,
}

/// Why running a program did not give a usable result.
#[derive(Debug, Clone, PartialEq, Eq)]
pub enum ShellError {
    /// The program could not be started or read; holds the system's message.
    Io(String),
    /// The program ended with a non-zero status; holds it and the trimmed
    /// error output.
    BadExitStatus(i32, String),
    /// The program ended without an exit status (killed by a signal).
    UnexpectedExecutionEnd(),
}

/// The outcome of running one program.
pub type ShellOutcome = Result<ShellResult, ShellError>;

impl ShellError {
    /// The text that describes the error.
    pub open spec fn spec_message(&self) -> Seq<char> {
        match self {
            ShellError::Io(err) => "IO error: "@ + err@,
            ShellError::BadExitStatus(status, stderr) => "Program finished with status "@
                + decimal(*status as int) + ". Error output:\n  "@ + stderr@,
            ShellError::UnexpectedExecutionEnd() => "Unexpected execution end"@,
        }
    }

    /// The text that describes the error (its `Display`).
    pub fn message(&self) -> (m: String)
        ensures
            m@ == self.spec_message(),
    {
        match self {
            ShellError::Io(err) => {
                let mut m = String::from_str("IO error: ");
                m.append(err.as_str());
                m
            },
            ShellError::BadExitStatus(status, stderr) => {
                let mut m = String::from_str("Program finished with status ");
                let number = decimal_of(*status as i64);
                m.append(number.as_str());
                m.append(". Error output:\n  ");
                m.append(stderr.as_str());
                m
            },
            ShellError::UnexpectedExecutionEnd() => String::from_str("Unexpected execution end"),
        }
    }
}

/// The trimmed copy of a string.
pub fn trimmed(s: &str) -> (r: String)
    ensures
        r@ == trim(s@),
{
    let chars = chars_of(s);
    let t = trim_chars(chars.as_slice());
    string_of(t.as_slice())
}

/// What `run_shell_command` makes of a finished program: `code` is its exit
/// status (none when it was ended by a signal), `stdout` and `stderr` its
/// decoded output. Both outputs are trimmed; with `check`, a non-zero status
/// is an error that carries the trimmed error output.
pub fn command_result(code: Option<i32>, stdout: &str, stderr: &str, check: bool) -> (r:
    ShellOutcome)
    ensures
        match code {
            None => r == Err::<ShellResult, ShellError>(ShellError::UnexpectedExecutionEnd()),
            Some(status) => if check && status != 0 {
                r matches Err(ShellError::BadExitStatus(st, err)) && st == status && err@ == trim(
                    stderr@,
                )
            } else {
                r matches Ok(res) && res.status == status && res.stdout@ == trim(stdout@)
                    && res.stderr@ == trim(stderr@)
            },
        },
{
    match code {
        None => Err(ShellError::UnexpectedExecutionEnd()),
        Some(status) => {
            let out = trimmed(stdout);
            let err = trimmed(stderr);
            if check && status != 0 {
                Err(ShellError::BadExitStatus(status, err))
            } else {
                Ok(ShellResult { status, stdout: out, stderr: err })
            }
        },
    }
}

} // verus!

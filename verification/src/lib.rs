//! A git-flow helper: branch naming, git command planning, output parsing and
//! the step-by-step pipeline that drives `git` through the flows of the
//! git-flow branching model.
pub mod others;
pub mod text;
pub mod shell;
pub mod git;
pub mod logic;
pub mod laws;
pub mod ui;

//! The ways a pipeline can fail.
use vstd::prelude::*;
use vstd::string::*;
use crate::git::errors::{GitError, GitErrorView};

verus! {

/// What an execution failure wraps: a `git` error, or the error of a step.
#[derive(Debug, PartialEq, Eq)]
pub enum Failure {
    Git(GitError),
    Pipeline(PipelineError),
}

/// A pipeline that stopped: a precondition that did not hold (with the
/// `git` error that kept it from being checked, if any), or a step that
/// failed.
#[derive(Debug, PartialEq, Eq)]
pub enum PipelineError {
    PreconditionFailed(String, Option<GitError>),
    ExecutionFailed(Box<Failure>),
}

/// A `Failure` with its texts as character sequences.
pub enum FailureView {
    Git(GitErrorView),
    Pipeline(PipelineErrorView),
}

/// A `PipelineError` with its texts as character sequences.
pub enum PipelineErrorView {
    PreconditionFailed(Seq<char>, Option<GitErrorView>),
    ExecutionFailed(Box<FailureView>),
}

pub open spec fn failure_view(f: Failure) -> FailureView
    decreases f,
{
    match f {
        Failure::Git(g) => FailureView::Git(g@),
        Failure::Pipeline(p) => FailureView::Pipeline(pipeline_error_view(p)),
    }
}

pub open spec fn pipeline_error_view(e: PipelineError) -> PipelineErrorView
    decreases e,
{
    match e {
        PipelineError::PreconditionFailed(msg, cause) => PipelineErrorView::PreconditionFailed(
            msg@,
            match cause {
                Some(g) => Some(g@),
                None => None,
            },
        ),
        PipelineError::ExecutionFailed(f) => PipelineErrorView::ExecutionFailed(
            Box::new(failure_view(*f)),
        ),
    }
}

impl View for PipelineError {
    type V = PipelineErrorView;

    open spec fn view(&self) -> PipelineErrorView {
        pipeline_error_view(*self)
    }
}

/// The error a failing step ends a pipeline with: the step reports the
/// `git` error, and the pipeline reports the step's error.
pub open spec fn execution_failure(g: GitErrorView) -> PipelineErrorView {
    PipelineErrorView::ExecutionFailed(
        Box::new(
            FailureView::Pipeline(
                PipelineErrorView::ExecutionFailed(Box::new(FailureView::Git(g))),
            ),
        ),
    )
}

pub open spec fn failure_message(f: FailureView) -> Seq<char>
    decreases f,
{
    match f {
        FailureView::Git(g) => g.message(),
        FailureView::Pipeline(p) => pipeline_error_message(p),
    }
}

/// The description of a pipeline error (its `Display`): what failed, then,
/// on a line of its own, what caused it.
pub open spec fn pipeline_error_message(e: PipelineErrorView) -> Seq<char>
    decreases e,
{
    match e {
        PipelineErrorView::PreconditionFailed(msg, cause) => match cause {
            Some(g) => "Precondition failed: "@ + msg + "\n  Caused by: "@ + g.message(),
            None => "Precondition failed: "@ + msg,
        },
        PipelineErrorView::ExecutionFailed(f) => {
            let inner = failure_message(*f);
            "Execution failed: "@ + inner + "\n  Caused by: "@ + inner
        },
    }
}

impl Failure {
    /// The description of the wrapped error.
    pub fn message(&self) -> (m: String)
        ensures
            m@ == failure_message(failure_view(*self)),
        decreases self,
    {
        match self {
            Failure::Git(g) => g.message(),
            Failure::Pipeline(p) => p.message(),
        }
    }
}

impl PipelineError {
    /// The description of the error (its `Display`).
    pub fn message(&self) -> (m: String)
        ensures
            m@ == pipeline_error_message(self@),
        decreases self,
    {
        match self {
            PipelineError::PreconditionFailed(msg, cause) => {
                let mut m = String::from_str("Precondition failed: ");
                m.append(msg.as_str());
                match cause {
                    Some(g) => {
                        m.append("\n  Caused by: ");
                        let c = g.message();
                        m.append(c.as_str());
                    },
                    None => {},
                }
                m
            },
            PipelineError::ExecutionFailed(f) => {
                let inner = f.message();
                let mut m = String::from_str("Execution failed: ");
                m.append(inner.as_str());
                m.append("\n  Caused by: ");
                m.append(inner.as_str());
                m
            },
        }
    }
}

} // verus!

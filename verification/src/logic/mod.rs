//! The git-flow operations and the pipeline that carries them out.
pub mod errors;
pub mod pipeline;
pub mod flow;
pub mod feature;
pub mod bugfix;
pub mod hotfix;
pub mod release;

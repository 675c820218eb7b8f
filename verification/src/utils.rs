//! Text handling, repository access and the offline rules.

pub mod env_variable;
pub mod git;
pub mod repo;
pub mod text;

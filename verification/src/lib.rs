//! Commit-message synthesis for a local repository: scanning pending changes,
//! bounding the diff, summarising it (remotely, or offline by a fixed set of
//! rules), reviewing the candidate and committing.

pub mod api;
pub mod cli;
pub mod config;
pub mod errors;
pub mod interactive;
pub mod pipeline;
pub mod utils;

//! The summarization service.

pub mod openrouter;

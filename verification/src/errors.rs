//! What can go wrong in a run.

use vstd::prelude::*;

verus! {

/// A failure of a run, with the text that came with it.
#[derive(Debug, Clone, PartialEq, Eq)]
pub enum CommitError {
    /// The summarization service answered with a status other than success.
    OpenRouterApiFail { status: u16, message: String },
    /// The service answered with success, but with no candidate message.
    InvalidResponse,
    /// The repository refused an operation.
    GitError(String),
    /// The repository has no commit that HEAD points at.
    NoHead(String),
    /// The request did not reach the service, or its answer did not arrive.
    HttpError(String),
    /// A JSON text could not be read.
    JsonError(String),
    /// The settings make no sense.
    ConfigError(String),
    /// Nothing is staged and nothing is changed in the working tree.
    NoChanges,
    /// A step of a git operation failed outside the repository library.
    GitOperationError(String),
    /// The file system refused an access.
    IoError(String),
    /// No settings file is where it was said to be.
    ConfigNotFound(String),
    /// The terminal dialogue failed.
    DialoguerError(String),
    /// A settings file could not be read as TOML.
    TomlDeError(String),
    /// The settings could not be written as TOML.
    TomlSerError(String),
}

/// The mathematical content of a `CommitError`.
pub enum CommitErrorView {
    OpenRouterApiFail { status: u16, message: Seq<char> },
    InvalidResponse,
    GitError(Seq<char>),
    NoHead(Seq<char>),
    HttpError(Seq<char>),
    JsonError(Seq<char>),
    ConfigError(Seq<char>),
    NoChanges,
    GitOperationError(Seq<char>),
    IoError(Seq<char>),
    ConfigNotFound(Seq<char>),
    DialoguerError(Seq<char>),
    TomlDeError(Seq<char>),
    TomlSerError(Seq<char>),
}

impl View for CommitError {
    type V = CommitErrorView;

    open spec fn view(&self) -> CommitErrorView {
        match self {
            CommitError::OpenRouterApiFail { status, message } => CommitErrorView::OpenRouterApiFail {
                status: *status,
                message: message@,
            },
            CommitError::InvalidResponse => CommitErrorView::InvalidResponse,
            CommitError::GitError(text) => CommitErrorView::GitError(text@),
            CommitError::NoHead(text) => CommitErrorView::NoHead(text@),
            CommitError::HttpError(text) => CommitErrorView::HttpError(text@),
            CommitError::JsonError(text) => CommitErrorView::JsonError(text@),
            CommitError::ConfigError(text) => CommitErrorView::ConfigError(text@),
            CommitError::NoChanges => CommitErrorView::NoChanges,
            CommitError::GitOperationError(text) => CommitErrorView::GitOperationError(text@),
            CommitError::IoError(text) => CommitErrorView::IoError(text@),
            CommitError::ConfigNotFound(text) => CommitErrorView::ConfigNotFound(text@),
            CommitError::DialoguerError(text) => CommitErrorView::DialoguerError(text@),
            CommitError::TomlDeError(text) => CommitErrorView::TomlDeError(text@),
            CommitError::TomlSerError(text) => CommitErrorView::TomlSerError(text@),
        }
    }
}

/// The view of a result of the library: the view of what it holds.
pub open spec fn result_view<T: View>(result: Result<T, CommitError>) -> Result<
    T::V,
    CommitErrorView,
> {
    match result {
        Ok(value) => Ok(value@),
        Err(error) => Err(error@),
    }
}

} // verus!

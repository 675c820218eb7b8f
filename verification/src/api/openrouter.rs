//! The chat exchange with the summarization service: what is asked, and how
//! the answer is read.

use crate::errors::{result_view, CommitError, CommitErrorView};
use crate::utils::text::{join_strings, joined, texts_of, trim, trimmed};
use vstd::prelude::*;
use vstd::string::*;

verus! {

/// Where the chat request is posted.
pub const ENDPOINT: &'static str = "https://openrouter.ai/api/v1/chat/completions";

/// How many seconds an answer is waited for.
pub const REQUEST_TIMEOUT_SECS: u64 = 30;

/// The role of the one message of a request.
pub const USER_ROLE: &'static str = "user";

/// How the prompt starts, up to the file names.
pub const PROMPT_OPENING: &'static str =
    "Generate a concise, meaningful commit message for the following changes:\n\nFiles changed: ";

/// What stands in the prompt between the file names and the diff.
pub const PROMPT_DIFF_HEADING: &'static str = "\n\nDiff:\n";

/// How the prompt ends, after the diff.
pub const PROMPT_CLOSING: &'static str =
    "\n\nPlease provide only the commit message, no explanations or quotes. Follow conventional commit format if applicable.";

/// What a summary is asked of, and how.
#[derive(Debug, Clone, PartialEq, Eq)]
pub struct GenerationRequest {
    pub files: Vec<String>,
    pub diff: String,
    pub model: String,
    pub max_tokens: u32,
    /// Sampling temperature, in thousandths.
    pub temperature_milli: u32,
}

/// The mathematical content of a `GenerationRequest`.
pub struct GenerationRequestView {
    pub files: Seq<Seq<char>>,
    pub diff: Seq<char>,
    pub model: Seq<char>,
    pub max_tokens: u32,
    pub temperature_milli: u32,
}

impl View for GenerationRequest {
    type V = GenerationRequestView;

    open spec fn view(&self) -> GenerationRequestView {
        GenerationRequestView {
            files: texts_of(self.files@),
            diff: self.diff@,
            model: self.model@,
            max_tokens: self.max_tokens,
            temperature_milli: self.temperature_milli,
        }
    }
}

/// One message of a chat.
#[derive(Debug, Clone, PartialEq, Eq)]
pub struct ChatMessage {
    pub role: String,
    pub content: String,
}

/// The body of a chat request.
#[derive(Debug, Clone, PartialEq, Eq)]
pub struct ChatRequest {
    pub model: String,
    pub messages: Vec<ChatMessage>,
    pub max_tokens: u32,
    /// Sampling temperature, in thousandths.
    pub temperature_milli: u32,
}

/// The message of one candidate answer.
#[derive(Debug, Clone, PartialEq, Eq)]
pub struct ResponseMessage {
    pub content: String,
}

/// One candidate answer.
#[derive(Debug, Clone, PartialEq, Eq)]
pub struct Choice {
    pub message: ResponseMessage,
}

/// The body of a successful answer.
#[derive(Debug, Clone, PartialEq, Eq)]
pub struct ChatResponse {
    pub choices: Vec<Choice>,
}

impl ChatResponse {
    /// The texts of the candidates, in order.
    pub open spec fn candidates(&self) -> Seq<Seq<char>> {
        Seq::new(self.choices@.len(), |i: int| self.choices@[i].message.content@)
    }
}

/// The prompt for the files `files` and the diff `diff`.
pub open spec fn commit_prompt(files: Seq<Seq<char>>, diff: Seq<char>) -> Seq<char> {
    PROMPT_OPENING@ + joined(files, ", "@) + PROMPT_DIFF_HEADING@ + diff + PROMPT_CLOSING@
}

/// The prompt that asks for a commit message for the given files and diff.
pub fn format_commit_prompt(files: &[String], diff_content: &str) -> (prompt: String)
    ensures
        prompt@ == commit_prompt(texts_of(files@), diff_content@),
{
    let mut prompt = PROMPT_OPENING.to_owned();
    let names = join_strings(files, ", ");
    prompt.append(names.as_str());
    prompt.append(PROMPT_DIFF_HEADING);
    prompt.append(diff_content);
    prompt.append(PROMPT_CLOSING);
    prompt
}

/// The value of the authorization header for the credential `api_key`.
pub fn bearer_token(api_key: &str) -> (value: String)
    ensures
        value@ == "Bearer "@ + api_key@,
{
    let mut value = "Bearer ".to_owned();
    value.append(api_key);
    value
}

/// The chat request for `request`: one message of the user, which holds the
/// prompt, with the model and the parameters of `request`.
pub fn build_chat_request(request: &GenerationRequest) -> (chat: ChatRequest)
    ensures
        chat.model@ == request@.model,
        chat.messages@.len() == 1,
        chat.messages@[0].role@ == USER_ROLE@,
        chat.messages@[0].content@ == commit_prompt(request@.files, request@.diff),
        chat.max_tokens == request@.max_tokens,
        chat.temperature_milli == request@.temperature_milli,
{
    let content = format_commit_prompt(request.files.as_slice(), request.diff.as_str());
    let mut messages: Vec<ChatMessage> = Vec::new();
    messages.push(ChatMessage { role: USER_ROLE.to_owned(), content });
    ChatRequest {
        model: request.model.clone(),
        messages,
        max_tokens: request.max_tokens,
        temperature_milli: request.temperature_milli,
    }
}

/// A status of the 2xx class.
pub open spec fn is_success(status: u16) -> bool {
    200 <= status < 300
}

/// Whether `status` says that the request succeeded.
pub fn status_is_success(status: u16) -> (ok: bool)
    ensures
        ok == is_success(status),
{
    200 <= status && status < 300
}

/// The message that the candidates of a successful answer give: the first
/// one, trimmed. Without a candidate the answer is invalid.
pub open spec fn candidate_outcome(candidates: Seq<Seq<char>>) -> Result<
    Seq<char>,
    CommitErrorView,
> {
    if candidates.len() > 0 {
        Ok(trimmed(candidates[0]))
    } else {
        Err(CommitErrorView::InvalidResponse)
    }
}

/// What an answer of the service amounts to. A status other than success is
/// a failure of the service, with the status and the body as they came. A
/// success whose body is no chat response, or holds no candidate, is an
/// invalid response. Any other answer gives its first candidate, trimmed.
pub open spec fn reply_outcome(
    status: u16,
    body: Seq<char>,
    candidates: Option<Seq<Seq<char>>>,
) -> Result<Seq<char>, CommitErrorView> {
    if !is_success(status) {
        Err(CommitErrorView::OpenRouterApiFail { status, message: body })
    } else {
        match candidates {
            Some(texts) => candidate_outcome(texts),
            None => Err(CommitErrorView::InvalidResponse),
        }
    }
}

/// The candidates of a body that was read as a chat response, if it was.
pub open spec fn parsed_candidates(parsed: Option<ChatResponse>) -> Option<Seq<Seq<char>>> {
    match parsed {
        Some(response) => Some(response.candidates()),
        None => None,
    }
}

/// The message that a successful answer proposes.
pub fn first_candidate(response: &ChatResponse) -> (outcome: Result<String, CommitError>)
    ensures
        result_view(outcome) == candidate_outcome(response.candidates()),
{
    if response.choices.len() == 0 {
        Err(CommitError::InvalidResponse)
    } else {
        Ok(trim(response.choices[0].message.content.as_str()))
    }
}

/// Reads an answer of the service: `status` and `body` as they came, and
/// `parsed`, the body read as a chat response, or `None` where it is none.
pub fn read_reply(status: u16, body: String, parsed: Option<ChatResponse>) -> (outcome: Result<
    String,
    CommitError,
>)
    ensures
        result_view(outcome) == reply_outcome(status, body@, parsed_candidates(parsed)),
{
    if !status_is_success(status) {
        return Err(CommitError::OpenRouterApiFail { status, message: body });
    }
    match parsed {
        Some(response) => first_candidate(&response),
        None => Err(CommitError::InvalidResponse),
    }
}

} // verus!

use rusty_commit::api::openrouter::{
    bearer_token, build_chat_request, first_candidate, format_commit_prompt, read_reply,
    status_is_success, ChatResponse, Choice, GenerationRequest, ResponseMessage, ENDPOINT,
    REQUEST_TIMEOUT_SECS,
};
use rusty_commit::errors::CommitError;

fn response(contents: &[&str]) -> ChatResponse {
    ChatResponse {
        choices: contents
            .iter()
            .map(|content| Choice { message: ResponseMessage { content: content.to_string() } })
            .collect(),
    }
}

#[test]
fn prompt_embeds_files_and_diff() {
    let files = vec!["src/a.rs".to_string(), "src/b.rs".to_string()];
    let prompt = format_commit_prompt(&files, "+ fn a() {}\n");
    assert_eq!(
        prompt,
        "Generate a concise, meaningful commit message for the following changes:\n\n\
         Files changed: src/a.rs, src/b.rs\n\n\
         Diff:\n+ fn a() {}\n\n\n\
         Please provide only the commit message, no explanations or quotes. \
         Follow conventional commit format if applicable."
    );
}

#[test]
fn prompt_of_nothing_keeps_its_frame() {
    assert_eq!(
        format_commit_prompt(&[], ""),
        "Generate a concise, meaningful commit message for the following changes:\n\n\
         Files changed: \n\n\
         Diff:\n\n\n\
         Please provide only the commit message, no explanations or quotes. \
         Follow conventional commit format if applicable."
    );
}

#[test]
fn endpoint_is_the_chat_completions_url() {
    assert_eq!(ENDPOINT, "https://openrouter.ai/api/v1/chat/completions");
    assert_eq!(REQUEST_TIMEOUT_SECS, 30);
}

#[test]
fn bearer_token_prefixes_the_credential() {
    assert_eq!(bearer_token("sk-123"), "Bearer sk-123");
    assert_eq!(bearer_token(""), "Bearer ");
}

#[test]
fn chat_request_holds_one_user_message_with_the_prompt() {
    let request = GenerationRequest {
        files: vec!["a.rs".to_string()],
        diff: "+x".to_string(),
        model: "openai/gpt-3.5-turbo".to_string(),
        max_tokens: 150,
        temperature_milli: 700,
    };
    let chat = build_chat_request(&request);
    assert_eq!(chat.model, "openai/gpt-3.5-turbo");
    assert_eq!(chat.messages.len(), 1);
    assert_eq!(chat.messages[0].role, "user");
    assert_eq!(chat.messages[0].content, format_commit_prompt(&request.files, "+x"));
    assert_eq!(chat.max_tokens, 150);
    assert_eq!(chat.temperature_milli, 700);
}

#[test]
fn success_is_the_2xx_class() {
    assert!(!status_is_success(199));
    assert!(status_is_success(200));
    assert!(status_is_success(204));
    assert!(status_is_success(299));
    assert!(!status_is_success(300));
    assert!(!status_is_success(404));
    assert!(!status_is_success(500));
    assert!(!status_is_success(0));
}

#[test]
fn first_candidate_is_trimmed() {
    let answer = response(&["  feat: add parser \n", "other"]);
    assert_eq!(first_candidate(&answer), Ok("feat: add parser".to_string()));
}

#[test]
fn answer_without_candidates_is_invalid() {
    assert_eq!(first_candidate(&response(&[])), Err(CommitError::InvalidResponse));
}

#[test]
fn empty_candidate_is_still_a_candidate() {
    assert_eq!(first_candidate(&response(&["   "])), Ok(String::new()));
}

#[test]
fn reply_with_success_gives_the_first_candidate() {
    let outcome = read_reply(200, "{...}".to_string(), Some(response(&["\nfix: typo\n"])));
    assert_eq!(outcome, Ok("fix: typo".to_string()));
}

#[test]
fn reply_with_failure_status_gives_status_and_body() {
    let outcome = read_reply(429, "rate limited".to_string(), None);
    assert_eq!(
        outcome,
        Err(CommitError::OpenRouterApiFail { status: 429, message: "rate limited".to_string() })
    );
}

#[test]
fn failure_status_wins_over_a_readable_body() {
    let outcome = read_reply(500, "oops".to_string(), Some(response(&["fix: typo"])));
    assert_eq!(
        outcome,
        Err(CommitError::OpenRouterApiFail { status: 500, message: "oops".to_string() })
    );
}

#[test]
fn success_with_unreadable_body_is_invalid() {
    assert_eq!(read_reply(200, "<html>".to_string(), None), Err(CommitError::InvalidResponse));
}

#[test]
fn success_without_candidates_is_invalid() {
    assert_eq!(
        read_reply(200, "{\"choices\":[]}".to_string(), Some(response(&[]))),
        Err(CommitError::InvalidResponse)
    );
}

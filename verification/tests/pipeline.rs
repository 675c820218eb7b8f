use rusty_commit::api::openrouter::{read_reply, GenerationRequest};
use rusty_commit::cli::{Cli, Plan};
use rusty_commit::config::Config;
use rusty_commit::errors::CommitError;
use rusty_commit::interactive::{ReviewGates, ReviewInput, ReviewQuestion, ReviewState};
use rusty_commit::pipeline::{
    action_for, resolve_candidate, run_options, run_start, run_step, select_changes,
    DiffSelection, GenerationOutcome, RunAction, RunEvent, RunMode, RunOptions, RunResult,
    RunState,
};
use rusty_commit::utils::git::{
    filter_diff_content, generate_fallback_message, CommitId, GitChanges,
};

fn text(s: &str) -> String {
    s.to_string()
}

fn options(mode: RunMode, edit: bool, confirm: bool) -> RunOptions {
    RunOptions {
        mode,
        gates: ReviewGates { edit, confirm },
        model: text("openai/gpt-3.5-turbo"),
        max_diff_lines: 1000,
        max_tokens: 150,
        temperature_milli: 700,
    }
}

fn both_scopes() -> GitChanges {
    GitChanges {
        staged_files: vec![text("staged.rs")],
        unstaged_files: vec![text("loose.rs")],
        staged_diff: text("+ staged line\n"),
        unstaged_diff: text("+ loose line\n"),
    }
}

fn unstaged_only() -> GitChanges {
    GitChanges {
        staged_files: vec![],
        unstaged_files: vec![text("loose.rs")],
        staged_diff: text(""),
        unstaged_diff: text("+ loose line\n"),
    }
}

fn no_changes() -> GitChanges {
    GitChanges {
        staged_files: vec![],
        unstaged_files: vec![],
        staged_diff: text(""),
        unstaged_diff: text(""),
    }
}

fn chosen() -> DiffSelection {
    DiffSelection { files: vec![text("math.rs")], diff: text("+ fn add() {}\n- fn sub() {}\n") }
}

fn commit_id() -> CommitId {
    CommitId { bytes: vec![7; 20] }
}

#[test]
fn run_starts_with_the_scan() {
    assert_eq!(run_start(), (RunState::Scanning, RunAction::Scan));
}

#[test]
fn staged_scope_is_chosen_where_both_hold_a_diff() {
    assert_eq!(
        select_changes(both_scopes()),
        Ok(DiffSelection { files: vec![text("staged.rs")], diff: text("+ staged line\n") })
    );
}

#[test]
fn unstaged_scope_is_chosen_where_nothing_is_staged() {
    assert_eq!(
        select_changes(unstaged_only()),
        Ok(DiffSelection { files: vec![text("loose.rs")], diff: text("+ loose line\n") })
    );
}

#[test]
fn staged_files_without_a_staged_diff_give_way_to_the_unstaged_scope() {
    let changes = GitChanges {
        staged_files: vec![text("mode.sh")],
        unstaged_files: vec![text("loose.rs")],
        staged_diff: text(""),
        unstaged_diff: text("+ loose line\n"),
    };
    assert_eq!(
        select_changes(changes),
        Ok(DiffSelection { files: vec![text("loose.rs")], diff: text("+ loose line\n") })
    );
}

#[test]
fn selection_of_no_changes_is_no_changes() {
    assert_eq!(select_changes(no_changes()), Err(CommitError::NoChanges));
}

#[test]
fn scan_with_both_scopes_asks_for_a_summary_of_the_staged_one() {
    let opts = options(RunMode::GenerateOnly, false, true);
    let (state, action) = run_step(&opts, RunState::Scanning, RunEvent::Scanned(Ok(both_scopes())));
    assert_eq!(
        state,
        RunState::Summarizing(DiffSelection {
            files: vec![text("staged.rs")],
            diff: text("+ staged line\n")
        })
    );
    assert_eq!(
        action,
        RunAction::Summarize(GenerationRequest {
            files: vec![text("staged.rs")],
            diff: text("+ staged line\n"),
            model: text("openai/gpt-3.5-turbo"),
            max_tokens: 150,
            temperature_milli: 700,
        })
    );
}

#[test]
fn scan_without_changes_ends_the_run_and_asks_for_nothing() {
    for mode in [RunMode::GenerateOnly, RunMode::Commit { message: None }] {
        let opts = options(mode, true, true);
        let (state, action) =
            run_step(&opts, RunState::Scanning, RunEvent::Scanned(Ok(no_changes())));
        assert_eq!(state, RunState::Finished(RunResult::NoChanges));
        assert_eq!(action, RunAction::Stop);
        let (state, action) = run_step(&opts, state, RunEvent::Summarized(Ok(text("late"))));
        assert_eq!(state, RunState::Finished(RunResult::NoChanges));
        assert_eq!(action, RunAction::Stop);
        let (state, action) = run_step(&opts, state, RunEvent::Committed(Ok(commit_id())));
        assert_eq!(state, RunState::Finished(RunResult::NoChanges));
        assert_eq!(action, RunAction::Stop);
    }
}

#[test]
fn no_changes_is_no_failure() {
    assert_eq!(RunResult::NoChanges.exit_code(), 0);
}

#[test]
fn failed_scan_fails_the_run() {
    let opts = options(RunMode::GenerateOnly, false, true);
    let (state, action) = run_step(
        &opts,
        RunState::Scanning,
        RunEvent::Scanned(Err(CommitError::NoHead(text("unborn")))),
    );
    assert_eq!(state, RunState::Finished(RunResult::Failed(CommitError::NoHead(text("unborn")))));
    assert_eq!(action, RunAction::Stop);
    match state {
        RunState::Finished(result) => assert_eq!(result.exit_code(), 1),
        _ => unreachable!(),
    }
}

#[test]
fn request_carries_the_bounded_diff() {
    let mut long = String::new();
    for i in 0..40 {
        long.push_str(&format!("+ line {}\n", i));
    }
    let changes = GitChanges {
        staged_files: vec![text("big.rs")],
        unstaged_files: vec![],
        staged_diff: long.clone(),
        unstaged_diff: text(""),
    };
    let opts = RunOptions { max_diff_lines: 30, ..options(RunMode::GenerateOnly, false, true) };
    let (_, action) = run_step(&opts, RunState::Scanning, RunEvent::Scanned(Ok(changes)));
    match action {
        RunAction::Summarize(request) => {
            assert_eq!(request.diff, filter_diff_content(&long, 30));
            assert_eq!(request.diff.split('\n').count(), 21);
        }
        other => panic!("unexpected action {:?}", other),
    }
}

#[test]
fn summary_ends_a_run_that_only_generates() {
    let opts = options(RunMode::GenerateOnly, true, true);
    let (state, action) = run_step(
        &opts,
        RunState::Summarizing(chosen()),
        RunEvent::Summarized(Ok(text("feat: add"))),
    );
    assert_eq!(
        state,
        RunState::Finished(RunResult::Generated(GenerationOutcome::Generated(text("feat: add"))))
    );
    assert_eq!(action, RunAction::Stop);
}

#[test]
fn failed_service_degrades_to_the_offline_rules() {
    let opts = options(RunMode::GenerateOnly, false, true);
    let reply = read_reply(503, text("unavailable"), None);
    let reason = CommitError::OpenRouterApiFail { status: 503, message: text("unavailable") };
    assert_eq!(reply, Err(reason.clone()));
    let expected = generate_fallback_message(&chosen().files, &chosen().diff);
    assert_eq!(expected, "Update math.rs");
    let (state, action) =
        run_step(&opts, RunState::Summarizing(chosen()), RunEvent::Summarized(reply));
    assert_eq!(
        state,
        RunState::Finished(RunResult::Generated(GenerationOutcome::FallbackUsed(
            expected, reason
        )))
    );
    assert_eq!(action, RunAction::Stop);
    match state {
        RunState::Finished(result) => assert_eq!(result.exit_code(), 0),
        _ => unreachable!(),
    }
}

#[test]
fn every_failure_of_the_request_falls_back() {
    for reason in [
        CommitError::InvalidResponse,
        CommitError::HttpError(text("timed out")),
        CommitError::JsonError(text("eof")),
        CommitError::IoError(text("interrupted")),
    ] {
        let outcome = resolve_candidate(&chosen(), Err(reason.clone()));
        assert_eq!(outcome, GenerationOutcome::FallbackUsed(text("Update math.rs"), reason));
        assert_eq!(outcome.into_message(), "Update math.rs");
    }
}

#[test]
fn summary_is_the_candidate_where_the_request_succeeds() {
    let outcome = resolve_candidate(&chosen(), Ok(text("feat: add")));
    assert_eq!(outcome, GenerationOutcome::Generated(text("feat: add")));
    assert_eq!(outcome.into_message(), "feat: add");
}

#[test]
fn forced_commit_after_a_failed_service_commits_the_fallback() {
    let opts = options(RunMode::Commit { message: None }, false, false);
    let (state, action) = run_step(
        &opts,
        RunState::Summarizing(chosen()),
        RunEvent::Summarized(Err(CommitError::HttpError(text("timed out")))),
    );
    assert_eq!(state, RunState::Committing(text("Update math.rs")));
    assert_eq!(action, RunAction::Commit(text("Update math.rs")));
    let (state, action) = run_step(&opts, state, RunEvent::Committed(Ok(commit_id())));
    assert_eq!(
        state,
        RunState::Finished(RunResult::Committed {
            message: text("Update math.rs"),
            id: commit_id()
        })
    );
    assert_eq!(action, RunAction::Stop);
}

#[test]
fn given_message_skips_the_summary() {
    let opts = options(RunMode::Commit { message: Some(text("chore: mine")) }, false, true);
    let (state, action) = run_step(&opts, RunState::Scanning, RunEvent::Scanned(Ok(both_scopes())));
    assert_eq!(state, RunState::Reviewing(ReviewState::Accepted(text("chore: mine"))));
    assert_eq!(action, RunAction::Ask(ReviewQuestion::CommitMessage(text("chore: mine"))));
}

#[test]
fn given_message_with_no_changes_commits_nothing() {
    let opts = options(RunMode::Commit { message: Some(text("chore: mine")) }, false, false);
    let (state, action) = run_step(&opts, RunState::Scanning, RunEvent::Scanned(Ok(no_changes())));
    assert_eq!(state, RunState::Finished(RunResult::NoChanges));
    assert_eq!(action, RunAction::Stop);
}

#[test]
fn interactive_commit_passes_both_gates() {
    let opts = options(RunMode::Commit { message: None }, true, true);
    let (state, action) = run_step(&opts, RunState::Scanning, RunEvent::Scanned(Ok(unstaged_only())));
    assert!(matches!(action, RunAction::Summarize(_)));
    let (state, action) = run_step(&opts, state, RunEvent::Summarized(Ok(text("feat: loose"))));
    assert_eq!(action, RunAction::Ask(ReviewQuestion::UseMessage(text("feat: loose"))));
    let (state, action) = run_step(&opts, state, RunEvent::Reviewed(ReviewInput::Answer(false)));
    assert_eq!(action, RunAction::Ask(ReviewQuestion::EditMessage(text("feat: loose"))));
    let (state, action) =
        run_step(&opts, state, RunEvent::Reviewed(ReviewInput::Text(text("feat: better"))));
    assert_eq!(action, RunAction::Ask(ReviewQuestion::CommitMessage(text("feat: better"))));
    let (state, action) = run_step(&opts, state, RunEvent::Reviewed(ReviewInput::Answer(true)));
    assert_eq!(state, RunState::Committing(text("feat: better")));
    assert_eq!(action, RunAction::Commit(text("feat: better")));
    let (state, action) = run_step(&opts, state, RunEvent::Committed(Ok(commit_id())));
    assert_eq!(
        state,
        RunState::Finished(RunResult::Committed { message: text("feat: better"), id: commit_id() })
    );
    assert_eq!(action, RunAction::Stop);
}

#[test]
fn no_at_the_commit_gate_cancels_without_a_commit() {
    let opts = options(RunMode::Commit { message: None }, false, true);
    let (state, action) = run_step(
        &opts,
        RunState::Summarizing(chosen()),
        RunEvent::Summarized(Ok(text("feat: add"))),
    );
    assert_eq!(action, RunAction::Ask(ReviewQuestion::CommitMessage(text("feat: add"))));
    let (state, action) = run_step(&opts, state, RunEvent::Reviewed(ReviewInput::Answer(false)));
    assert_eq!(state, RunState::Finished(RunResult::Cancelled));
    assert_eq!(action, RunAction::Stop);
    assert_eq!(RunResult::Cancelled.exit_code(), 0);
}

#[test]
fn failed_commit_fails_the_run_and_is_not_tried_again() {
    let opts = options(RunMode::Commit { message: None }, false, false);
    let failure = CommitError::GitError(text("cannot create commit"));
    let (state, action) = run_step(
        &opts,
        RunState::Committing(text("feat: add")),
        RunEvent::Committed(Err(failure.clone())),
    );
    assert_eq!(state, RunState::Finished(RunResult::Failed(failure.clone())));
    assert_eq!(action, RunAction::Stop);
    let (state, action) = run_step(&opts, state, RunEvent::Reviewed(ReviewInput::Answer(true)));
    assert_eq!(state, RunState::Finished(RunResult::Failed(failure)));
    assert_eq!(action, RunAction::Stop);
}

#[test]
fn event_that_is_not_awaited_changes_nothing() {
    let opts = options(RunMode::Commit { message: None }, true, true);
    let (state, action) = run_step(&opts, RunState::Scanning, RunEvent::Summarized(Ok(text("x"))));
    assert_eq!(state, RunState::Scanning);
    assert_eq!(action, RunAction::Scan);
    let (state, action) = run_step(
        &opts,
        RunState::Summarizing(chosen()),
        RunEvent::Committed(Ok(commit_id())),
    );
    assert_eq!(state, RunState::Summarizing(chosen()));
    assert!(matches!(action, RunAction::Summarize(_)));
    let (state, action) = run_step(
        &opts,
        RunState::Committing(text("m")),
        RunEvent::Reviewed(ReviewInput::Answer(false)),
    );
    assert_eq!(state, RunState::Committing(text("m")));
    assert_eq!(action, RunAction::Commit(text("m")));
}

#[test]
fn action_for_names_what_each_state_awaits() {
    let opts = options(RunMode::Commit { message: None }, true, true);
    assert_eq!(action_for(&opts, &RunState::Scanning), RunAction::Scan);
    assert_eq!(
        action_for(&opts, &RunState::Reviewing(ReviewState::Presented(text("m")))),
        RunAction::Ask(ReviewQuestion::UseMessage(text("m")))
    );
    assert_eq!(action_for(&opts, &RunState::Committing(text("m"))), RunAction::Commit(text("m")));
    assert_eq!(action_for(&opts, &RunState::Finished(RunResult::Cancelled)), RunAction::Stop);
}

#[test]
fn run_options_follow_command_line_and_settings() {
    let cli = Cli {
        command: None,
        dry_run: false,
        interactive: true,
        force: true,
        verbose: false,
        model: text("ignored-here"),
        api_key: None,
        config: None,
    };
    let config = Config { max_diff_lines: 42, ..Config::default() };
    let opts = run_options(Plan::Commit { message: Some(text("m")) }, &cli, &config).unwrap();
    assert_eq!(opts.mode, RunMode::Commit { message: Some(text("m")) });
    assert_eq!(opts.gates, ReviewGates { edit: true, confirm: false });
    assert_eq!(opts.model, "openai/gpt-3.5-turbo");
    assert_eq!(opts.max_diff_lines, 42);
    assert_eq!(opts.max_tokens, 150);
    assert_eq!(opts.temperature_milli, 700);
    let opts = run_options(Plan::Generate, &cli, &config).unwrap();
    assert_eq!(opts.mode, RunMode::GenerateOnly);
}

#[test]
fn plans_that_are_no_run_have_no_options() {
    let cli = Cli {
        command: None,
        dry_run: false,
        interactive: false,
        force: false,
        verbose: false,
        model: text("m"),
        api_key: None,
        config: None,
    };
    let config = Config::default();
    for plan in [
        Plan::SetApiKey,
        Plan::SetModel { model: text("m") },
        Plan::ShowConfig,
        Plan::InstallHook,
        Plan::Usage,
    ] {
        assert_eq!(run_options(plan, &cli, &config), None);
    }
}

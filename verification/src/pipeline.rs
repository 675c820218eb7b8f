//! A run from the scan of the repository to the commit, as a state machine.
//!
//! The library decides and the caller acts: `run_step` takes the state and
//! what happened, and gives the next state and what to do next. The caller
//! scans, asks the service, asks the human and commits, and hands each
//! outcome back as an event.

use crate::api::openrouter::{
    is_success, reply_outcome, GenerationRequest, GenerationRequestView,
};
use crate::cli::{Cli, Plan, PlanView};
use crate::config::Config;
use crate::errors::{result_view, CommitError, CommitErrorView};
use crate::interactive::{
    begin_review, review_next, review_opening, review_step, ReviewGates, ReviewInput,
    ReviewInputView, ReviewQuestion, ReviewQuestionView, ReviewState, ReviewStateView,
};
use crate::utils::git::{
    fallback_message, filter_diff_content, filtered_diff, generate_fallback_message, CommitId,
    GitChanges, GitChangesView,
};
use crate::utils::text::{lowercase_of, option_text, texts_of};
use vstd::prelude::*;

verus! {

/// The working set of a run: the files and the diff of one scope.
#[derive(Debug, Clone, PartialEq, Eq)]
pub struct DiffSelection {
    pub files: Vec<String>,
    pub diff: String,
}

/// The mathematical content of a `DiffSelection`.
pub struct DiffSelectionView {
    pub files: Seq<Seq<char>>,
    pub diff: Seq<char>,
}

impl View for DiffSelection {
    type V = DiffSelectionView;

    open spec fn view(&self) -> DiffSelectionView {
        DiffSelectionView { files: texts_of(self.files@), diff: self.diff@ }
    }
}

/// The working set that `changes` give. Without a changed file in either
/// scope there is none. Else it is the staged scope if the staged diff is not
/// empty, and the unstaged scope if it is: never a mix of both.
pub open spec fn selection(changes: GitChangesView) -> Result<DiffSelectionView, CommitErrorView> {
    if changes.staged_files.len() == 0 && changes.unstaged_files.len() == 0 {
        Err(CommitErrorView::NoChanges)
    } else if changes.staged_diff.len() > 0 {
        Ok(DiffSelectionView { files: changes.staged_files, diff: changes.staged_diff })
    } else {
        Ok(DiffSelectionView { files: changes.unstaged_files, diff: changes.unstaged_diff })
    }
}

/// Chooses the working set of a run.
pub fn select_changes(changes: GitChanges) -> (chosen: Result<DiffSelection, CommitError>)
    ensures
        result_view(chosen) == selection(changes@),
{
    if changes.staged_files.len() == 0 && changes.unstaged_files.len() == 0 {
        Err(CommitError::NoChanges)
    } else if !changes.staged_diff.as_str().is_empty() {
        Ok(DiffSelection { files: changes.staged_files, diff: changes.staged_diff })
    } else {
        Ok(DiffSelection { files: changes.unstaged_files, diff: changes.unstaged_diff })
    }
}

/// What a run is for.
#[derive(Debug, Clone, PartialEq, Eq)]
pub enum RunMode {
    /// A message is generated and reported; nothing is committed.
    GenerateOnly,
    /// A commit is made, with the given message or a generated one.
    Commit { message: Option<String> },
}

/// The mathematical content of a `RunMode`.
pub enum RunModeView {
    GenerateOnly,
    Commit { message: Option<Seq<char>> },
}

impl View for RunMode {
    type V = RunModeView;

    open spec fn view(&self) -> RunModeView {
        match self {
            RunMode::GenerateOnly => RunModeView::GenerateOnly,
            RunMode::Commit { message } => RunModeView::Commit { message: option_text(*message) },
        }
    }
}

/// What is fixed for the whole of a run.
#[derive(Debug, Clone, PartialEq, Eq)]
pub struct RunOptions {
    pub mode: RunMode,
    pub gates: ReviewGates,
    pub model: String,
    pub max_diff_lines: usize,
    pub max_tokens: u32,
    /// Sampling temperature, in thousandths.
    pub temperature_milli: u32,
}

/// The mathematical content of a `RunOptions`.
pub struct RunOptionsView {
    pub mode: RunModeView,
    pub gates: ReviewGates,
    pub model: Seq<char>,
    pub max_diff_lines: nat,
    pub max_tokens: u32,
    pub temperature_milli: u32,
}

impl View for RunOptions {
    type V = RunOptionsView;

    open spec fn view(&self) -> RunOptionsView {
        RunOptionsView {
            mode: self.mode@,
            gates: self.gates,
            model: self.model@,
            max_diff_lines: self.max_diff_lines as nat,
            max_tokens: self.max_tokens,
            temperature_milli: self.temperature_milli,
        }
    }
}

impl PlanView {
    /// What the run that this plan asks for is for, if it asks for one.
    pub open spec fn mode(self) -> Option<RunModeView> {
        match self {
            PlanView::Generate => Some(RunModeView::GenerateOnly),
            PlanView::Commit { message } => Some(RunModeView::Commit { message }),
            _ => None,
        }
    }
}

/// The options of the run that `plan` asks for, if it asks for one: the
/// review offers an edit where the command line is interactive, and asks for
/// the commit unless the command line forces it; model and limits are those
/// of `config`.
pub fn run_options(plan: Plan, cli: &Cli, config: &Config) -> (options: Option<RunOptions>)
    ensures
        match options {
            Some(options) => plan@.mode() == Some(options@.mode) && options@ == (RunOptionsView {
                mode: options@.mode,
                gates: ReviewGates { edit: cli.interactive, confirm: !cli.force },
                model: config.default_model@,
                max_diff_lines: config.max_diff_lines as nat,
                max_tokens: config.max_tokens,
                temperature_milli: config.temperature_milli,
            }),
            None => plan@.mode() is None,
        },
{
    let mode = match plan {
        Plan::Generate => RunMode::GenerateOnly,
        Plan::Commit { message } => RunMode::Commit { message },
        _ => {
            return None;
        },
    };
    Some(
        RunOptions {
            mode,
            gates: ReviewGates { edit: cli.interactive, confirm: !cli.force },
            model: config.default_model.clone(),
            max_diff_lines: config.max_diff_lines,
            max_tokens: config.max_tokens,
            temperature_milli: config.temperature_milli,
        },
    )
}

/// A candidate message, and how it came about. Both kinds are candidates of
/// equal standing.
#[derive(Debug, Clone, PartialEq, Eq)]
pub enum GenerationOutcome {
    /// The service wrote it.
    Generated(String),
    /// The offline rules wrote it, because the service failed as recorded.
    FallbackUsed(String, CommitError),
}

/// The mathematical content of a `GenerationOutcome`.
pub enum GenerationOutcomeView {
    Generated(Seq<char>),
    FallbackUsed(Seq<char>, CommitErrorView),
}

impl GenerationOutcomeView {
    /// The candidate message.
    pub open spec fn message(self) -> Seq<char> {
        match self {
            GenerationOutcomeView::Generated(text) => text,
            GenerationOutcomeView::FallbackUsed(text, _) => text,
        }
    }
}

impl View for GenerationOutcome {
    type V = GenerationOutcomeView;

    open spec fn view(&self) -> GenerationOutcomeView {
        match self {
            GenerationOutcome::Generated(text) => GenerationOutcomeView::Generated(text@),
            GenerationOutcome::FallbackUsed(text, reason) => GenerationOutcomeView::FallbackUsed(
                text@,
                reason@,
            ),
        }
    }
}

impl GenerationOutcome {
    /// The candidate message.
    pub fn into_message(self) -> (message: String)
        ensures
            message@ == self@.message(),
    {
        match self {
            GenerationOutcome::Generated(text) => text,
            GenerationOutcome::FallbackUsed(text, _) => text,
        }
    }
}

/// The candidate for the working set `chosen`, given how the request for a
/// summary ended: the summary, or on any failure what the offline rules say
/// of the same files and diff.
pub open spec fn candidate(
    chosen: DiffSelectionView,
    summary: Result<Seq<char>, CommitErrorView>,
) -> GenerationOutcomeView {
    match summary {
        Ok(text) => GenerationOutcomeView::Generated(text),
        Err(reason) => GenerationOutcomeView::FallbackUsed(
            fallback_message(chosen.files, chosen.diff, lowercase_of(chosen.diff)),
            reason,
        ),
    }
}

/// Settles on a candidate once the request for a summary has ended.
pub fn resolve_candidate(chosen: &DiffSelection, summary: Result<String, CommitError>) -> (outcome:
    GenerationOutcome)
    ensures
        outcome@ == candidate(chosen@, result_view(summary)),
{
    match summary {
        Ok(text) => GenerationOutcome::Generated(text),
        Err(reason) => GenerationOutcome::FallbackUsed(
            generate_fallback_message(chosen.files.as_slice(), chosen.diff.as_str()),
            reason,
        ),
    }
}

/// How a run ended.
#[derive(Debug, Clone, PartialEq, Eq)]
pub enum RunResult {
    /// There was nothing to commit.
    NoChanges,
    /// A message was generated and nothing was committed.
    Generated(GenerationOutcome),
    /// The commit was made.
    Committed { message: String, id: CommitId },
    /// The human called the commit off.
    Cancelled,
    /// The run failed.
    Failed(CommitError),
}

/// The mathematical content of a `RunResult`.
pub enum RunResultView {
    NoChanges,
    Generated(GenerationOutcomeView),
    Committed { message: Seq<char>, id: Seq<u8> },
    Cancelled,
    Failed(CommitErrorView),
}

impl RunResultView {
    /// The exit code of the process: success unless the run failed.
    pub open spec fn exit_code(self) -> u8 {
        if self is Failed {
            1
        } else {
            0
        }
    }
}

impl View for RunResult {
    type V = RunResultView;

    open spec fn view(&self) -> RunResultView {
        match self {
            RunResult::NoChanges => RunResultView::NoChanges,
            RunResult::Generated(outcome) => RunResultView::Generated(outcome@),
            RunResult::Committed { message, id } => RunResultView::Committed {
                message: message@,
                id: id.bytes@,
            },
            RunResult::Cancelled => RunResultView::Cancelled,
            RunResult::Failed(error) => RunResultView::Failed(error@),
        }
    }
}

impl RunResult {
    /// The exit code of the process.
    pub fn exit_code(&self) -> (code: u8)
        ensures
            code == self@.exit_code(),
    {
        match self {
            RunResult::Failed(_) => 1,
            _ => 0,
        }
    }
}

/// Where a run stands.
#[derive(Debug, Clone, PartialEq, Eq)]
pub enum RunState {
    /// The scan of the repository is awaited.
    Scanning,
    /// The summary of this working set is awaited.
    Summarizing(DiffSelection),
    /// An input of the human is awaited.
    Reviewing(ReviewState),
    /// The commit with this message is awaited.
    Committing(String),
    /// The run is over.
    Finished(RunResult),
}

/// The mathematical content of a `RunState`.
pub enum RunStateView {
    Scanning,
    Summarizing(DiffSelectionView),
    Reviewing(ReviewStateView),
    Committing(Seq<char>),
    Finished(RunResultView),
}

impl View for RunState {
    type V = RunStateView;

    open spec fn view(&self) -> RunStateView {
        match self {
            RunState::Scanning => RunStateView::Scanning,
            RunState::Summarizing(chosen) => RunStateView::Summarizing(chosen@),
            RunState::Reviewing(review) => RunStateView::Reviewing(review@),
            RunState::Committing(message) => RunStateView::Committing(message@),
            RunState::Finished(result) => RunStateView::Finished(result@),
        }
    }
}

/// What happened.
#[derive(Debug, PartialEq, Eq)]
pub enum RunEvent {
    /// The scan ended.
    Scanned(Result<GitChanges, CommitError>),
    /// The request for a summary ended.
    Summarized(Result<String, CommitError>),
    /// The human gave an input.
    Reviewed(ReviewInput),
    /// The commit ended.
    Committed(Result<CommitId, CommitError>),
}

/// The mathematical content of a `RunEvent`.
pub enum RunEventView {
    Scanned(Result<GitChangesView, CommitErrorView>),
    Summarized(Result<Seq<char>, CommitErrorView>),
    Reviewed(ReviewInputView),
    Committed(Result<Seq<u8>, CommitErrorView>),
}

impl View for RunEvent {
    type V = RunEventView;

    open spec fn view(&self) -> RunEventView {
        match self {
            RunEvent::Scanned(scan) => RunEventView::Scanned(result_view(*scan)),
            RunEvent::Summarized(summary) => RunEventView::Summarized(result_view(*summary)),
            RunEvent::Reviewed(input) => RunEventView::Reviewed(input@),
            RunEvent::Committed(done) => RunEventView::Committed(
                match done {
                    Ok(id) => Ok(id.bytes@),
                    Err(error) => Err(error@),
                },
            ),
        }
    }
}

/// What the caller is to do next.
#[derive(Debug, Clone, PartialEq, Eq)]
pub enum RunAction {
    /// Scan the repository, and hand back `Scanned`.
    Scan,
    /// Ask the service for a summary, and hand back `Summarized`.
    Summarize(GenerationRequest),
    /// Put the question to the human, and hand back `Reviewed`.
    Ask(ReviewQuestion),
    /// Commit with this message, and hand back `Committed`.
    Commit(String),
    /// Nothing: the run is over.
    Stop,
}

/// The mathematical content of a `RunAction`.
pub enum RunActionView {
    Scan,
    Summarize(GenerationRequestView),
    Ask(ReviewQuestionView),
    Commit(Seq<char>),
    Stop,
}

impl View for RunAction {
    type V = RunActionView;

    open spec fn view(&self) -> RunActionView {
        match self {
            RunAction::Scan => RunActionView::Scan,
            RunAction::Summarize(request) => RunActionView::Summarize(request@),
            RunAction::Ask(question) => RunActionView::Ask(question@),
            RunAction::Commit(message) => RunActionView::Commit(message@),
            RunAction::Stop => RunActionView::Stop,
        }
    }
}

/// The state of a run whose review stands at `review`: a confirmed review
/// leads to the commit, a cancelled one ends the run.
pub open spec fn reviewing(review: ReviewStateView) -> RunStateView {
    match review {
        ReviewStateView::Confirmed(message) => RunStateView::Committing(message),
        ReviewStateView::Cancelled => RunStateView::Finished(RunResultView::Cancelled),
        _ => RunStateView::Reviewing(review),
    }
}

/// The state that follows `state` on `event`.
///
/// The scan ends the run if it failed or found no changed file. Else the
/// working set is chosen and its diff bounded; with a message given the
/// review opens on it, without one a summary is asked for. The summary, or
/// on its failure the word of the offline rules, is the candidate: it ends a
/// run that only generates, and opens the review of one that commits. The
/// review leads to the commit or ends the run, and the commit ends it. An
/// event that the state does not await changes nothing.
pub open spec fn run_next(
    options: RunOptionsView,
    state: RunStateView,
    event: RunEventView,
) -> RunStateView {
    match (state, event) {
        (RunStateView::Scanning, RunEventView::Scanned(Err(error))) => RunStateView::Finished(
            RunResultView::Failed(error),
        ),
        (RunStateView::Scanning, RunEventView::Scanned(Ok(changes))) => match selection(changes) {
            Err(_) => RunStateView::Finished(RunResultView::NoChanges),
            Ok(chosen) => match options.mode {
                RunModeView::Commit { message: Some(message) } => reviewing(
                    review_opening(message, options.gates),
                ),
                _ => RunStateView::Summarizing(
                    DiffSelectionView {
                        files: chosen.files,
                        diff: filtered_diff(chosen.diff, options.max_diff_lines),
                    },
                ),
            },
        },
        (RunStateView::Summarizing(chosen), RunEventView::Summarized(summary)) => {
            let outcome = candidate(chosen, summary);
            match options.mode {
                RunModeView::GenerateOnly => RunStateView::Finished(
                    RunResultView::Generated(outcome),
                ),
                RunModeView::Commit { .. } => reviewing(
                    review_opening(outcome.message(), options.gates),
                ),
            }
        },
        (RunStateView::Reviewing(review), RunEventView::Reviewed(input)) => reviewing(
            review_next(review, input, options.gates),
        ),
        (RunStateView::Committing(message), RunEventView::Committed(Ok(id))) => RunStateView::Finished(
            RunResultView::Committed { message, id },
        ),
        (RunStateView::Committing(_), RunEventView::Committed(Err(error))) => RunStateView::Finished(
            RunResultView::Failed(error),
        ),
        _ => state,
    }
}

/// What the caller is to do in `state`.
pub open spec fn pending_action(options: RunOptionsView, state: RunStateView) -> RunActionView {
    match state {
        RunStateView::Scanning => RunActionView::Scan,
        RunStateView::Summarizing(chosen) => RunActionView::Summarize(
            GenerationRequestView {
                files: chosen.files,
                diff: chosen.diff,
                model: options.model,
                max_tokens: options.max_tokens,
                temperature_milli: options.temperature_milli,
            },
        ),
        RunStateView::Reviewing(review) => match review.question() {
            Some(question) => RunActionView::Ask(question),
            None => RunActionView::Stop,
        },
        RunStateView::Committing(message) => RunActionView::Commit(message),
        RunStateView::Finished(_) => RunActionView::Stop,
    }
}

/// A copy of a list of strings.
fn copy_strings(list: &Vec<String>) -> (copy: Vec<String>)
    ensures
        texts_of(copy@) == texts_of(list@),
{
    let mut copy: Vec<String> = Vec::new();
    let mut i: usize = 0;
    while i < list.len()
        invariant
            i <= list@.len(),
            copy@.len() == i,
            forall|k: int| 0 <= k < i ==> copy@[k]@ == list@[k]@,
        decreases list@.len() - i,
    {
        copy.push(list[i].clone());
        i += 1;
    }
    copy
}

/// The state of a run whose review stands at `review`.
fn enter_review(review: ReviewState) -> (state: RunState)
    ensures
        state@ == reviewing(review@),
{
    match review {
        ReviewState::Confirmed(message) => RunState::Committing(message),
        ReviewState::Cancelled => RunState::Finished(RunResult::Cancelled),
        other => RunState::Reviewing(other),
    }
}

/// The state in which every run begins, and its first action.
pub fn run_start() -> (first: (RunState, RunAction))
    ensures
        first.0@ == RunStateView::Scanning,
        first.1@ == RunActionView::Scan,
{
    (RunState::Scanning, RunAction::Scan)
}

/// What the caller is to do in `state`.
pub fn action_for(options: &RunOptions, state: &RunState) -> (action: RunAction)
    ensures
        action@ == pending_action(options@, state@),
{
    match state {
        RunState::Scanning => RunAction::Scan,
        RunState::Summarizing(chosen) => RunAction::Summarize(
            GenerationRequest {
                files: copy_strings(&chosen.files),
                diff: chosen.diff.clone(),
                model: options.model.clone(),
                max_tokens: options.max_tokens,
                temperature_milli: options.temperature_milli,
            },
        ),
        RunState::Reviewing(review) => match review.pending_question() {
            Some(question) => RunAction::Ask(question),
            None => RunAction::Stop,
        },
        RunState::Committing(message) => RunAction::Commit(message.clone()),
        RunState::Finished(_) => RunAction::Stop,
    }
}

/// Moves a run on by one event: the next state, and what to do in it.
pub fn run_step(options: &RunOptions, state: RunState, event: RunEvent) -> (next: (
    RunState,
    RunAction,
))
    ensures
        next.0@ == run_next(options@, state@, event@),
        next.1@ == pending_action(options@, next.0@),
{
    let after = match (state, event) {
        (RunState::Scanning, RunEvent::Scanned(Err(error))) => RunState::Finished(
            RunResult::Failed(error),
        ),
        (RunState::Scanning, RunEvent::Scanned(Ok(changes))) => match select_changes(changes) {
            Err(_) => RunState::Finished(RunResult::NoChanges),
            Ok(chosen) => match &options.mode {
                RunMode::Commit { message: Some(message) } => enter_review(
                    begin_review(message.clone(), options.gates),
                ),
                _ => {
                    let diff = filter_diff_content(chosen.diff.as_str(), options.max_diff_lines);
                    RunState::Summarizing(DiffSelection { files: chosen.files, diff })
                },
            },
        },
        (RunState::Summarizing(chosen), RunEvent::Summarized(summary)) => {
            let outcome = resolve_candidate(&chosen, summary);
            match &options.mode {
                RunMode::GenerateOnly => RunState::Finished(RunResult::Generated(outcome)),
                RunMode::Commit { .. } => enter_review(
                    begin_review(outcome.into_message(), options.gates),
                ),
            }
        },
        (RunState::Reviewing(review), RunEvent::Reviewed(input)) => enter_review(
            review_step(review, input, options.gates),
        ),
        (RunState::Committing(message), RunEvent::Committed(Ok(id))) => RunState::Finished(
            RunResult::Committed { message, id },
        ),
        (RunState::Committing(_), RunEvent::Committed(Err(error))) => RunState::Finished(
            RunResult::Failed(error),
        ),
        (other, _) => other,
    };
    let action = action_for(options, &after);
    (after, action)
}

impl RunStateView {
    /// What holds of every state that a run reaches: only a run that commits
    /// awaits the human or the commit, and a run that awaits the human has a
    /// question to put.
    pub open spec fn well_formed(self, options: RunOptionsView) -> bool {
        match self {
            RunStateView::Reviewing(review) => !review.done() && options.mode is Commit,
            RunStateView::Committing(_) => options.mode is Commit,
            _ => true,
        }
    }
}

/// The state of a run after the events `events`, in order.
pub open spec fn run_through(
    options: RunOptionsView,
    state: RunStateView,
    events: Seq<RunEventView>,
) -> RunStateView
    decreases events.len(),
{
    if events.len() == 0 {
        state
    } else {
        run_next(options, run_through(options, state, events.drop_last()), events.last())
    }
}

/// A step keeps a state well formed.
pub proof fn lemma_step_keeps_well_formed(
    options: RunOptionsView,
    state: RunStateView,
    event: RunEventView,
)
    requires
        state.well_formed(options),
    ensures
        run_next(options, state, event).well_formed(options),
{
}

/// Every state that a run reaches from its start is well formed.
pub proof fn lemma_run_is_well_formed(options: RunOptionsView, events: Seq<RunEventView>)
    ensures
        run_through(options, RunStateView::Scanning, events).well_formed(options),
    decreases events.len(),
{
    if events.len() > 0 {
        lemma_run_is_well_formed(options, events.drop_last());
        lemma_step_keeps_well_formed(
            options,
            run_through(options, RunStateView::Scanning, events.drop_last()),
            events.last(),
        );
    }
}

/// A run that only generates asks the human nothing and commits nothing,
/// whatever happens.
pub proof fn lemma_generating_commits_nothing(options: RunOptionsView, events: Seq<RunEventView>)
    requires
        options.mode is GenerateOnly,
    ensures
        ({
            let action = pending_action(
                options,
                run_through(options, RunStateView::Scanning, events),
            );
            !(action is Commit) && !(action is Ask)
        }),
{
    lemma_run_is_well_formed(options, events);
}

/// A run that is over stays as it is, whatever happens, and asks for nothing
/// more.
pub proof fn lemma_finished_is_final(
    options: RunOptionsView,
    result: RunResultView,
    events: Seq<RunEventView>,
)
    ensures
        run_through(options, RunStateView::Finished(result), events) == RunStateView::Finished(
            result,
        ),
        pending_action(options, run_through(options, RunStateView::Finished(result), events))
            == RunActionView::Stop,
    decreases events.len(),
{
    if events.len() > 0 {
        lemma_finished_is_final(options, result, events.drop_last());
    }
}

/// Scope precedence. Where both scopes hold a diff, the working set is the
/// staged scope alone: its files and its diff. A run that asks for a summary
/// asks for one of these files and of this diff, bounded.
pub proof fn lemma_staged_scope_first(options: RunOptionsView, changes: GitChangesView)
    requires
        changes.staged_diff.len() > 0,
        changes.unstaged_diff.len() > 0,
        changes.staged_files.len() > 0 || changes.unstaged_files.len() > 0,
    ensures
        selection(changes) == Ok::<DiffSelectionView, CommitErrorView>(
            DiffSelectionView { files: changes.staged_files, diff: changes.staged_diff },
        ),
        !(options.mode matches RunModeView::Commit { message: Some(_) }) ==> run_next(
            options,
            RunStateView::Scanning,
            RunEventView::Scanned(Ok(changes)),
        ) == RunStateView::Summarizing(
            DiffSelectionView {
                files: changes.staged_files,
                diff: filtered_diff(changes.staged_diff, options.max_diff_lines),
            },
        ),
{
}

/// Where the staged diff is empty, the working set is the unstaged scope
/// alone.
pub proof fn lemma_unstaged_scope_else(changes: GitChangesView)
    requires
        changes.staged_diff.len() == 0,
        changes.staged_files.len() > 0 || changes.unstaged_files.len() > 0,
    ensures
        selection(changes) == Ok::<DiffSelectionView, CommitErrorView>(
            DiffSelectionView { files: changes.unstaged_files, diff: changes.unstaged_diff },
        ),
{
}

/// No changes, no work. A scan that finds no changed file in either scope
/// ends the run with `NoChanges`, which is no failure; whatever happens
/// after, the run asks for no summary and for no commit.
pub proof fn lemma_no_changes_ends_run(
    options: RunOptionsView,
    changes: GitChangesView,
    events: Seq<RunEventView>,
)
    requires
        changes.staged_files.len() == 0,
        changes.unstaged_files.len() == 0,
    ensures
        selection(changes) == Err::<DiffSelectionView, CommitErrorView>(CommitErrorView::NoChanges),
        ({
            let ended = run_next(options, RunStateView::Scanning, RunEventView::Scanned(Ok(changes)));
            &&& ended == RunStateView::Finished(RunResultView::NoChanges)
            &&& RunResultView::NoChanges.exit_code() == 0
            &&& pending_action(options, run_through(options, ended, events)) == RunActionView::Stop
        }),
{
    lemma_finished_is_final(options, RunResultView::NoChanges, events);
}

/// The service is never sent an unbounded diff: the diff of every request
/// that follows a scan is the chosen diff, bounded to the line budget.
pub proof fn lemma_request_is_bounded(options: RunOptionsView, changes: GitChangesView)
    ensures
        ({
            let next = run_next(options, RunStateView::Scanning, RunEventView::Scanned(Ok(changes)));
            pending_action(options, next) matches RunActionView::Summarize(request) ==> selection(
                changes,
            ) matches Ok(chosen) && request.files == chosen.files && request.diff == filtered_diff(
                chosen.diff,
                options.max_diff_lines,
            )
        }),
{
}

/// Recoverable degradation. Whatever the failure of the request for a
/// summary, the candidate is what the offline rules say of the same files and
/// diff. A run that only generates ends with it, in success; a run that
/// commits opens the review on it, and where the review is left out and the
/// commit succeeds, ends with it as the message of the commit, in success.
pub proof fn lemma_failure_falls_back(
    options: RunOptionsView,
    chosen: DiffSelectionView,
    reason: CommitErrorView,
    id: Seq<u8>,
)
    ensures
        ({
            let message = fallback_message(chosen.files, chosen.diff, lowercase_of(chosen.diff));
            let next = run_next(
                options,
                RunStateView::Summarizing(chosen),
                RunEventView::Summarized(Err(reason)),
            );
            &&& options.mode is GenerateOnly ==> {
                &&& next == RunStateView::Finished(
                    RunResultView::Generated(GenerationOutcomeView::FallbackUsed(message, reason)),
                )
                &&& next->Finished_0.exit_code() == 0
            }
            &&& options.mode is Commit ==> next == reviewing(review_opening(message, options.gates))
            &&& options.mode is Commit && !options.gates.edit && !options.gates.confirm ==> {
                &&& next == RunStateView::Committing(message)
                &&& run_next(options, next, RunEventView::Committed(Ok(id)))
                    == RunStateView::Finished(RunResultView::Committed { message, id })
                &&& (RunResultView::Committed { message, id }).exit_code() == 0
            }
        }),
{
}

/// An answer of the service with a status other than success is a failure
/// of the request, and so falls back.
pub proof fn lemma_bad_status_falls_back(
    options: RunOptionsView,
    chosen: DiffSelectionView,
    status: u16,
    body: Seq<char>,
    candidates: Option<Seq<Seq<char>>>,
)
    requires
        !is_success(status),
    ensures
        ({
            let summary = reply_outcome(status, body, candidates);
            &&& summary == Err::<Seq<char>, CommitErrorView>(
                CommitErrorView::OpenRouterApiFail { status, message: body },
            )
            &&& candidate(chosen, summary).message() == fallback_message(
                chosen.files,
                chosen.diff,
                lowercase_of(chosen.diff),
            )
        }),
{
}

/// The repository is written to by the commit alone, and the commit waits
/// for consent. A run comes to the commit only on a yes of the human to the
/// message that is then committed, unless the run was told to commit without
/// asking.
pub proof fn lemma_commit_needs_consent(
    options: RunOptionsView,
    state: RunStateView,
    event: RunEventView,
)
    requires
        state.well_formed(options),
        !(state is Committing),
        run_next(options, state, event) is Committing,
    ensures
        !options.gates.confirm || (state == RunStateView::Reviewing(
            ReviewStateView::Accepted(run_next(options, state, event)->Committing_0),
        ) && event == RunEventView::Reviewed(ReviewInputView::Answer(true))),
        options.mode is Commit,
{
}

/// The commit is the last step of a run. Whether it succeeded or failed,
/// the run is over after it, and nothing is retried or undone.
pub proof fn lemma_commit_is_last(
    options: RunOptionsView,
    message: Seq<char>,
    done: Result<Seq<u8>, CommitErrorView>,
    events: Seq<RunEventView>,
)
    ensures
        ({
            let ended = run_next(
                options,
                RunStateView::Committing(message),
                RunEventView::Committed(done),
            );
            &&& ended == RunStateView::Finished(
                match done {
                    Ok(id) => RunResultView::Committed { message, id },
                    Err(error) => RunResultView::Failed(error),
                },
            )
            &&& pending_action(options, run_through(options, ended, events)) == RunActionView::Stop
        }),
{
    let result = match done {
        Ok(id) => RunResultView::Committed { message, id },
        Err(error) => RunResultView::Failed(error),
    };
    lemma_finished_is_final(options, result, events);
}

/// A run that was called off commits nothing: from a review that is not
/// over, calling off ends the run, and nothing is asked for after.
pub proof fn lemma_cancel_ends_run(
    options: RunOptionsView,
    review: ReviewStateView,
    events: Seq<RunEventView>,
)
    requires
        !review.done(),
    ensures
        ({
            let ended = run_next(
                options,
                RunStateView::Reviewing(review),
                RunEventView::Reviewed(ReviewInputView::Cancel),
            );
            &&& ended == RunStateView::Finished(RunResultView::Cancelled)
            &&& pending_action(options, run_through(options, ended, events)) == RunActionView::Stop
        }),
{
    lemma_finished_is_final(options, RunResultView::Cancelled, events);
}

} // verus!

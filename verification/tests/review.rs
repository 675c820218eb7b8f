use rusty_commit::interactive::{
    begin_review, review_step, ReviewGates, ReviewInput, ReviewQuestion, ReviewState,
};

const BOTH: ReviewGates = ReviewGates { edit: true, confirm: true };
const EDIT_ONLY: ReviewGates = ReviewGates { edit: true, confirm: false };
const CONFIRM_ONLY: ReviewGates = ReviewGates { edit: false, confirm: true };
const NONE: ReviewGates = ReviewGates { edit: false, confirm: false };

fn text(s: &str) -> String {
    s.to_string()
}

#[test]
fn review_opens_at_the_first_gate_in_place() {
    assert_eq!(begin_review(text("m"), BOTH), ReviewState::Presented(text("m")));
    assert_eq!(begin_review(text("m"), EDIT_ONLY), ReviewState::Presented(text("m")));
    assert_eq!(begin_review(text("m"), CONFIRM_ONLY), ReviewState::Accepted(text("m")));
    assert_eq!(begin_review(text("m"), NONE), ReviewState::Confirmed(text("m")));
}

#[test]
fn yes_at_the_first_gate_settles_the_candidate() {
    let next = review_step(ReviewState::Presented(text("m")), ReviewInput::Answer(true), BOTH);
    assert_eq!(next, ReviewState::Accepted(text("m")));
}

#[test]
fn no_at_the_first_gate_opens_the_editor_on_the_candidate() {
    let next = review_step(ReviewState::Presented(text("m")), ReviewInput::Answer(false), BOTH);
    assert_eq!(next, ReviewState::Editing(text("m")));
    assert_eq!(next.pending_question(), Some(ReviewQuestion::EditMessage(text("m"))));
}

#[test]
fn edited_text_becomes_the_message() {
    let next = review_step(ReviewState::Editing(text("m")), ReviewInput::Text(text("edited")), BOTH);
    assert_eq!(next, ReviewState::Accepted(text("edited")));
}

#[test]
fn yes_at_the_second_gate_confirms() {
    let next = review_step(ReviewState::Accepted(text("m")), ReviewInput::Answer(true), BOTH);
    assert_eq!(next, ReviewState::Confirmed(text("m")));
}

#[test]
fn no_at_the_second_gate_cancels() {
    let next = review_step(ReviewState::Accepted(text("m")), ReviewInput::Answer(false), BOTH);
    assert_eq!(next, ReviewState::Cancelled);
}

#[test]
fn cancel_cancels_at_every_gate() {
    for state in [
        ReviewState::Presented(text("m")),
        ReviewState::Editing(text("m")),
        ReviewState::Accepted(text("m")),
    ] {
        assert_eq!(review_step(state, ReviewInput::Cancel, BOTH), ReviewState::Cancelled);
    }
}

#[test]
fn finished_review_takes_no_input() {
    for input in [ReviewInput::Answer(true), ReviewInput::Answer(false), ReviewInput::Cancel] {
        assert_eq!(
            review_step(ReviewState::Confirmed(text("m")), input.clone(), BOTH),
            ReviewState::Confirmed(text("m"))
        );
        assert_eq!(review_step(ReviewState::Cancelled, input, BOTH), ReviewState::Cancelled);
    }
}

#[test]
fn input_that_answers_nothing_changes_nothing() {
    assert_eq!(
        review_step(ReviewState::Presented(text("m")), ReviewInput::Text(text("x")), BOTH),
        ReviewState::Presented(text("m"))
    );
    assert_eq!(
        review_step(ReviewState::Editing(text("m")), ReviewInput::Answer(true), BOTH),
        ReviewState::Editing(text("m"))
    );
    assert_eq!(
        review_step(ReviewState::Accepted(text("m")), ReviewInput::Text(text("x")), BOTH),
        ReviewState::Accepted(text("m"))
    );
}

#[test]
fn without_the_second_gate_a_settled_message_is_confirmed() {
    assert_eq!(
        review_step(ReviewState::Presented(text("m")), ReviewInput::Answer(true), EDIT_ONLY),
        ReviewState::Confirmed(text("m"))
    );
    assert_eq!(
        review_step(ReviewState::Editing(text("m")), ReviewInput::Text(text("e")), EDIT_ONLY),
        ReviewState::Confirmed(text("e"))
    );
}

#[test]
fn full_review_with_an_edit_passes_both_gates_in_turn() {
    let mut state = begin_review(text("draft"), BOTH);
    assert_eq!(state.pending_question(), Some(ReviewQuestion::UseMessage(text("draft"))));
    assert!(!state.is_done());
    state = review_step(state, ReviewInput::Answer(false), BOTH);
    assert_eq!(state.pending_question(), Some(ReviewQuestion::EditMessage(text("draft"))));
    state = review_step(state, ReviewInput::Text(text("final")), BOTH);
    assert_eq!(state.pending_question(), Some(ReviewQuestion::CommitMessage(text("final"))));
    assert!(!state.is_done());
    state = review_step(state, ReviewInput::Answer(true), BOTH);
    assert_eq!(state, ReviewState::Confirmed(text("final")));
    assert!(state.is_done());
    assert_eq!(state.pending_question(), None);
}

#[test]
fn cancelled_review_asks_nothing() {
    assert!(ReviewState::Cancelled.is_done());
    assert_eq!(ReviewState::Cancelled.pending_question(), None);
}

#[test]
fn settle_passes_gates_that_are_left_out() {
    assert_eq!(ReviewState::Presented(text("m")).settle(NONE), ReviewState::Confirmed(text("m")));
    assert_eq!(ReviewState::Editing(text("m")).settle(NONE), ReviewState::Editing(text("m")));
    assert_eq!(ReviewState::Cancelled.settle(NONE), ReviewState::Cancelled);
    assert_eq!(ReviewState::Accepted(text("m")).settle(BOTH), ReviewState::Accepted(text("m")));
}

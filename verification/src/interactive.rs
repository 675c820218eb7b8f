//! The review of a candidate message by a human: a gate that offers an edit,
//! then a gate that asks for the commit.

use vstd::prelude::*;

verus! {

/// Where a review stands.
#[derive(Debug, Clone, PartialEq, Eq)]
pub enum ReviewState {
    /// The candidate is shown; whether to use it is asked.
    Presented(String),
    /// The candidate was declined; an edited text is awaited.
    Editing(String),
    /// The working message is settled; whether to commit is asked.
    Accepted(String),
    /// The commit may go ahead with this message.
    Confirmed(String),
    /// The review was called off; nothing is to be done.
    Cancelled,
}

/// The mathematical content of a `ReviewState`.
pub enum ReviewStateView {
    Presented(Seq<char>),
    Editing(Seq<char>),
    Accepted(Seq<char>),
    Confirmed(Seq<char>),
    Cancelled,
}

impl View for ReviewState {
    type V = ReviewStateView;

    open spec fn view(&self) -> ReviewStateView {
        match self {
            ReviewState::Presented(text) => ReviewStateView::Presented(text@),
            ReviewState::Editing(text) => ReviewStateView::Editing(text@),
            ReviewState::Accepted(text) => ReviewStateView::Accepted(text@),
            ReviewState::Confirmed(text) => ReviewStateView::Confirmed(text@),
            ReviewState::Cancelled => ReviewStateView::Cancelled,
        }
    }
}

/// What the human did.
#[derive(Debug, Clone, PartialEq, Eq)]
pub enum ReviewInput {
    /// Yes or no to the question asked.
    Answer(bool),
    /// The edited message.
    Text(String),
    /// The review is called off.
    Cancel,
}

/// The mathematical content of a `ReviewInput`.
pub enum ReviewInputView {
    Answer(bool),
    Text(Seq<char>),
    Cancel,
}

impl View for ReviewInput {
    type V = ReviewInputView;

    open spec fn view(&self) -> ReviewInputView {
        match self {
            ReviewInput::Answer(yes) => ReviewInputView::Answer(*yes),
            ReviewInput::Text(text) => ReviewInputView::Text(text@),
            ReviewInput::Cancel => ReviewInputView::Cancel,
        }
    }
}

/// What is put to the human.
#[derive(Debug, Clone, PartialEq, Eq)]
pub enum ReviewQuestion {
    /// Use this message? A yes or no is awaited.
    UseMessage(String),
    /// Edit this message. A text is awaited.
    EditMessage(String),
    /// Commit with this message? A yes or no is awaited.
    CommitMessage(String),
}

/// The mathematical content of a `ReviewQuestion`.
pub enum ReviewQuestionView {
    UseMessage(Seq<char>),
    EditMessage(Seq<char>),
    CommitMessage(Seq<char>),
}

impl View for ReviewQuestion {
    type V = ReviewQuestionView;

    open spec fn view(&self) -> ReviewQuestionView {
        match self {
            ReviewQuestion::UseMessage(text) => ReviewQuestionView::UseMessage(text@),
            ReviewQuestion::EditMessage(text) => ReviewQuestionView::EditMessage(text@),
            ReviewQuestion::CommitMessage(text) => ReviewQuestionView::CommitMessage(text@),
        }
    }
}

/// Which of the two gates a review passes through.
#[derive(Debug, Clone, Copy, PartialEq, Eq)]
pub struct ReviewGates {
    /// The candidate is offered for editing.
    pub edit: bool,
    /// The commit is asked for.
    pub confirm: bool,
}

impl ReviewStateView {
    /// The review is over.
    pub open spec fn done(self) -> bool {
        self is Confirmed || self is Cancelled
    }

    /// The state after `input`, with both gates in place. A yes at the first
    /// gate settles the candidate, a no opens the editor, whose text is then
    /// the settled message. A yes at the second gate confirms, a no cancels.
    /// Calling off cancels wherever the review stands. An input that answers
    /// no pending question changes nothing, and a review that is over stays
    /// as it is.
    pub open spec fn after(self, input: ReviewInputView) -> ReviewStateView {
        match (self, input) {
            (ReviewStateView::Confirmed(_), _) => self,
            (ReviewStateView::Cancelled, _) => self,
            (_, ReviewInputView::Cancel) => ReviewStateView::Cancelled,
            (ReviewStateView::Presented(text), ReviewInputView::Answer(yes)) => if yes {
                ReviewStateView::Accepted(text)
            } else {
                ReviewStateView::Editing(text)
            },
            (ReviewStateView::Editing(_), ReviewInputView::Text(edited)) => ReviewStateView::Accepted(
                edited,
            ),
            (ReviewStateView::Accepted(text), ReviewInputView::Answer(yes)) => if yes {
                ReviewStateView::Confirmed(text)
            } else {
                ReviewStateView::Cancelled
            },
            _ => self,
        }
    }

    /// The state with every gate that `gates` leaves out passed through.
    pub open spec fn settled(self, gates: ReviewGates) -> ReviewStateView {
        let edited = match self {
            ReviewStateView::Presented(text) if !gates.edit => ReviewStateView::Accepted(text),
            _ => self,
        };
        match edited {
            ReviewStateView::Accepted(text) if !gates.confirm => ReviewStateView::Confirmed(text),
            _ => edited,
        }
    }

    /// The question that is pending in this state, if any.
    pub open spec fn question(self) -> Option<ReviewQuestionView> {
        match self {
            ReviewStateView::Presented(text) => Some(ReviewQuestionView::UseMessage(text)),
            ReviewStateView::Editing(text) => Some(ReviewQuestionView::EditMessage(text)),
            ReviewStateView::Accepted(text) => Some(ReviewQuestionView::CommitMessage(text)),
            _ => None,
        }
    }
}

/// The state in which the review of `candidate` begins.
pub open spec fn review_opening(candidate: Seq<char>, gates: ReviewGates) -> ReviewStateView {
    ReviewStateView::Presented(candidate).settled(gates)
}

/// The state that follows `state` on `input`.
pub open spec fn review_next(
    state: ReviewStateView,
    input: ReviewInputView,
    gates: ReviewGates,
) -> ReviewStateView {
    state.after(input).settled(gates)
}

impl ReviewState {
    /// Whether the review is over.
    pub fn is_done(&self) -> (done: bool)
        ensures
            done == self@.done(),
    {
        match self {
            ReviewState::Confirmed(_) => true,
            ReviewState::Cancelled => true,
            _ => false,
        }
    }

    /// Passes through every gate that `gates` leaves out.
    pub fn settle(self, gates: ReviewGates) -> (state: ReviewState)
        ensures
            state@ == self@.settled(gates),
    {
        let edited = match self {
            ReviewState::Presented(text) => if gates.edit {
                ReviewState::Presented(text)
            } else {
                ReviewState::Accepted(text)
            },
            other => other,
        };
        match edited {
            ReviewState::Accepted(text) => if gates.confirm {
                ReviewState::Accepted(text)
            } else {
                ReviewState::Confirmed(text)
            },
            other => other,
        }
    }

    /// The question to put to the human in this state, if any.
    pub fn pending_question(&self) -> (question: Option<ReviewQuestion>)
        ensures
            match question {
                Some(asked) => self@.question() == Some(asked@),
                None => self@.question() is None,
            },
    {
        match self {
            ReviewState::Presented(text) => Some(ReviewQuestion::UseMessage(text.clone())),
            ReviewState::Editing(text) => Some(ReviewQuestion::EditMessage(text.clone())),
            ReviewState::Accepted(text) => Some(ReviewQuestion::CommitMessage(text.clone())),
            _ => None,
        }
    }
}

/// Opens the review of `candidate`.
pub fn begin_review(candidate: String, gates: ReviewGates) -> (state: ReviewState)
    ensures
        state@ == review_opening(candidate@, gates),
{
    ReviewState::Presented(candidate).settle(gates)
}

/// Moves a review on by one input of the human.
pub fn review_step(state: ReviewState, input: ReviewInput, gates: ReviewGates) -> (next:
    ReviewState)
    ensures
        next@ == review_next(state@, input@, gates),
{
    let after = match (state, input) {
        (ReviewState::Confirmed(text), _) => ReviewState::Confirmed(text),
        (ReviewState::Cancelled, _) => ReviewState::Cancelled,
        (_, ReviewInput::Cancel) => ReviewState::Cancelled,
        (ReviewState::Presented(text), ReviewInput::Answer(yes)) => if yes {
            ReviewState::Accepted(text)
        } else {
            ReviewState::Editing(text)
        },
        (ReviewState::Editing(_), ReviewInput::Text(edited)) => ReviewState::Accepted(edited),
        (ReviewState::Accepted(text), ReviewInput::Answer(yes)) => if yes {
            ReviewState::Confirmed(text)
        } else {
            ReviewState::Cancelled
        },
        (other, _) => other,
    };
    after.settle(gates)
}

/// With both gates in place no single input takes a candidate from its
/// presentation to the commit: the two gates are passed one after the other.
pub proof fn lemma_gates_in_sequence(candidate: Seq<char>, input: ReviewInputView)
    ensures
        !(review_next(
            review_opening(candidate, ReviewGates { edit: true, confirm: true }),
            input,
            ReviewGates { edit: true, confirm: true },
        ) is Confirmed),
{
}

/// A review that was called off stays called off, and one that is confirmed
/// keeps its message.
pub proof fn lemma_review_ends(state: ReviewStateView, input: ReviewInputView, gates: ReviewGates)
    requires
        state.done(),
    ensures
        review_next(state, input, gates) == state,
{
}

/// Calling off cancels every review that is not over.
pub proof fn lemma_cancel_cancels(state: ReviewStateView, gates: ReviewGates)
    requires
        !state.done(),
    ensures
        review_next(state, ReviewInputView::Cancel, gates) is Cancelled,
{
}

/// A commit is confirmed only by a yes at the second gate, unless that gate
/// is left out.
pub proof fn lemma_confirmed_by_yes(
    state: ReviewStateView,
    input: ReviewInputView,
    gates: ReviewGates,
)
    requires
        gates.confirm,
        !state.done(),
        review_next(state, input, gates) is Confirmed,
    ensures
        state is Accepted,
        input == ReviewInputView::Answer(true),
        review_next(state, input, gates) == ReviewStateView::Confirmed(state->Accepted_0),
{
}

} // verus!

//! The rule by which a new link gets its token: draw a token, try to store
//! the link under it, and let storage's uniqueness of tokens decide; a clash
//! draws a new token, at most `MAX_TOKEN_RETRIES` attempts are made, and any
//! other storage failure ends the attempt at once.

use vstd::prelude::*;
use crate::error::{AppError, ErrorView};

verus! {

/// Most attempts made to store a new link under a fresh token.
pub const MAX_TOKEN_RETRIES: usize = 10;

/// What storage answered to one attempt to store a link.
pub enum InsertOutcome {
    Inserted,
    /// Another link already holds the token.
    UniqueViolation,
    /// Any other storage failure, with its description.
    Failed(String),
}

/// What to do after an attempt.
pub enum InsertStep {
    /// The link is stored.
    Stored,
    /// Draw another token and try again.
    Retry,
    /// Give up with this error.
    Fail(AppError),
}

/// An outcome, its text seen as a sequence of chars.
pub enum OutcomeView {
    Inserted,
    UniqueViolation,
    Failed(Seq<char>),
}

/// A step, its error seen through its view.
pub enum StepView {
    Stored,
    Retry,
    Fail(ErrorView),
}

impl View for InsertOutcome {
    type V = OutcomeView;

    open spec fn view(&self) -> OutcomeView {
        match self {
            InsertOutcome::Inserted => OutcomeView::Inserted,
            InsertOutcome::UniqueViolation => OutcomeView::UniqueViolation,
            InsertOutcome::Failed(m) => OutcomeView::Failed(m@),
        }
    }
}

impl View for InsertStep {
    type V = StepView;

    open spec fn view(&self) -> StepView {
        match self {
            InsertStep::Stored => StepView::Stored,
            InsertStep::Retry => StepView::Retry,
            InsertStep::Fail(e) => StepView::Fail(e@),
        }
    }
}

/// The step after the `attempts`-th attempt ended in `outcome`.
pub open spec fn spec_insert_step(attempts: nat, outcome: OutcomeView) -> StepView {
    match outcome {
        OutcomeView::Inserted => StepView::Stored,
        OutcomeView::UniqueViolation => if attempts < MAX_TOKEN_RETRIES {
            StepView::Retry
        } else {
            StepView::Fail(
                ErrorView::Internal("failed to generate a unique token after 10 retries"@),
            )
        },
        OutcomeView::Failed(m) => StepView::Fail(ErrorView::Db(m)),
    }
}

/// Decides what follows the `attempts`-th attempt to store a new link.
pub fn next_insert_step(attempts: usize, outcome: InsertOutcome) -> (s: InsertStep)
    requires
        1 <= attempts <= MAX_TOKEN_RETRIES,
    ensures
        s@ == spec_insert_step(attempts as nat, outcome@),
{
    match outcome {
        InsertOutcome::Inserted => InsertStep::Stored,
        InsertOutcome::UniqueViolation => {
            if attempts < MAX_TOKEN_RETRIES {
                InsertStep::Retry
            } else {
                InsertStep::Fail(
                    AppError::Internal(
                        String::from_str("failed to generate a unique token after 10 retries"),
                    ),
                )
            }
        },
        InsertOutcome::Failed(m) => InsertStep::Fail(AppError::Db(m)),
    }
}

/// The attempts that a run of storage answers leads to: how many are made
/// and the last step taken, stopping at the first step that is not a retry.
pub open spec fn spec_insert_run(outcomes: Seq<OutcomeView>, done: nat) -> (nat, StepView)
    decreases outcomes.len(),
{
    if outcomes.len() == 0 {
        (done, StepView::Retry)
    } else {
        let step = spec_insert_step(done + 1, outcomes[0]);
        if step is Retry {
            spec_insert_run(outcomes.drop_first(), done + 1)
        } else {
            (done + 1, step)
        }
    }
}

/// Whatever storage answers, at most `MAX_TOKEN_RETRIES` attempts are made,
/// and once that many clashes have been seen the run has ended.
pub proof fn law_retries_are_bounded(outcomes: Seq<OutcomeView>, done: nat)
    requires
        done < MAX_TOKEN_RETRIES,
    ensures
        spec_insert_run(outcomes, done).0 <= MAX_TOKEN_RETRIES,
        outcomes.len() >= MAX_TOKEN_RETRIES - done ==> !(spec_insert_run(outcomes, done).1 is Retry),
    decreases outcomes.len(),
{
    if outcomes.len() > 0 {
        let step = spec_insert_step(done + 1, outcomes[0]);
        if step is Retry {
            law_retries_are_bounded(outcomes.drop_first(), done + 1);
        }
    }
}

/// A clash is retried exactly while fewer than `MAX_TOKEN_RETRIES` attempts
/// have been made; a stored link or another failure ends the run at once.
pub proof fn law_only_clashes_are_retried(attempts: nat, outcome: OutcomeView)
    ensures
        spec_insert_step(attempts, outcome) is Retry <==> (outcome is UniqueViolation && attempts
            < MAX_TOKEN_RETRIES),
{
}

} // verus!

//! The steps of a pairing, from what the last one came to.
use crate::daemon::bridge::{pairing_failed, pairing_not_finalized};
use crate::daemon::errors;
use crate::domain::state::{ActionableError, ActionableErrorView, ErrorCode};
use crate::domain::state;
use crate::hue::credentials::PairAttempt;
use vstd::prelude::*;

verus! {

/// What a step of a pairing came to.
#[derive(Debug)]
pub enum PairingOutcome {
    /// The bridge was asked for keys; there is none where that failed.
    Attempted(Option<PairAttempt>),
    /// The progress on disk was cleared, or could not be.
    Cleared { done: bool },
    /// The configuration was taken over, or there is an error.
    Saved(Option<ActionableError>),
}

/// The mathematical value of [`PairingOutcome`].
#[verifier::ext_equal]
pub enum PairingOutcomeView {
    Attempted(Option<PairAttempt>),
    Cleared { done: bool },
    Saved(Option<ActionableErrorView>),
}

impl DeepView for PairingOutcome {
    type V = PairingOutcomeView;

    open spec fn deep_view(&self) -> PairingOutcomeView {
        match self {
            PairingOutcome::Attempted(attempt) => PairingOutcomeView::Attempted(*attempt),
            PairingOutcome::Cleared { done } => PairingOutcomeView::Cleared { done: *done },
            PairingOutcome::Saved(error) => PairingOutcomeView::Saved(error.deep_view()),
        }
    }
}

/// What is done next about a pairing.
#[derive(Debug)]
pub enum PairingStep {
    /// Tell that the link button is awaited, and acknowledge.
    Wait,
    /// Clear the progress on disk.
    ClearProgress,
    /// Write the configuration.
    Save,
    /// Count the bridge as connected, and acknowledge.
    Finish,
    /// Delete the keys that the bridge handed out, and refuse.
    Undo(ActionableError),
    /// Refuse.
    Refuse(ActionableError),
}

/// The mathematical value of [`PairingStep`].
#[verifier::ext_equal]
pub enum PairingStepView {
    Wait,
    ClearProgress,
    Save,
    Finish,
    Undo(ActionableErrorView),
    Refuse(ActionableErrorView),
}

impl DeepView for PairingStep {
    type V = PairingStepView;

    open spec fn deep_view(&self) -> PairingStepView {
        match self {
            PairingStep::Wait => PairingStepView::Wait,
            PairingStep::ClearProgress => PairingStepView::ClearProgress,
            PairingStep::Save => PairingStepView::Save,
            PairingStep::Finish => PairingStepView::Finish,
            PairingStep::Undo(error) => PairingStepView::Undo(error.deep_view()),
            PairingStep::Refuse(error) => PairingStepView::Refuse(error.deep_view()),
        }
    }
}

/// What is done next about a pairing.
pub open spec fn step_after(outcome: PairingOutcomeView) -> PairingStepView {
    match outcome {
        PairingOutcomeView::Attempted(None) => PairingStepView::Refuse(
            errors::bridge_error("Could not pair with the Hue bridge"@),
        ),
        PairingOutcomeView::Attempted(
            Some(PairAttempt::WaitingForLinkButton),
        ) => PairingStepView::Wait,
        PairingOutcomeView::Attempted(Some(PairAttempt::Paired)) => PairingStepView::ClearProgress,
        PairingOutcomeView::Cleared { done: true } => PairingStepView::Save,
        PairingOutcomeView::Cleared { done: false } => PairingStepView::Undo(
            state::plain_error(ErrorCode::Internal, "Could not finalize pairing progress"@),
        ),
        PairingOutcomeView::Saved(None) => PairingStepView::Finish,
        PairingOutcomeView::Saved(Some(error)) => PairingStepView::Undo(error),
    }
}

/// What is done next about a pairing.
pub fn pairing_step(outcome: PairingOutcome) -> (r: PairingStep)
    ensures
        r.deep_view() == step_after(outcome.deep_view()),
{
    match outcome {
        PairingOutcome::Attempted(None) => PairingStep::Refuse(pairing_failed()),
        PairingOutcome::Attempted(Some(PairAttempt::WaitingForLinkButton)) => PairingStep::Wait,
        PairingOutcome::Attempted(Some(PairAttempt::Paired)) => PairingStep::ClearProgress,
        PairingOutcome::Cleared { done } => if done {
            PairingStep::Save
        } else {
            PairingStep::Undo(pairing_not_finalized())
        },
        PairingOutcome::Saved(None) => PairingStep::Finish,
        PairingOutcome::Saved(Some(error)) => PairingStep::Undo(error),
    }
}

/// Whether a step ends a pairing.
pub open spec fn ends(step: PairingStepView) -> bool {
    !(step is ClearProgress || step is Save)
}

/// Once the bridge handed out keys, a pairing ends with the bridge connected or
/// with the keys deleted.
pub proof fn law_keys_stay_only_with_a_finished_pairing(outcome: PairingOutcomeView)
    requires
        !(outcome is Attempted) || outcome->Attempted_0 == Some(PairAttempt::Paired),
        ends(step_after(outcome)),
    ensures
        step_after(outcome) is Finish || step_after(outcome) is Undo,
{
}

} // verus!

//! Delivery policy for pushes to subscribers.
//!
//! The sidecar pushes the info document and the health verdict to external
//! subscriber URLs.  A delivery is retried immediately on failure, up to a
//! small fixed bound, then abandoned for that cycle; it never blocks
//! subsequent cycles.  The sending is network I/O and happens outside the
//! library; after each attempt the outcome comes back here and the next
//! action is decided.
use crate::MAX_PUSH_ATTEMPTS;
use vstd::prelude::*;

verus! {

/// How one delivery attempt went.
#[derive(Clone, Copy, Debug, PartialEq, Eq, Structural)]
pub enum PushOutcome {
    /// The subscriber answered with a success status.
    Success,
    /// The subscriber answered with a non-success status.
    HttpFailure,
    /// The request could not be sent at all.
    TransportFailure,
}

/// What to do after a delivery attempt.
#[derive(Clone, Copy, Debug, PartialEq, Eq, Structural)]
pub enum PushDecision {
    /// Delivered; stop.
    Done,
    /// Try again at once.
    Retry,
    /// Attempts exhausted on transport failures; give up and surface the
    /// error.
    GiveUpTransport,
    /// Attempts exhausted on non-success statuses; give up, log, move on.
    GiveUpStatus,
}

/// The decision owed after `attempt` attempts (the last of which had the
/// given outcome): success stops, failure retries until the fixed bound is
/// reached, then gives up.
pub open spec fn push_decision_spec(attempt: int, outcome: PushOutcome) -> PushDecision {
    if outcome is Success {
        PushDecision::Done
    } else if attempt < MAX_PUSH_ATTEMPTS as int {
        PushDecision::Retry
    } else if outcome is TransportFailure {
        PushDecision::GiveUpTransport
    } else {
        PushDecision::GiveUpStatus
    }
}

/// Decides what follows one delivery attempt.  `attempt` counts the
/// attempts made so far, the one just completed included.
pub fn push_decision(attempt: u32, outcome: PushOutcome) -> (d: PushDecision)
    ensures
        d == push_decision_spec(attempt as int, outcome),
{
    match outcome {
        PushOutcome::Success => PushDecision::Done,
        PushOutcome::HttpFailure => {
            if attempt < MAX_PUSH_ATTEMPTS {
                PushDecision::Retry
            } else {
                PushDecision::GiveUpStatus
            }
        },
        PushOutcome::TransportFailure => {
            if attempt < MAX_PUSH_ATTEMPTS {
                PushDecision::Retry
            } else {
                PushDecision::GiveUpTransport
            }
        },
    }
}

/// Law: once the fixed bound of attempts is reached, the policy never asks
/// for another try — a delivery makes at most that many attempts per cycle.
pub proof fn lemma_push_attempts_bounded(attempt: int, outcome: PushOutcome)
    requires
        attempt >= MAX_PUSH_ATTEMPTS as int,
    ensures
        push_decision_spec(attempt, outcome) != PushDecision::Retry,
{
}

/// The health notification pushed to subscribers: a JSON document carrying
/// the verdict.
pub fn health_notification_body(healthy: bool) -> (r: String)
    ensures
        healthy ==> r@ == "{\"health\":true}"@,
        !healthy ==> r@ == "{\"health\":false}"@,
{
    if healthy {
        String::from_str("{\"health\":true}")
    } else {
        String::from_str("{\"health\":false}")
    }
}

} // verus!

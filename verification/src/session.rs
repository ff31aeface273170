//! The ephemeral editing session: the record of an in-progress multi-message
//! operation, keyed per conversation by the store that holds it. Losing a
//! session never corrupts durable user data; it only abandons the pending
//! operation.
use vstd::prelude::*;
use crate::user::MAX_USER_MEDIA_ITEMS;

verus! {

/// The expiry the caller hands the key-value store when it writes a session
/// entry: an abandoned flow disappears by itself after this many seconds.
pub const SESSION_TTL_SECONDS: u64 = 600;

/// The profile attribute a free-text editing flow is collecting.
#[derive(Debug, Clone, Copy, PartialEq, Eq, Structural)]
pub enum ProfileField {
    Name,
    Age,
    Gender,
    Bio,
    Location,
}

/// Which multi-turn flow is active, with its step-specific payload.
#[derive(Debug, Clone, PartialEq)]
pub enum SessionStep {
    /// Awaiting a free-text value for one profile attribute.
    AwaitingFieldValue { field: ProfileField },
    /// Awaiting a numeric choice among the listed media keys, captured as a
    /// snapshot at prompt time.
    AwaitingMediaChoice { listed_keys: Vec<String> },
}

/// One editing session; at most one exists per conversation at a time.
#[derive(Debug, Clone, PartialEq)]
pub struct EditingSession {
    pub step: SessionStep,
}

/// A media-choice snapshot is only ever taken of a non-empty, bounded list.
pub open spec fn step_wf(step: SessionStep) -> bool {
    match step {
        SessionStep::AwaitingFieldValue { .. } => true,
        SessionStep::AwaitingMediaChoice { listed_keys } => 1 <= listed_keys@.len()
            <= MAX_USER_MEDIA_ITEMS,
    }
}

pub open spec fn session_wf(session: EditingSession) -> bool {
    step_wf(session.step)
}

} // verus!

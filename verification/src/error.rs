//! The reasons for which a request is refused, and the words in which a
//! refusal is reported to the caller.

use vstd::prelude::*;

verus! {

/// Why a request was refused. A refused request changes nothing.
#[derive(Clone, Copy, Debug, PartialEq, Eq, Structural)]
pub enum StreamError {
    /// No record carries the given id.
    NotFound,
    /// The caller does not hold the role that the request needs.
    Unauthorized,
    /// The stream is no longer active.
    InvalidState,
    /// There is no buffered amount to pay out.
    NothingToDo,
    /// The sender asked for the buffered amount before the waiting time was over.
    TimeoutNotReached,
}

/// The requests that can be refused.
#[derive(Clone, Copy, Debug, PartialEq, Eq, Structural)]
pub enum Operation {
    /// The recipient withdraws the buffered amount.
    Claim,
    /// The sender adds to the locked amount.
    TopUp,
    /// The sender stops the stream.
    Cancel,
    /// The sender recovers a buffered amount that the recipient left behind.
    Reclaim,
    /// A stream is created from a template.
    Instantiate,
}

/// The words that report `err` to the caller of `op`, or `None` where `op` is
/// never refused for that reason.
pub open spec fn error_text_of(op: Operation, err: StreamError) -> Option<Seq<char>> {
    match (op, err) {
        (Operation::Instantiate, StreamError::NotFound) => Some("Template not found"@),
        (Operation::Instantiate, _) => None,
        (_, StreamError::NotFound) => Some("Stream not found"@),
        (Operation::Claim, StreamError::Unauthorized) => Some("Only the recipient can claim"@),
        (Operation::TopUp, StreamError::Unauthorized) => Some("Only the sender can top up"@),
        (Operation::Cancel, StreamError::Unauthorized) => Some("Only the sender can cancel"@),
        (Operation::Reclaim, StreamError::Unauthorized) => Some("Only the sender can reclaim"@),
        (Operation::TopUp, StreamError::InvalidState) => Some("Stream is not active"@),
        (Operation::Cancel, StreamError::InvalidState) => Some("Stream is not active"@),
        (Operation::Claim, StreamError::NothingToDo) => Some("No funds to claim"@),
        (Operation::Reclaim, StreamError::NothingToDo) => Some("No unclaimed funds to reclaim"@),
        (Operation::Reclaim, StreamError::TimeoutNotReached) => Some(
            "Reclaim timeout not reached"@,
        ),
        _ => None,
    }
}

/// Puts a refusal into the words that the caller of `op` is shown.
pub fn error_text(op: Operation, err: StreamError) -> (text: Option<String>)
    ensures
        match text {
            Some(words) => error_text_of(op, err) == Some(words@),
            None => error_text_of(op, err) is None,
        },
{
    match (op, err) {
        (Operation::Instantiate, StreamError::NotFound) => Some("Template not found".to_owned()),
        (Operation::Instantiate, _) => None,
        (_, StreamError::NotFound) => Some("Stream not found".to_owned()),
        (Operation::Claim, StreamError::Unauthorized) => Some(
            "Only the recipient can claim".to_owned(),
        ),
        (Operation::TopUp, StreamError::Unauthorized) => Some(
            "Only the sender can top up".to_owned(),
        ),
        (Operation::Cancel, StreamError::Unauthorized) => Some(
            "Only the sender can cancel".to_owned(),
        ),
        (Operation::Reclaim, StreamError::Unauthorized) => Some(
            "Only the sender can reclaim".to_owned(),
        ),
        (Operation::TopUp, StreamError::InvalidState) => Some("Stream is not active".to_owned()),
        (Operation::Cancel, StreamError::InvalidState) => Some("Stream is not active".to_owned()),
        (Operation::Claim, StreamError::NothingToDo) => Some("No funds to claim".to_owned()),
        (Operation::Reclaim, StreamError::NothingToDo) => Some(
            "No unclaimed funds to reclaim".to_owned(),
        ),
        (Operation::Reclaim, StreamError::TimeoutNotReached) => Some(
            "Reclaim timeout not reached".to_owned(),
        ),
        _ => None,
    }
}

} // verus!

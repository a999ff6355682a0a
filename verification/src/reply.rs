//! One-shot reply slots.
//!
//! Each request carries a private, single-use delivery cell. The owner
//! fulfils it at most once; the caller may abandon it at any time without
//! coordinating with the owner; and if the owner terminates first, the
//! unfulfilled slot is dropped, which the caller observes as a definite
//! failure rather than waiting forever.

use vstd::prelude::*;
use crate::errors::{ResourceError, SubmissionError};

verus! {

/// The state of one reply slot, seen as the shared cell between the caller
/// (who waits on it) and the owner (who fulfils it).
#[derive(Clone, Copy, Debug)]
pub enum ReplySlot {
    /// Created by the caller; nothing delivered yet.
    Pending,
    /// The owner delivered this request's outcome.
    Fulfilled(Result<u32, ResourceError>),
    /// The caller gave up waiting; a later delivery is a silent no-op.
    Abandoned,
    /// The owner terminated without delivering; the caller sees a failure.
    Dropped,
}

/// What the owner observes when it attempts a delivery.
#[derive(Clone, Copy, PartialEq, Eq, Structural, Debug)]
pub enum FulfillOutcome {
    /// The caller was still waiting; the value was handed over.
    Delivered,
    /// The caller had abandoned the slot; the value was discarded.
    /// This is a normal outcome, never an error for the owner.
    AbandonedReply,
}

/// The slot after the owner attempts to deliver `reply` into it.
pub open spec fn fulfill_effect(s: ReplySlot, reply: Result<u32, ResourceError>) -> ReplySlot {
    if s is Pending {
        ReplySlot::Fulfilled(reply)
    } else {
        s
    }
}

/// What the owner observes when delivering into a slot in state `s`.
pub open spec fn fulfill_outcome(s: ReplySlot) -> FulfillOutcome {
    if s is Pending {
        FulfillOutcome::Delivered
    } else {
        FulfillOutcome::AbandonedReply
    }
}

/// The slot after the owner terminates while holding it unfulfilled.
pub open spec fn drop_effect(s: ReplySlot) -> ReplySlot {
    if s is Pending {
        ReplySlot::Dropped
    } else {
        s
    }
}

/// Owner side: deliver `reply` into the slot. A slot is fulfilled at most
/// once, so the slot may not already be `Fulfilled`; a `Dropped` slot only
/// exists after the owner has terminated, so it cannot be offered one.
pub fn fulfill(slot: &mut ReplySlot, reply: Result<u32, ResourceError>) -> (out: FulfillOutcome)
    requires
        *old(slot) is Pending || *old(slot) is Abandoned,
    ensures
        *final(slot) == fulfill_effect(*old(slot), reply),
        out == fulfill_outcome(*old(slot)),
{
    match slot {
        ReplySlot::Pending => {
            *slot = ReplySlot::Fulfilled(reply);
            FulfillOutcome::Delivered
        }
        _ => FulfillOutcome::AbandonedReply,
    }
}

/// Caller side: give up waiting for the reply. Cancellation does not
/// retract the request; the owner's later delivery attempt is a no-op.
pub fn abandon(slot: &mut ReplySlot)
    requires
        *old(slot) is Pending,
    ensures
        *final(slot) == ReplySlot::Abandoned,
{
    *slot = ReplySlot::Abandoned;
}

/// Owner side, at termination: drop an unfulfilled slot, which turns a
/// still-waiting caller's wait into a definite "mailbox gone" failure.
pub fn drop_unfulfilled(slot: &mut ReplySlot)
    requires
        *old(slot) is Pending || *old(slot) is Abandoned,
    ensures
        *final(slot) == drop_effect(*old(slot)),
{
    match slot {
        ReplySlot::Pending => {
            *slot = ReplySlot::Dropped;
        }
        _ => {}
    }
}

/// The reply a waiting caller extracts from a fulfilled slot: a resource
/// failure on its own request is surfaced as such, never swallowed.
pub open spec fn submission_reply(rep: Result<u32, ResourceError>) -> Result<u32, SubmissionError> {
    match rep {
        Ok(v) => Ok(v),
        Err(e) => Err(SubmissionError::Resource(e)),
    }
}

/// Caller side: poll the slot. `None` means the caller would keep
/// suspending; `Some` is this caller's definite outcome.
pub fn try_take(slot: &ReplySlot) -> (r: Option<Result<u32, SubmissionError>>)
    requires
        !(*slot is Abandoned),
    ensures
        *slot is Pending ==> r is None,
        *slot matches ReplySlot::Fulfilled(rep) ==> r == Some(submission_reply(rep)),
        *slot is Dropped ==> r == Some(Err::<u32, SubmissionError>(SubmissionError::Closed)),
{
    match slot {
        ReplySlot::Pending => None,
        ReplySlot::Fulfilled(rep) => {
            match rep {
                Ok(v) => Some(Ok(*v)),
                Err(e) => Some(Err(SubmissionError::Resource(*e))),
            }
        }
        ReplySlot::Dropped => Some(Err(SubmissionError::Closed)),
        ReplySlot::Abandoned => None,
    }
}

/// Abandon-safety law: delivering into an abandoned slot changes nothing
/// and reports the expected, non-error outcome — the owner can never fail
/// or block because nobody is listening, whatever the reply was.
pub proof fn lemma_abandon_safety(reply: Result<u32, ResourceError>)
    ensures
        fulfill_effect(ReplySlot::Abandoned, reply) == ReplySlot::Abandoned,
        fulfill_outcome(ReplySlot::Abandoned) == FulfillOutcome::AbandonedReply,
        drop_effect(ReplySlot::Abandoned) == ReplySlot::Abandoned,
{
}

} // verus!

//! Error taxonomy of the mailbox system.

use vstd::prelude::*;

verus! {

/// A failure reported by the underlying resource while the owner executed
/// a request (a failed write or a failed read). The embedding maps its own
/// resource errors onto a plain code; the model only propagates the value.
#[derive(Clone, Copy, PartialEq, Eq, Structural, Debug)]
pub struct ResourceError {
    pub code: u32,
}

/// What a caller awaiting its reply can observe as a failure: either the
/// mailbox's consumer side is gone (the owner terminated before delivering
/// a reply), or the resource itself failed on this caller's request.
#[derive(Clone, Copy, PartialEq, Eq, Structural, Debug)]
pub enum SubmissionError {
    Closed,
    Resource(ResourceError),
}

} // verus!

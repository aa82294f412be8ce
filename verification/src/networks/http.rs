//! What is fixed about the requests this library describes, and how their
//! failures are told apart.

use vstd::prelude::*;

verus! {

/// Seconds a request may take before it is given up.
pub const REQUEST_TIMEOUT_SECS: u64 = 3;

/// Why a lookup gave no answer.
#[derive(Debug, Clone, Copy, PartialEq, Eq, Structural)]
pub enum LookupError {
    /// The request did not go through: no connection, no name resolved, or
    /// the time allowed ran out.
    Transport,
    /// The answer is not JSON, or not JSON of the expected shape.
    Decode,
    /// No network interface to learn the local address from.
    LocalInterface,
}

/// What the transport tells of a request that failed.
pub struct RequestFailure {
    /// The time allowed ran out.
    pub timed_out: bool,
    /// The body arrived, and the JSON decoder refused it.
    pub malformed: bool,
}

impl RequestFailure {
    /// A failure is a decoding error only if the decoder refused the body
    /// and the time did not run out; everything else is a transport error.
    pub open spec fn kind(self) -> LookupError {
        if self.malformed && !self.timed_out {
            LookupError::Decode
        } else {
            LookupError::Transport
        }
    }
}

impl LookupError {
    /// The error to report for a request that failed. A request that ran out
    /// of time is always a transport error.
    pub fn of_request(failure: RequestFailure) -> (error: LookupError)
        ensures
            error == failure.kind(),
            failure.timed_out ==> error == LookupError::Transport,
            error != LookupError::LocalInterface,
    {
        if failure.malformed && !failure.timed_out {
            LookupError::Decode
        } else {
            LookupError::Transport
        }
    }
}

} // verus!

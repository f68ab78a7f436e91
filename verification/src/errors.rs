//! The error taxonomy of a solve attempt.

use vstd::prelude::*;

verus! {

/// Why a solve attempt stopped without a solved word.
///
/// Every error is terminal for the attempt: nothing is retried.
#[derive(Debug, Clone, Copy, PartialEq, Eq, Structural)]
pub enum SolveError {
    /// The oracle response does not have the expected five-character /
    /// five-code shape, or contains an unrecognized feedback code.
    MalformedFeedback,
    /// Transport or parse failure while calling the feedback oracle.
    OracleError,
    /// The candidate set became empty before any guess was fully correct.
    ExhaustedCandidates,
}

impl SolveError {
    /// A short human-readable description of the error.
    pub fn describe(&self) -> (r: &'static str)
        ensures
            self is MalformedFeedback ==> r@ == "malformed oracle feedback"@,
            self is OracleError ==> r@ == "oracle call failed"@,
            self is ExhaustedCandidates ==> r@ == "candidate set exhausted"@,
    {
        match self {
            SolveError::MalformedFeedback => "malformed oracle feedback",
            SolveError::OracleError => "oracle call failed",
            SolveError::ExhaustedCandidates => "candidate set exhausted",
        }
    }
}

} // verus!

//! Errors surfaced by the poll core.
//!
//! All of these are synchronous, recoverable-by-caller failures: none crashes
//! the process, and none leaves a partially updated tally behind.

use vstd::prelude::*;

verus! {

/// Why an operation was refused or a computation's result discarded.
#[derive(Clone, Copy, Debug, PartialEq, Eq, Structural)]
pub enum ErrorCode {
    /// Reveal was requested by an identity other than the poll's creator.
    InvalidAuthority,
    /// The MPC cluster reported failure instead of a result; persisted state
    /// stays at its last successfully applied generation.
    AbortedComputation,
    /// The computation environment is not provisioned, so nothing was
    /// submitted.
    ClusterNotSet,
    /// An input was rejected before any computation was submitted: a vote
    /// code outside the three options, or an over-long question.
    InvalidInput,
}

impl ErrorCode {
    /// Short description of the error, as surfaced to callers.
    pub fn message(&self) -> (m: &'static str)
        ensures
            *self == ErrorCode::InvalidAuthority ==> m@ == "Invalid authority"@,
            *self == ErrorCode::AbortedComputation ==> m@ == "The computation was aborted"@,
            *self == ErrorCode::ClusterNotSet ==> m@ == "Cluster not set"@,
            *self == ErrorCode::InvalidInput ==> m@ == "Invalid input"@,
    {
        match self {
            ErrorCode::InvalidAuthority => "Invalid authority",
            ErrorCode::AbortedComputation => "The computation was aborted",
            ErrorCode::ClusterNotSet => "Cluster not set",
            ErrorCode::InvalidInput => "Invalid input",
        }
    }
}

} // verus!

//! Public events emitted by the poll core.
//!
//! Both events are deliberately minimal: nothing in them can disclose a vote
//! or a running count.

use vstd::prelude::*;

verus! {

/// Announces that a vote was recorded. It carries only a timestamp — never
/// the vote's value and never the tallies.
#[derive(Clone, Copy, Debug, PartialEq, Eq, Structural)]
pub struct VoteEvent {
    /// When the vote's result was applied, as seconds since the epoch.
    pub timestamp: i64,
}

/// Announces the outcome of a reveal. It carries only the winning option's
/// index — never the counts behind it.
#[derive(Clone, Copy, Debug, PartialEq, Eq, Structural)]
pub struct RevealResultEvent {
    /// The winning option: an index into the three voting options.
    pub output: u8,
}

} // verus!

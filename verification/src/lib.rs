//! Core of a confidential three-option poll.
//!
//! Voters submit encrypted ballots; an external multi-party-computation (MPC)
//! cluster keeps running tallies without decrypting any single vote, and only
//! the poll's creator may reveal the winning option (never the counts).
//!
//! The crate verifies the poll's logic over plain values:
//!
//! - [`circuit`] models the oblivious program the cluster runs: initialise the
//!   three counters, add one vote without a secret-dependent operation
//!   sequence, and disclose the lowest-index maximum.
//! - [`poll`] holds the durable per-poll record whose ciphertext slots and
//!   nonce are always replaced together, as one generation.
//! - [`record`] fixes the byte layout of the persisted record, so that the
//!   byte window named in a computation request provably covers exactly the
//!   current ciphertext slots.
//! - [`gateway`] builds the ordered, typed argument lists of a computation
//!   request and models the request/callback protocol.
//! - [`lifecycle`] orchestrates create, vote and reveal: authority and input
//!   checks before any submission, and exactly-once application of results.
//!
//! Everything the cluster, the host chain and the clock do is a collaborator
//! outside this crate: the surrounding runtime performs the queueing, signs
//! and verifies results, and calls the callback entry points here with the
//! outcome.

pub mod circuit;
pub mod error;
pub mod events;
pub mod gateway;
pub mod lifecycle;
pub mod poll;
pub mod record;

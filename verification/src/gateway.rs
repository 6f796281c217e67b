//! The request/response protocol to the external MPC cluster.
//!
//! An operation submits work by building a [`ComputationRequest`]: an ordered
//! list of typed arguments, a correlation handle, and the records the
//! eventual callback may mutate. The surrounding runtime queues the request;
//! the cluster later answers exactly once with a [`ComputationOutputs`],
//! which the runtime hands to the matching callback entry point after
//! checking the cluster's signature over it. The core performs no retry and
//! no deduplication: a caller who retries must supply a fresh correlation
//! handle.

use vstd::prelude::*;

use crate::error::ErrorCode;
use crate::poll::keys_equal;
use crate::record::TALLY_BYTE_LEN;
use crate::record::TALLY_BYTE_OFFSET;

verus! {

/// One typed argument of a computation request. The order and the byte
/// widths of the arguments are part of the wire contract and must match the
/// circuit's declared parameter order exactly.
#[derive(Clone, Copy, Debug, PartialEq, Eq)]
pub enum Argument {
    /// A plaintext 128-bit nonce.
    PlaintextU128(u128),
    /// A cluster-domain public key; used for vote submission only.
    ArcisPubkey([u8; 32]),
    /// A confidential 8-bit value, carried as one 32-byte ciphertext.
    EncryptedU8([u8; 32]),
    /// A window into a persistent record: the record's key, a byte offset and
    /// a byte length. Lets the cluster read the current ciphertext slots in
    /// place rather than having them re-serialized into the request.
    Account([u8; 32], u32, u32),
}

/// A persistent record that the callback of a computation is permitted to
/// mutate.
#[derive(Clone, Copy, Debug, PartialEq, Eq)]
pub struct CallbackAccount {
    /// Key of the record in the storage collaborator.
    pub pubkey: [u8; 32],
    /// Whether the callback may write the record.
    pub is_writable: bool,
}

/// Ephemeral description of a pending MPC job. Created synchronously by the
/// submitting operation and consumed exactly once by the matching callback;
/// never retried automatically.
#[derive(Debug, PartialEq, Eq)]
pub struct ComputationRequest {
    /// Correlation handle tying the request to its eventual callback; chosen
    /// fresh by the caller for every submission.
    pub computation_offset: u64,
    /// The ordered, typed arguments of the computation.
    pub args: Vec<Argument>,
    /// The records the callback may mutate.
    pub callback_targets: Vec<CallbackAccount>,
}

/// Outcome of a computation request: the cluster either finished with a
/// payload or reported an abort.
#[derive(Debug, PartialEq, Eq)]
pub enum ComputationOutputs<T> {
    /// The cluster finished; the payload carries the computation's result.
    Success(T),
    /// The cluster reported failure; there is no payload to apply.
    Aborted,
}

/// The cluster's attestation over a result: which request it answers and
/// which registered signing identity produced it. The surrounding runtime
/// verifies the cryptographic signature itself; the core checks that the
/// attested binding matches what it expects before trusting the payload.
#[derive(Clone, Copy, Debug, PartialEq, Eq)]
pub struct ResultAttestation {
    /// The correlation handle of the request this result answers.
    pub request_handle: u64,
    /// The signing identity of the executing cluster.
    pub signer: [u8; 32],
}

/// True exactly when the attestation binds the result to the awaited request
/// and to the cluster's registered signing identity.
pub fn attestation_binds(
    att: &ResultAttestation,
    request_handle: u64,
    registered_signer: &[u8; 32],
) -> (ok: bool)
    ensures
        ok == (att.request_handle == request_handle && att.signer == *registered_signer),
{
    att.request_handle == request_handle && keys_equal(&att.signer, registered_signer)
}

/// Entry to the computation environment: the provisioned cluster, if any.
pub struct ComputationGateway {
    /// Identifier of the MPC cluster provisioned to execute requests; `None`
    /// while the environment is not set up.
    pub cluster: Option<u32>,
}

impl ComputationGateway {
    /// Builds the request for one computation, or refuses when no cluster is
    /// provisioned — in that case nothing is submitted at all.
    pub fn submit(
        &self,
        computation_offset: u64,
        args: Vec<Argument>,
        callback_targets: Vec<CallbackAccount>,
    ) -> (r: Result<ComputationRequest, ErrorCode>)
        ensures
            match r {
                Ok(req) => {
                    &&& self.cluster is Some
                    &&& req.computation_offset == computation_offset
                    &&& req.args == args
                    &&& req.callback_targets == callback_targets
                },
                Err(e) => self.cluster is None && e == ErrorCode::ClusterNotSet,
            },
    {
        match self.cluster {
            Some(_) => Ok(
                ComputationRequest { computation_offset, args, callback_targets },
            ),
            None => Err(ErrorCode::ClusterNotSet),
        }
    }
}

/// Arguments of the computation that initialises a poll's counters: the
/// plaintext nonce of the provisional tally generation, and nothing else.
pub fn init_tally_args(nonce: u128) -> (args: Vec<Argument>)
    ensures
        args@ =~= seq![Argument::PlaintextU128(nonce)],
{
    let mut args: Vec<Argument> = Vec::new();
    args.push(Argument::PlaintextU128(nonce));
    args
}

/// Arguments of the computation that adds one encrypted vote: the voter's
/// cluster-domain key, the vote's nonce, the encrypted choice, then the
/// current tally generation — its nonce and the byte window holding its
/// ciphertext slots.
pub fn vote_args(
    vote_encryption_pubkey: [u8; 32],
    vote_nonce: u128,
    encrypted_choice: [u8; 32],
    tally_nonce: u128,
    poll_key: [u8; 32],
) -> (args: Vec<Argument>)
    ensures
        args@ =~= seq![
            Argument::ArcisPubkey(vote_encryption_pubkey),
            Argument::PlaintextU128(vote_nonce),
            Argument::EncryptedU8(encrypted_choice),
            Argument::PlaintextU128(tally_nonce),
            Argument::Account(poll_key, TALLY_BYTE_OFFSET, TALLY_BYTE_LEN),
        ],
{
    let mut args: Vec<Argument> = Vec::new();
    args.push(Argument::ArcisPubkey(vote_encryption_pubkey));
    args.push(Argument::PlaintextU128(vote_nonce));
    args.push(Argument::EncryptedU8(encrypted_choice));
    args.push(Argument::PlaintextU128(tally_nonce));
    args.push(Argument::Account(poll_key, TALLY_BYTE_OFFSET, TALLY_BYTE_LEN));
    args
}

/// Arguments of the computation that reveals the winner: the current tally
/// generation's nonce and the byte window holding its ciphertext slots.
pub fn reveal_args(tally_nonce: u128, poll_key: [u8; 32]) -> (args: Vec<Argument>)
    ensures
        args@ =~= seq![
            Argument::PlaintextU128(tally_nonce),
            Argument::Account(poll_key, TALLY_BYTE_OFFSET, TALLY_BYTE_LEN),
        ],
{
    let mut args: Vec<Argument> = Vec::new();
    args.push(Argument::PlaintextU128(tally_nonce));
    args.push(Argument::Account(poll_key, TALLY_BYTE_OFFSET, TALLY_BYTE_LEN));
    args
}

} // verus!

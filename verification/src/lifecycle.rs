//! The poll lifecycle: create, vote and reveal.
//!
//! Each operation is one short synchronous step: it validates its inputs,
//! then builds the computation request the runtime is to queue. The actual
//! work runs out-of-process on the MPC cluster and lands later through the
//! matching callback entry point, which applies the result to the record —
//! or, on an abort, leaves the record exactly as it was. Between submission
//! and callback the tally is logically in flight: a second vote submitted in
//! that window references whatever generation is persisted at that moment,
//! and the cluster, not this core, serializes computations that touch the
//! same record. Once submitted, a computation either calls back once or never
//! does; the core has no timeout and no cancellation.
//!
//! A poll never blocks further votes after a reveal: the record keeps
//! accepting vote computations, and the authority may reveal again.

use vstd::prelude::*;
use vstd::utf8::encode_utf8;

use crate::circuit::max_count;
use crate::circuit::winning_option;
use crate::error::ErrorCode;
use crate::events::RevealResultEvent;
use crate::events::VoteEvent;
use crate::gateway::Argument;
use crate::gateway::CallbackAccount;
use crate::gateway::ComputationGateway;
use crate::gateway::ComputationOutputs;
use crate::gateway::ComputationRequest;
use crate::gateway::init_tally_args;
use crate::gateway::reveal_args;
use crate::gateway::vote_args;
use crate::poll::EncryptedTally;
use crate::poll::MAX_QUESTION_LEN;
use crate::poll::PollAccount;
use crate::poll::keys_equal;
use crate::record::TALLY_BYTE_LEN;
use crate::record::TALLY_BYTE_OFFSET;

verus! {

/// Every byte of every ciphertext slot is zero: the provisional state a poll
/// is stamped with before the cluster's own initialisation lands.
pub open spec fn all_zero_ciphertexts(counts: [[u8; 32]; 3]) -> bool {
    forall|i: int, j: int| 0 <= i < 3 && 0 <= j < 32 ==> #[trigger] counts@[i]@[j] == 0
}

/// How a tally computation's outcome relates the record before the callback
/// to the record after it: on success the ciphertext slots and the nonce are
/// replaced together with the payload's — one atomic generation change, all
/// other fields untouched — and on an abort nothing changes at all.
pub open spec fn tally_applied(
    pre: PollAccount,
    post: PollAccount,
    output: ComputationOutputs<EncryptedTally>,
) -> bool {
    match output {
        ComputationOutputs::Success(t) => {
            &&& post.vote_state == t.counts
            &&& post.nonce == t.nonce
            &&& post.bump == pre.bump
            &&& post.id == pre.id
            &&& post.authority == pre.authority
            &&& post.question == pre.question
        },
        ComputationOutputs::Aborted => post == pre,
    }
}

/// Creates a confidential poll.
///
/// The record starts with provisional all-zero ciphertexts and the caller's
/// nonce; the returned request asks the cluster to produce the real all-zero
/// ciphertext generation, which the creation callback applies. An over-long
/// question is refused before anything is built, and a missing cluster
/// refuses the whole creation — the record is only returned together with a
/// submitted request. If the initialisation computation later fails, the poll
/// stays at its provisional state; there is no automatic rollback.
pub fn create_poll(
    gateway: &ComputationGateway,
    computation_offset: u64,
    id: u32,
    question: String,
    nonce: u128,
    authority: [u8; 32],
    bump: u8,
    poll_key: [u8; 32],
) -> (r: Result<(PollAccount, ComputationRequest), ErrorCode>)
    ensures
        match r {
            Ok((poll, req)) => {
                &&& encode_utf8(question@).len() <= MAX_QUESTION_LEN as nat
                &&& gateway.cluster is Some
                &&& poll.bump == bump
                &&& poll.id == id
                &&& poll.authority == authority
                &&& poll.nonce == nonce
                &&& poll.question == question
                &&& all_zero_ciphertexts(poll.vote_state)
                &&& poll.wf()
                &&& req.computation_offset == computation_offset
                &&& req.args@ =~= seq![Argument::PlaintextU128(nonce)]
                &&& req.callback_targets@ =~= seq![
                    (CallbackAccount { pubkey: poll_key, is_writable: true }),
                ]
            },
            Err(e) => {
                ||| (e == ErrorCode::InvalidInput && encode_utf8(question@).len()
                    > MAX_QUESTION_LEN as nat)
                ||| (e == ErrorCode::ClusterNotSet && gateway.cluster is None && encode_utf8(
                    question@,
                ).len() <= MAX_QUESTION_LEN as nat)
            },
        },
{
    if question.as_str().as_bytes().len() > MAX_QUESTION_LEN {
        return Err(ErrorCode::InvalidInput);
    }
    let args = init_tally_args(nonce);
    let mut targets: Vec<CallbackAccount> = Vec::new();
    targets.push(CallbackAccount { pubkey: poll_key, is_writable: true });
    let req = match gateway.submit(computation_offset, args, targets) {
        Ok(req) => req,
        Err(e) => {
            return Err(e);
        },
    };
    let poll = PollAccount {
        bump,
        vote_state: [[0u8; 32], [0u8; 32], [0u8; 32]],
        id,
        authority,
        nonce,
        question,
    };
    Ok((poll, req))
}

/// Applies the result of the initialisation computation: on success the
/// record moves atomically to the cluster-produced generation; on an abort
/// the record is untouched and the abort is surfaced.
pub fn create_poll_callback(
    poll: &mut PollAccount,
    output: ComputationOutputs<EncryptedTally>,
) -> (r: Result<(), ErrorCode>)
    ensures
        tally_applied(*old(poll), *final(poll), output),
        output is Success <==> r is Ok,
        output is Aborted ==> r == Err::<(), ErrorCode>(ErrorCode::AbortedComputation),
{
    match output {
        ComputationOutputs::Success(tally) => {
            poll.set_tally(&tally);
            Ok(())
        },
        ComputationOutputs::Aborted => Err(ErrorCode::AbortedComputation),
    }
}

/// Submits an encrypted vote.
///
/// The request references the record's current generation — its nonce and the
/// byte window holding its ciphertext slots — so the cluster adds the vote to
/// the counters as they stand at submission. The record itself is not touched
/// here; only the vote callback mutates it.
pub fn vote(
    gateway: &ComputationGateway,
    computation_offset: u64,
    poll: &PollAccount,
    poll_key: [u8; 32],
    choice: [u8; 32],
    vote_encryption_pubkey: [u8; 32],
    vote_nonce: u128,
) -> (r: Result<ComputationRequest, ErrorCode>)
    ensures
        match r {
            Ok(req) => {
                &&& gateway.cluster is Some
                &&& req.computation_offset == computation_offset
                &&& req.args@ =~= seq![
                    Argument::ArcisPubkey(vote_encryption_pubkey),
                    Argument::PlaintextU128(vote_nonce),
                    Argument::EncryptedU8(choice),
                    Argument::PlaintextU128(poll.nonce),
                    Argument::Account(poll_key, TALLY_BYTE_OFFSET, TALLY_BYTE_LEN),
                ]
                &&& req.callback_targets@ =~= seq![
                    (CallbackAccount { pubkey: poll_key, is_writable: true }),
                ]
            },
            Err(e) => e == ErrorCode::ClusterNotSet && gateway.cluster is None,
        },
{
    let args = vote_args(vote_encryption_pubkey, vote_nonce, choice, poll.nonce, poll_key);
    let mut targets: Vec<CallbackAccount> = Vec::new();
    targets.push(CallbackAccount { pubkey: poll_key, is_writable: true });
    gateway.submit(computation_offset, args, targets)
}

/// Applies the result of a vote computation.
///
/// On success the record moves atomically to the new generation and a public
/// notification is returned carrying only the given timestamp — never the
/// vote's value, never the tallies. On an abort the record after the callback
/// equals the record before the vote was submitted, and the abort is
/// surfaced.
pub fn vote_callback(
    poll: &mut PollAccount,
    output: ComputationOutputs<EncryptedTally>,
    timestamp: i64,
) -> (r: Result<VoteEvent, ErrorCode>)
    ensures
        tally_applied(*old(poll), *final(poll), output),
        output is Success ==> r == Ok::<VoteEvent, ErrorCode>((VoteEvent { timestamp })),
        output is Aborted ==> r == Err::<VoteEvent, ErrorCode>(ErrorCode::AbortedComputation)
            && *final(poll) == *old(poll),
{
    match output {
        ComputationOutputs::Success(tally) => {
            poll.set_tally(&tally);
            Ok(VoteEvent { timestamp })
        },
        ComputationOutputs::Aborted => Err(ErrorCode::AbortedComputation),
    }
}

/// Submits a reveal of the poll's result.
///
/// Authority gate: a caller other than the poll's creator is refused with
/// `InvalidAuthority` before anything is built — no computation is submitted
/// and no state changes. For the creator, the request references the current
/// generation; its callback only emits an event, so it names no writable
/// record.
pub fn reveal_result(
    gateway: &ComputationGateway,
    computation_offset: u64,
    poll: &PollAccount,
    poll_key: [u8; 32],
    caller: [u8; 32],
) -> (r: Result<ComputationRequest, ErrorCode>)
    ensures
        match r {
            Ok(req) => {
                &&& caller == poll.authority
                &&& gateway.cluster is Some
                &&& req.computation_offset == computation_offset
                &&& req.args@ =~= seq![
                    Argument::PlaintextU128(poll.nonce),
                    Argument::Account(poll_key, TALLY_BYTE_OFFSET, TALLY_BYTE_LEN),
                ]
                &&& req.callback_targets@ =~= Seq::<CallbackAccount>::empty()
            },
            Err(e) => {
                ||| (e == ErrorCode::InvalidAuthority && caller != poll.authority)
                ||| (e == ErrorCode::ClusterNotSet && caller == poll.authority
                    && gateway.cluster is None)
            },
        },
{
    if !keys_equal(&caller, &poll.authority) {
        return Err(ErrorCode::InvalidAuthority);
    }
    let args = reveal_args(poll.nonce, poll_key);
    let targets: Vec<CallbackAccount> = Vec::new();
    gateway.submit(computation_offset, args, targets)
}

/// Applies the result of a reveal computation: on success the event disclosing
/// the winning option is returned; on an abort only the abort is surfaced.
/// Nothing here mutates the record — reveal reads the tally, it does not
/// replace it.
pub fn reveal_result_callback(output: ComputationOutputs<u8>) -> (r: Result<
    RevealResultEvent,
    ErrorCode,
>)
    ensures
        output matches ComputationOutputs::Success(winner) ==> r == Ok::<
            RevealResultEvent,
            ErrorCode,
        >((RevealResultEvent { output: winner })),
        output is Aborted ==> r == Err::<RevealResultEvent, ErrorCode>(
            ErrorCode::AbortedComputation,
        ),
{
    match output {
        ComputationOutputs::Success(winner) => Ok(RevealResultEvent { output: winner }),
        ComputationOutputs::Aborted => Err(ErrorCode::AbortedComputation),
    }
}

/// Atomic generation replace: however a tally computation ends, an observer
/// of the record afterwards sees either the old generation — ciphertext slots
/// and nonce both — or the payload's new generation, never the slots of one
/// paired with the nonce of the other.
pub proof fn lemma_atomic_generation_replace(
    pre: PollAccount,
    post: PollAccount,
    output: ComputationOutputs<EncryptedTally>,
)
    requires
        tally_applied(pre, post, output),
    ensures
        post.current_tally() == pre.current_tally() || (output
            matches ComputationOutputs::Success(t) && post.current_tally() == t),
{
}

/// Single-winner disclosure: the event a reveal emits carries one option
/// index — the smallest index reaching the maximum count — and, by its type,
/// nothing else; in particular no count ever leaves the cluster.
pub proof fn lemma_single_winner_disclosure(counts: Seq<u64>, ev: RevealResultEvent)
    requires
        counts.len() == 3,
        ev.output as int == winning_option(counts),
    ensures
        ev.output < 3,
        counts[ev.output as int] == max_count(counts),
{
    crate::circuit::lemma_winner_smallest_index(counts);
}

} // verus!

//! Byte layout of the persisted poll record.
//!
//! The record is stored as one opaque blob by the storage collaborator, but
//! its field order and widths are a wire contract: a computation request
//! names the current ciphertext slots by a byte window into this layout, so
//! the cluster can read them in place instead of having them re-serialized
//! into the request. [`lemma_tally_window`] proves that the window the
//! gateway uses covers exactly the three ciphertext slots.

use vstd::bytes::spec_u128_to_le_bytes;
use vstd::bytes::spec_u32_to_le_bytes;
use vstd::bytes::u128_to_le_bytes;
use vstd::bytes::u32_to_le_bytes;
use vstd::prelude::*;
use vstd::slice::slice_to_vec;
use vstd::utf8::encode_utf8;

use crate::poll::PollAccount;

verus! {

/// Where the ciphertext slots begin within the record: right after the one
/// bump byte.
pub const TALLY_BYTE_OFFSET: u32 = 1;

/// Total width of the three ciphertext slots: three options at 32 bytes each.
pub const TALLY_BYTE_LEN: u32 = 96;

/// The three ciphertext slots, flattened in option order.
pub open spec fn spec_counts_bytes(counts: [[u8; 32]; 3]) -> Seq<u8> {
    counts@[0]@ + counts@[1]@ + counts@[2]@
}

/// The record's bytes: bump, ciphertext slots, id, authority, nonce, then the
/// question behind a little-endian length prefix.
pub open spec fn spec_encode_poll(p: PollAccount) -> Seq<u8> {
    seq![p.bump] + spec_counts_bytes(p.vote_state) + spec_u32_to_le_bytes(p.id) + p.authority@
        + spec_u128_to_le_bytes(p.nonce) + spec_u32_to_le_bytes(
        encode_utf8(p.question@).len() as u32,
    ) + encode_utf8(p.question@)
}

/// Serializes a poll record into its persisted form.
pub fn encode_poll(p: &PollAccount) -> (r: Vec<u8>)
    requires
        p.wf(),
    ensures
        r@ == spec_encode_poll(*p),
{
    let mut out: Vec<u8> = Vec::new();
    out.push(p.bump);
    let mut slot0 = slice_to_vec(p.vote_state[0].as_slice());
    out.append(&mut slot0);
    let mut slot1 = slice_to_vec(p.vote_state[1].as_slice());
    out.append(&mut slot1);
    let mut slot2 = slice_to_vec(p.vote_state[2].as_slice());
    out.append(&mut slot2);
    let mut id_bytes = u32_to_le_bytes(p.id);
    out.append(&mut id_bytes);
    let mut authority_bytes = slice_to_vec(p.authority.as_slice());
    out.append(&mut authority_bytes);
    let mut nonce_bytes = u128_to_le_bytes(p.nonce);
    out.append(&mut nonce_bytes);
    let question_bytes = p.question.as_str().as_bytes();
    let mut len_bytes = u32_to_le_bytes(question_bytes.len() as u32);
    out.append(&mut len_bytes);
    let mut tail = slice_to_vec(question_bytes);
    out.append(&mut tail);
    proof {
        assert(out@ =~= spec_encode_poll(*p));
    }
    out
}

/// The byte window a computation request names — starting at
/// [`TALLY_BYTE_OFFSET`], [`TALLY_BYTE_LEN`] bytes wide — covers exactly the
/// current ciphertext slots of the encoded record, whatever the rest of the
/// record holds.
pub proof fn lemma_tally_window(p: PollAccount)
    ensures
        spec_encode_poll(p).subrange(
            TALLY_BYTE_OFFSET as int,
            TALLY_BYTE_OFFSET as int + TALLY_BYTE_LEN as int,
        ) =~= spec_counts_bytes(p.vote_state),
{
    broadcast use vstd::array::group_array_axioms;

    assert(spec_counts_bytes(p.vote_state).len() == 96);
}

} // verus!

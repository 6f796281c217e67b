//! Durable per-poll state: identity, authority and the encrypted tally.
//!
//! The tally's ciphertext slots and nonce form one generation: they are
//! replaced together through [`PollAccount::set_tally`] and never one without
//! the other, so no reader can observe counters from one generation paired
//! with the nonce of another.

use vstd::prelude::*;
use vstd::utf8::encode_utf8;

verus! {

/// Longest accepted poll question, in bytes of UTF-8.
pub const MAX_QUESTION_LEN: usize = 50;

/// One generation of the confidential counter state: three ciphertext slots,
/// one per voting option, and the nonce that binds this exact ciphertext
/// state to the encryption scheme's randomness domain. The cluster needs the
/// nonce unmodified to operate on the slots.
#[derive(Clone, Copy, Debug, PartialEq, Eq)]
pub struct EncryptedTally {
    /// Encrypted counters, one 32-byte ciphertext per voting option.
    pub counts: [[u8; 32]; 3],
    /// Randomness-domain tag of this ciphertext generation.
    pub nonce: u128,
}

/// The persisted record of one poll.
#[derive(Debug)]
pub struct PollAccount {
    /// Derivation metadata of the storage collaborator; opaque to the core.
    pub bump: u8,
    /// Encrypted vote counters, one 32-byte ciphertext per voting option.
    pub vote_state: [[u8; 32]; 3],
    /// Caller-chosen identifier, unique per creating authority.
    pub id: u32,
    /// Identity of the creator; only its holder may trigger a reveal.
    pub authority: [u8; 32],
    /// Nonce of the current tally generation; always replaced together with
    /// `vote_state`.
    pub nonce: u128,
    /// The poll question; immutable after creation.
    pub question: String,
}

impl PollAccount {
    /// A well-formed record keeps its question within the persisted bound.
    pub open spec fn wf(&self) -> bool {
        encode_utf8(self.question@).len() <= MAX_QUESTION_LEN as nat
    }

    /// The tally generation this record currently holds.
    pub open spec fn current_tally(&self) -> EncryptedTally {
        EncryptedTally { counts: self.vote_state, nonce: self.nonce }
    }

    /// Reads the current tally generation: the ciphertext slots together with
    /// the nonce that belongs to them.
    pub fn tally(&self) -> (t: EncryptedTally)
        ensures
            t == self.current_tally(),
    {
        EncryptedTally { counts: self.vote_state, nonce: self.nonce }
    }

    /// Replaces the tally generation atomically: the ciphertext slots and the
    /// nonce change together, and nothing else of the record changes.
    pub fn set_tally(&mut self, tally: &EncryptedTally)
        ensures
            final(self).vote_state == tally.counts,
            final(self).nonce == tally.nonce,
            final(self).bump == old(self).bump,
            final(self).id == old(self).id,
            final(self).authority == old(self).authority,
            final(self).question == old(self).question,
            final(self).wf() == old(self).wf(),
    {
        self.vote_state = tally.counts;
        self.nonce = tally.nonce;
    }
}

/// Compares two 32-byte identities.
pub fn keys_equal(a: &[u8; 32], b: &[u8; 32]) -> (r: bool)
    ensures
        r == (*a == *b),
{
    let mut i: usize = 0;
    let mut same = true;
    while i < 32
        invariant
            i <= 32,
            same == (forall|j: int| 0 <= j < i ==> a@[j] == b@[j]),
        decreases 32 - i,
    {
        same = same && (a[i] == b[i]);
        i = i + 1;
    }
    proof {
        broadcast use vstd::array::group_array_axioms;

        if same {
            assert(*a =~= *b);
        } else {
            let j = choose|j: int| 0 <= j < 32 && a@[j] != b@[j];
            assert(a@[j] != b@[j]);
            assert(*a != *b);
        }
    }
    same
}

} // verus!

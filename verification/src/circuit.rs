//! Plaintext model of the tally circuit executed by the MPC cluster.
//!
//! The cluster runs these transformations over encrypted values; this module
//! states and verifies their behaviour over the underlying plaintext
//! counters. Selection is expressed as a value-level blend over all three
//! counters: every counter is read and written on every call, and no
//! operation's execution or omission depends on the secret vote, so the
//! circuit's communication and timing pattern cannot leak which option was
//! chosen. Equality tests against the secret appear only as values, which the
//! cluster evaluates as oblivious selects.

use vstd::prelude::*;

use crate::error::ErrorCode;

verus! {

/// Running tallies for a poll, one counter per voting option. The number of
/// options is fixed at three by design.
pub type VoteCounts = [u64; 3];

/// A single vote: a confidential option code.
#[derive(Clone, Copy, Debug, PartialEq, Eq, Structural)]
pub struct UserVote {
    /// The chosen option. Legal codes are 0, 1 and 2.
    pub vote: u8,
}

/// A vote code is legal when it names one of the three options.
pub open spec fn valid_vote_code(v: u8) -> bool {
    v < 3
}

impl UserVote {
    /// Validates a vote code before it may reach the circuit: codes outside
    /// the three options are rejected here, since their effect on the
    /// counters would otherwise be unspecified.
    pub fn new(vote: u8) -> (r: Result<UserVote, ErrorCode>)
        ensures
            valid_vote_code(vote) ==> r == Ok::<UserVote, ErrorCode>(UserVote { vote }),
            !valid_vote_code(vote) ==> r == Err::<UserVote, ErrorCode>(ErrorCode::InvalidInput),
    {
        if vote < 3 {
            Ok(UserVote { vote })
        } else {
            Err(ErrorCode::InvalidInput)
        }
    }
}

/// How much one vote adds to the counter of `option`: one on the chosen
/// option, zero on the other two.
pub open spec fn vote_increment(v: u8, option: u8) -> u64 {
    if v == option {
        1
    } else {
        0
    }
}

/// The plaintext counters after a sequence of accepted votes, starting from
/// all-zero. Counters are unbounded here; the executable circuit caps them at
/// the machine word.
pub open spec fn spec_tally(votes: Seq<u8>) -> Seq<int>
    decreases votes.len(),
{
    if votes.len() == 0 {
        seq![0, 0, 0]
    } else {
        let t = spec_tally(votes.drop_last());
        let v = votes.last() as int;
        t.update(v, t[v] + 1)
    }
}

/// How many votes in `votes` chose `option`.
pub open spec fn count_votes_for(votes: Seq<u8>, option: u8) -> int
    decreases votes.len(),
{
    if votes.len() == 0 {
        0
    } else {
        count_votes_for(votes.drop_last(), option) + vote_increment(votes.last(), option)
    }
}

/// Produces the all-zero counters for a new poll.
pub fn init_poll() -> (counts: VoteCounts)
    ensures
        counts@ =~= seq![0u64, 0u64, 0u64],
{
    [0u64, 0u64, 0u64]
}

/// Adds one vote to the running tallies.
///
/// Exactly one counter grows by one, but the selection is a data-independent
/// blend: each of the three counters is incremented by the value of an
/// equality test against the vote, so the same operations run whatever the
/// vote is.
pub fn vote(user_vote: &UserVote, vote_counts: VoteCounts) -> (updated: VoteCounts)
    requires
        valid_vote_code(user_vote.vote),
        vote_counts@[user_vote.vote as int] < u64::MAX,
    ensures
        forall|i: int|
            0 <= i < 3 ==> updated@[i] == vote_counts@[i] + vote_increment(
                user_vote.vote,
                i as u8,
            ),
{
    let inc0: u64 = if user_vote.vote == 0 {
        1
    } else {
        0
    };
    let inc1: u64 = if user_vote.vote == 1 {
        1
    } else {
        0
    };
    let inc2: u64 = if user_vote.vote == 2 {
        1
    } else {
        0
    };
    [vote_counts[0] + inc0, vote_counts[1] + inc1, vote_counts[2] + inc2]
}

/// The largest of the three counters.
pub open spec fn max_count(counts: Seq<u64>) -> u64
    recommends
        counts.len() == 3,
{
    if counts[0] >= counts[1] && counts[0] >= counts[2] {
        counts[0]
    } else if counts[1] >= counts[2] {
        counts[1]
    } else {
        counts[2]
    }
}

/// The winning option: the smallest index whose counter reaches the maximum.
pub open spec fn winning_option(counts: Seq<u64>) -> int
    recommends
        counts.len() == 3,
{
    if counts[0] == max_count(counts) {
        0
    } else if counts[1] == max_count(counts) {
        1
    } else {
        2
    }
}

/// Discloses the winner of the poll and nothing else.
///
/// All three counters are revealed unconditionally (never an early exit that
/// would leak how the comparison went), the maximum is taken over all of
/// them, and all three equality tests are evaluated before the first true one
/// is picked. Ties go to the lower index.
pub fn reveal_result(vote_counts: VoteCounts) -> (winner: u8)
    ensures
        winner as int == winning_option(vote_counts@),
        winner < 3,
{
    let count0 = vote_counts[0];
    let count1 = vote_counts[1];
    let count2 = vote_counts[2];
    let top01 = if count0 >= count1 {
        count0
    } else {
        count1
    };
    let top = if top01 >= count2 {
        top01
    } else {
        count2
    };
    let is0 = count0 == top;
    let is1 = count1 == top;
    let is2 = count2 == top;
    if is0 {
        0
    } else if is1 {
        1
    } else if is2 {
        2
    } else {
        2
    }
}

/// Tie-break determinism: for any counters, the winning option is the
/// smallest index achieving the maximum count. Every counter is at most the
/// winner's, and every option before the winner is strictly below it.
pub proof fn lemma_winner_smallest_index(counts: Seq<u64>)
    requires
        counts.len() == 3,
    ensures
        0 <= winning_option(counts) < 3,
        counts[winning_option(counts)] == max_count(counts),
        forall|j: int| 0 <= j < 3 ==> counts[j] <= max_count(counts),
        forall|j: int|
            0 <= j < winning_option(counts) ==> #[trigger] counts[j] < counts[
                winning_option(counts)
            ],
{
}

/// One accepted vote advances the plaintext tally by one step: counters that
/// satisfy the executable circuit's contract for a single vote track
/// `spec_tally` of the extended vote sequence.
pub proof fn lemma_vote_advances_tally(votes: Seq<u8>, v: u8, pre: Seq<u64>, post: Seq<u64>)
    requires
        forall|i: int| 0 <= i < votes.len() ==> valid_vote_code(#[trigger] votes[i]),
        valid_vote_code(v),
        pre.len() == 3,
        post.len() == 3,
        forall|i: int| 0 <= i < 3 ==> pre[i] == spec_tally(votes)[i],
        forall|i: int| 0 <= i < 3 ==> post[i] == pre[i] + vote_increment(v, i as u8),
    ensures
        forall|i: int| 0 <= i < 3 ==> post[i] == spec_tally(votes.push(v))[i],
{
    assert(votes.push(v).drop_last() =~= votes);
    assert(votes.push(v).last() == v);
    lemma_tally_len(votes);
}

/// The tally always has one counter per option.
pub proof fn lemma_tally_len(votes: Seq<u8>)
    requires
        forall|i: int| 0 <= i < votes.len() ==> valid_vote_code(#[trigger] votes[i]),
    ensures
        spec_tally(votes).len() == 3,
    decreases votes.len(),
{
    if votes.len() > 0 {
        let prefix = votes.drop_last();
        assert(forall|i: int| 0 <= i < prefix.len() ==> valid_vote_code(#[trigger] prefix[i]));
        lemma_tally_len(prefix);
    }
}

/// Vote conservation: after any sequence of accepted votes, each counter
/// equals the number of votes that chose its option, and the three counters
/// sum to the number of votes.
pub proof fn lemma_vote_conservation(votes: Seq<u8>)
    requires
        forall|i: int| 0 <= i < votes.len() ==> valid_vote_code(#[trigger] votes[i]),
    ensures
        spec_tally(votes).len() == 3,
        forall|opt: u8| opt < 3 ==> spec_tally(votes)[opt as int] == count_votes_for(votes, opt),
        spec_tally(votes)[0] + spec_tally(votes)[1] + spec_tally(votes)[2] == votes.len(),
    decreases votes.len(),
{
    lemma_tally_len(votes);
    if votes.len() > 0 {
        let prefix = votes.drop_last();
        assert(forall|i: int| 0 <= i < prefix.len() ==> valid_vote_code(#[trigger] prefix[i]));
        lemma_vote_conservation(prefix);
        assert forall|opt: u8| opt < 3 implies spec_tally(votes)[opt as int] == count_votes_for(
            votes,
            opt,
        ) by {
            lemma_tally_len(prefix);
            let t = spec_tally(prefix);
            let v = votes.last();
            assert(valid_vote_code(v));
            assert(spec_tally(votes) == t.update(v as int, t[v as int] + 1));
            assert(count_votes_for(votes, opt) == count_votes_for(prefix, opt) + vote_increment(
                v,
                opt,
            ));
        }
    }
}

} // verus!

use voting::error::ErrorCode;
use voting::events::RevealResultEvent;
use voting::events::VoteEvent;
use voting::gateway::Argument;
use voting::gateway::CallbackAccount;
use voting::gateway::ComputationGateway;
use voting::gateway::ComputationOutputs;
use voting::lifecycle::create_poll;
use voting::lifecycle::create_poll_callback;
use voting::lifecycle::reveal_result;
use voting::lifecycle::reveal_result_callback;
use voting::lifecycle::vote;
use voting::lifecycle::vote_callback;
use voting::poll::EncryptedTally;
use voting::poll::PollAccount;

fn provisioned() -> ComputationGateway {
    ComputationGateway { cluster: Some(1) }
}

fn sample_poll() -> PollAccount {
    PollAccount {
        bump: 254,
        vote_state: [[0; 32]; 3],
        id: 42,
        authority: [7; 32],
        nonce: 1_000_000,
        question: String::from("Which assistant gadget wins?"),
    }
}

#[test]
fn create_poll_stamps_the_provisional_record() {
    let (poll, req) = create_poll(
        &provisioned(),
        55,
        42,
        String::from("Which assistant gadget wins?"),
        1_000_000,
        [7; 32],
        254,
        [9; 32],
    )
    .unwrap();
    assert_eq!(poll.bump, 254);
    assert_eq!(poll.id, 42);
    assert_eq!(poll.authority, [7; 32]);
    assert_eq!(poll.nonce, 1_000_000);
    assert_eq!(poll.question, "Which assistant gadget wins?");
    assert_eq!(poll.vote_state, [[0; 32]; 3]);
    assert_eq!(req.computation_offset, 55);
    assert_eq!(req.args, vec![Argument::PlaintextU128(1_000_000)]);
    assert_eq!(
        req.callback_targets,
        vec![CallbackAccount { pubkey: [9; 32], is_writable: true }]
    );
}

#[test]
fn create_poll_rejects_an_over_long_question() {
    let question: String = "x".repeat(51);
    let r = create_poll(&provisioned(), 1, 1, question, 5, [7; 32], 254, [9; 32]);
    assert_eq!(r.unwrap_err(), ErrorCode::InvalidInput);
}

#[test]
fn create_poll_accepts_a_question_at_the_bound() {
    let question: String = "y".repeat(50);
    assert!(create_poll(&provisioned(), 1, 1, question, 5, [7; 32], 254, [9; 32]).is_ok());
}

#[test]
fn create_poll_needs_a_provisioned_cluster() {
    let bare = ComputationGateway { cluster: None };
    let r = create_poll(&bare, 1, 1, String::from("q"), 5, [7; 32], 254, [9; 32]);
    assert_eq!(r.unwrap_err(), ErrorCode::ClusterNotSet);
}

#[test]
fn vote_references_the_current_generation() {
    let poll = sample_poll();
    let req = vote(&provisioned(), 77, &poll, [9; 32], [3; 32], [4; 32], 2_000).unwrap();
    assert_eq!(req.computation_offset, 77);
    assert_eq!(
        req.args,
        vec![
            Argument::ArcisPubkey([4; 32]),
            Argument::PlaintextU128(2_000),
            Argument::EncryptedU8([3; 32]),
            Argument::PlaintextU128(1_000_000),
            Argument::Account([9; 32], 1, 96),
        ]
    );
    assert_eq!(
        req.callback_targets,
        vec![CallbackAccount { pubkey: [9; 32], is_writable: true }]
    );
}

#[test]
fn vote_needs_a_provisioned_cluster() {
    let bare = ComputationGateway { cluster: None };
    let poll = sample_poll();
    let r = vote(&bare, 77, &poll, [9; 32], [3; 32], [4; 32], 2_000);
    assert_eq!(r.unwrap_err(), ErrorCode::ClusterNotSet);
}

#[test]
fn reveal_is_gated_on_the_authority() {
    let poll = sample_poll();
    let intruder = [8; 32];
    let r = reveal_result(&provisioned(), 88, &poll, [9; 32], intruder);
    assert_eq!(r.unwrap_err(), ErrorCode::InvalidAuthority);
}

#[test]
fn reveal_by_the_authority_references_the_current_generation() {
    let poll = sample_poll();
    let req = reveal_result(&provisioned(), 88, &poll, [9; 32], [7; 32]).unwrap();
    assert_eq!(req.computation_offset, 88);
    assert_eq!(
        req.args,
        vec![
            Argument::PlaintextU128(1_000_000),
            Argument::Account([9; 32], 1, 96),
        ]
    );
    assert!(req.callback_targets.is_empty());
}

#[test]
fn create_callback_applies_the_new_generation() {
    let mut poll = sample_poll();
    let tally = EncryptedTally { counts: [[5; 32], [6; 32], [7; 32]], nonce: 2_000_000 };
    assert_eq!(create_poll_callback(&mut poll, ComputationOutputs::Success(tally)), Ok(()));
    assert_eq!(poll.vote_state, [[5; 32], [6; 32], [7; 32]]);
    assert_eq!(poll.nonce, 2_000_000);
    assert_eq!(poll.question, "Which assistant gadget wins?");
}

#[test]
fn create_callback_abort_changes_nothing() {
    let mut poll = sample_poll();
    let r = create_poll_callback(&mut poll, ComputationOutputs::Aborted);
    assert_eq!(r.unwrap_err(), ErrorCode::AbortedComputation);
    assert_eq!(poll.vote_state, [[0; 32]; 3]);
    assert_eq!(poll.nonce, 1_000_000);
}

#[test]
fn vote_callback_replaces_counters_and_nonce_together() {
    let mut poll = sample_poll();
    let tally = EncryptedTally { counts: [[1; 32], [2; 32], [3; 32]], nonce: 3_000_000 };
    let ev = vote_callback(&mut poll, ComputationOutputs::Success(tally), 1_700_000_000).unwrap();
    assert_eq!(ev, VoteEvent { timestamp: 1_700_000_000 });
    assert_eq!(poll.vote_state, [[1; 32], [2; 32], [3; 32]]);
    assert_eq!(poll.nonce, 3_000_000);
}

#[test]
fn vote_callback_abort_leaves_the_tally_unchanged() {
    let mut poll = sample_poll();
    let before_counts = poll.vote_state;
    let before_nonce = poll.nonce;
    let r = vote_callback(&mut poll, ComputationOutputs::Aborted, 1_700_000_000);
    assert_eq!(r.unwrap_err(), ErrorCode::AbortedComputation);
    assert_eq!(poll.vote_state, before_counts);
    assert_eq!(poll.nonce, before_nonce);
}

#[test]
fn reveal_callback_emits_only_the_winner_index() {
    let ev = reveal_result_callback(ComputationOutputs::Success(2)).unwrap();
    assert_eq!(ev, RevealResultEvent { output: 2 });
}

#[test]
fn reveal_callback_abort_is_surfaced() {
    let r = reveal_result_callback(ComputationOutputs::Aborted);
    assert_eq!(r.unwrap_err(), ErrorCode::AbortedComputation);
}

#[test]
fn tally_reads_slots_and_nonce_as_one_generation() {
    let mut poll = sample_poll();
    let before = poll.tally();
    assert_eq!(before.counts, poll.vote_state);
    assert_eq!(before.nonce, poll.nonce);
    let next = EncryptedTally { counts: [[8; 32], [9; 32], [10; 32]], nonce: 4_000_000 };
    vote_callback(&mut poll, ComputationOutputs::Success(next), 1).unwrap();
    let after = poll.tally();
    assert_eq!(after.counts, next.counts);
    assert_eq!(after.nonce, 4_000_000);
}

#[test]
fn error_messages_name_the_failure() {
    assert_eq!(ErrorCode::InvalidAuthority.message(), "Invalid authority");
    assert_eq!(ErrorCode::AbortedComputation.message(), "The computation was aborted");
    assert_eq!(ErrorCode::ClusterNotSet.message(), "Cluster not set");
    assert_eq!(ErrorCode::InvalidInput.message(), "Invalid input");
}

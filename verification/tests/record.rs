use voting::poll::PollAccount;
use voting::record::encode_poll;
use voting::record::TALLY_BYTE_LEN;
use voting::record::TALLY_BYTE_OFFSET;

fn sample_poll() -> PollAccount {
    PollAccount {
        bump: 254,
        vote_state: [[0xAA; 32], [0xBB; 32], [0xCC; 32]],
        id: 0x0403_0201,
        authority: [7; 32],
        nonce: 0x1009_0807_0605_0403_0201,
        question: String::from("hi"),
    }
}

#[test]
fn record_layout_is_fixed_and_ordered() {
    let bytes = encode_poll(&sample_poll());
    assert_eq!(bytes.len(), 1 + 96 + 4 + 32 + 16 + 4 + 2);
    assert_eq!(bytes[0], 254);
    assert!(bytes[1..33].iter().all(|b| *b == 0xAA));
    assert!(bytes[33..65].iter().all(|b| *b == 0xBB));
    assert!(bytes[65..97].iter().all(|b| *b == 0xCC));
    assert_eq!(&bytes[97..101], &[0x01, 0x02, 0x03, 0x04]);
    assert!(bytes[101..133].iter().all(|b| *b == 7));
    assert_eq!(
        &bytes[133..149],
        &[0x01, 0x02, 0x03, 0x04, 0x05, 0x06, 0x07, 0x08, 0x09, 0x10, 0, 0, 0, 0, 0, 0]
    );
    assert_eq!(&bytes[149..153], &[2, 0, 0, 0]);
    assert_eq!(&bytes[153..], "hi".as_bytes());
}

#[test]
fn the_request_window_covers_exactly_the_ciphertext_slots() {
    let poll = sample_poll();
    let bytes = encode_poll(&poll);
    let start = TALLY_BYTE_OFFSET as usize;
    let end = start + TALLY_BYTE_LEN as usize;
    let window = &bytes[start..end];
    let mut flat: Vec<u8> = Vec::new();
    for slot in poll.vote_state.iter() {
        flat.extend_from_slice(slot);
    }
    assert_eq!(window, flat.as_slice());
}

#[test]
fn an_empty_question_still_carries_its_length_prefix() {
    let mut poll = sample_poll();
    poll.question = String::new();
    let bytes = encode_poll(&poll);
    assert_eq!(bytes.len(), 1 + 96 + 4 + 32 + 16 + 4);
    assert_eq!(&bytes[149..153], &[0, 0, 0, 0]);
}

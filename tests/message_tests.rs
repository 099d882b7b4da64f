use wormhole_svm::message::{extract_posted_messages, read_emitter_sequence, MessageEvent, PostMessageData};

/// Selector and discriminator used by these tests; the real values come
/// from the message-emission program.
const POST_MESSAGE_SELECTOR: [u8; 8] = [214, 50, 100, 209, 38, 34, 7, 76];
const MESSAGE_EVENT_DISCRIMINATOR: [u8; 8] = [68, 76, 206, 225, 167, 17, 15, 164];

fn post_data(nonce: u32, finality: u8, payload: &[u8]) -> Vec<u8> {
    let mut data = Vec::new();
    data.extend_from_slice(&POST_MESSAGE_SELECTOR);
    data.extend_from_slice(&nonce.to_le_bytes());
    data.push(finality);
    data.extend_from_slice(&(payload.len() as u32).to_le_bytes());
    data.extend_from_slice(payload);
    data
}

fn event_data(emitter: [u8; 32], sequence: u64, submission_time: u32) -> Vec<u8> {
    let mut data = Vec::new();
    data.extend_from_slice(&[228, 69, 165, 46, 81, 203, 154, 29]);
    data.extend_from_slice(&MESSAGE_EVENT_DISCRIMINATOR);
    data.extend_from_slice(&emitter);
    data.extend_from_slice(&sequence.to_le_bytes());
    data.extend_from_slice(&submission_time.to_le_bytes());
    data
}

#[test]
fn test_message_event_parsing() {
    let emitter = [0x5Au8; 32];
    let sequence = 42u64;
    let submission_time = 1234567890u32;
    let data = event_data(emitter, sequence, submission_time);

    let event = MessageEvent::parse(&data, &MESSAGE_EVENT_DISCRIMINATOR).expect("should parse");
    assert_eq!(event.emitter, emitter);
    assert_eq!(event.sequence, sequence);
    assert_eq!(event.submission_time, submission_time);

    let mut bad_data = data.clone();
    bad_data[8] = 0xFF;
    assert!(MessageEvent::parse(&bad_data, &MESSAGE_EVENT_DISCRIMINATOR).is_none());

    assert!(MessageEvent::parse(&data[..20], &MESSAGE_EVENT_DISCRIMINATOR).is_none());
}

#[test]
fn test_post_message_data_parsing() {
    let nonce = 12345u32;
    let finality = 1u8;
    let payload = b"Test payload for parsing";
    let data = post_data(nonce, finality, payload);

    let parsed = PostMessageData::parse(&data, &POST_MESSAGE_SELECTOR).expect("should parse");
    assert_eq!(parsed.nonce, nonce);
    assert_eq!(parsed.finality, finality);
    assert_eq!(parsed.payload, payload);

    let mut bad_data = data.clone();
    bad_data[0] = 0xFF;
    assert!(PostMessageData::parse(&bad_data, &POST_MESSAGE_SELECTOR).is_none());

    assert!(PostMessageData::parse(&data[..17], &POST_MESSAGE_SELECTOR).is_none());
    assert!(PostMessageData::parse(&data[..10], &POST_MESSAGE_SELECTOR).is_none());
}

#[test]
fn posts_pair_with_events_in_order() {
    let datas = vec![
        post_data(1, 0, b"first"),
        vec![1, 2, 3],
        event_data([1; 32], 10, 100),
        post_data(2, 1, b"second"),
        event_data([2; 32], 11, 101),
        post_data(3, 1, b"unpaired"),
    ];
    let messages =
        extract_posted_messages(&datas, &POST_MESSAGE_SELECTOR, &MESSAGE_EVENT_DISCRIMINATOR);
    assert_eq!(messages.len(), 2);
    assert_eq!(messages[0].payload, b"first".to_vec());
    assert_eq!(messages[0].emitter, [1; 32]);
    assert_eq!(messages[0].sequence, 10);
    assert_eq!(messages[1].nonce, 2);
    assert_eq!(messages[1].consistency_level, 1);
    assert_eq!(messages[1].timestamp, 101);
    assert_eq!(messages[1].emitter_chain, 1);

    let vaa = messages[1].to_test_vaa();
    assert_eq!(vaa.emitter_address, [2; 32]);
    assert_eq!(vaa.sequence, 11);
    assert_eq!(vaa.payload, b"second".to_vec());
    assert_eq!(vaa.guardian_set_index, 0);
}

#[test]
fn no_messages_without_posts() {
    let datas = vec![event_data([1; 32], 10, 100)];
    assert!(extract_posted_messages(&datas, &POST_MESSAGE_SELECTOR, &MESSAGE_EVENT_DISCRIMINATOR)
        .is_empty());
}

#[test]
fn emitter_sequence_is_first_eight_bytes() {
    assert_eq!(read_emitter_sequence(&[3, 0, 0, 0, 0, 0, 0, 0, 9]), Some(3));
    assert_eq!(read_emitter_sequence(&[3, 0, 0]), None);
}

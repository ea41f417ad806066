use p2p_chat::discovery::{
    hex_encode, read_message, DiscoveryPeer, DiscoveryStream, Incoming,
};

fn key() -> Vec<u8> {
    (1u8..=32).collect()
}

#[test]
fn discovery_get() {
    assert_eq!(2, 2);
}

#[test]
fn hex_is_lower_case_two_digits_per_byte() {
    assert_eq!(hex_encode(&[0xde, 0xad, 0xbe, 0xef, 0x00, 0x0a]), b"deadbeef000a".to_vec());
}

#[test]
fn rendezvous_name_uses_first_forty_hex_digits() {
    let stream = DiscoveryStream::new(&key(), 12345, b"tok".to_vec());
    assert_eq!(stream.name.len(), 3);
    assert_eq!(stream.name[0], b"0102030405060708090a0b0c0d0e0f1011121314".to_vec());
    assert_eq!(stream.name[1], b"chat".to_vec());
    assert_eq!(stream.name[2], b"local".to_vec());
    assert_eq!(stream.peer.addr, [0, 0, 0, 0]);
    assert_eq!(stream.peer.port(), 12345);
}

#[test]
fn peers_field_encoding() {
    let peer = DiscoveryPeer { addr: [192, 168, 1, 20], port: 12345, token: b"t".to_vec() };
    assert_eq!(peer.encode_peers_field(), b"wKgBFDA5".to_vec());
}

#[test]
fn peers_field_round_trip() {
    for (addr, port) in [([192u8, 168, 1, 20], 12345u16), ([0, 0, 0, 0], 0), ([255, 255, 255, 255], 65535)] {
        let peer = DiscoveryPeer { addr, port, token: Vec::new() };
        let field = peer.encode_peers_field();
        assert_eq!(DiscoveryPeer::decode_peers_field(&field), Some((addr, port)));
    }
}

#[test]
fn peers_field_rejects_bad_text() {
    assert_eq!(DiscoveryPeer::decode_peers_field(b"!!!"), None);
    assert_eq!(DiscoveryPeer::decode_peers_field(b"AAAA"), None);
}

#[test]
fn record_needs_token_and_peers() {
    let only_token = vec![b"token=abc".to_vec()];
    assert!(DiscoveryPeer::from_record(&only_token).is_none());
    let twice_token = vec![b"token=a".to_vec(), b"token=b".to_vec()];
    assert!(DiscoveryPeer::from_record(&twice_token).is_none());
    let full = vec![b"other=1".to_vec(), b"peers=wKgBFDA5".to_vec(), b"token=a=b".to_vec()];
    let peer = DiscoveryPeer::from_record(&full).unwrap();
    assert_eq!(peer.addr(), [192, 168, 1, 20]);
    assert_eq!(peer.port(), 12345);
    assert_eq!(peer.token(), b"a=b".to_vec());
}

#[test]
fn first_announcing_record_wins() {
    let records = vec![
        vec![b"token=x".to_vec()],
        vec![b"token=y".to_vec(), b"peers=wKgBFDA5".to_vec()],
    ];
    let peer = DiscoveryPeer::from_message(&records).unwrap();
    assert_eq!(peer.token(), b"y".to_vec());
}

#[test]
fn query_is_answered() {
    let stream = DiscoveryStream::new(&key(), 1, b"me".to_vec());
    let question = stream.create_mdns_question().unwrap();
    let message = read_message(&question).unwrap();
    assert!(!message.is_response);
    assert!(matches!(stream.handle_incoming_message(&question), Incoming::Answer));
}

#[test]
fn own_answer_is_not_a_peer() {
    let stream = DiscoveryStream::new(&key(), 1, b"me".to_vec());
    let answer = stream.create_mdns_answer().unwrap();
    assert!(matches!(stream.handle_incoming_message(&answer), Incoming::Ignore));
}

#[test]
fn other_session_answer_is_a_peer() {
    let mine = DiscoveryStream::new(&key(), 1, b"me".to_vec());
    let theirs = DiscoveryStream::new(&key(), 4242, b"them".to_vec());
    let answer = theirs.create_mdns_answer().unwrap();
    match mine.handle_incoming_message(&answer) {
        Incoming::Discovered(peer) => {
            assert_eq!(peer.token(), b"them".to_vec());
            assert_eq!(peer.port(), 4242);
            assert_eq!(peer.addr(), [0, 0, 0, 0]);
        }
        _ => panic!("expected a peer"),
    }
}

#[test]
fn other_channel_is_ignored() {
    let mine = DiscoveryStream::new(&key(), 1, b"me".to_vec());
    let other_key: Vec<u8> = (100u8..132).collect();
    let theirs = DiscoveryStream::new(&other_key, 2, b"them".to_vec());
    let answer = theirs.create_mdns_answer().unwrap();
    assert!(matches!(mine.handle_incoming_message(&answer), Incoming::Ignore));
    let question = theirs.create_mdns_question().unwrap();
    assert!(matches!(mine.handle_incoming_message(&question), Incoming::Ignore));
}

#[test]
fn name_match_ignores_case() {
    let mine = DiscoveryStream::new(&key(), 1, b"me".to_vec());
    let mut upper = DiscoveryStream::new(&key(), 2, b"them".to_vec());
    upper.name[1] = b"CHAT".to_vec();
    upper.name[2] = b"Local".to_vec();
    let question = upper.create_mdns_question().unwrap();
    assert!(matches!(mine.handle_incoming_message(&question), Incoming::Answer));
}

#[test]
fn garbage_is_ignored() {
    let mine = DiscoveryStream::new(&key(), 1, b"me".to_vec());
    assert!(matches!(mine.handle_incoming_message(&[1, 2, 3]), Incoming::Ignore));
    assert!(read_message(&[]).is_none());
}

#[test]
fn question_bytes_are_header_name_type_class() {
    let stream = DiscoveryStream::new(&key(), 1, b"me".to_vec());
    let question = stream.create_mdns_question().unwrap();
    let mut expected: Vec<u8> = vec![0, 0, 0, 0, 0, 1, 0, 0, 0, 0, 0, 0];
    expected.push(40);
    expected.extend_from_slice(b"0102030405060708090a0b0c0d0e0f1011121314");
    expected.push(4);
    expected.extend_from_slice(b"chat");
    expected.push(5);
    expected.extend_from_slice(b"local");
    expected.extend_from_slice(&[0, 0, 16, 0, 1]);
    assert_eq!(question, expected);
}

#[test]
fn answer_is_a_response_with_both_fields() {
    let stream = DiscoveryStream::new(&key(), 12345, b"me".to_vec());
    let answer = stream.create_mdns_answer().unwrap();
    let message = read_message(&answer).unwrap();
    assert!(message.is_response);
    assert_eq!(message.query_names, vec![stream.name.clone()]);
    assert_eq!(message.txt_answers.len(), 1);
    assert_eq!(message.txt_answers[0], vec![b"token=me".to_vec(), b"peers=AAAAADA5".to_vec()]);
}

#[test]
fn peers_field_is_eight_characters() {
    let peer = DiscoveryPeer { addr: [10, 0, 0, 1], port: 80, token: Vec::new() };
    assert_eq!(peer.encode_peers_field().len(), 8);
}

#[test]
fn overlong_token_gives_no_answer() {
    let stream = DiscoveryStream::new(&key(), 1, vec![b'a'; 300]);
    assert!(stream.create_mdns_answer().is_none());
}

use p2p_chat::crypto::generate_keypair;
use p2p_chat::log::{generate_hash, Log, LogEntry, LogEntryContent};

#[test]
fn log_get() {
    let mut log = Log::new();

    assert!(log.is_empty());

    log.append(b"Hello, Test!");
    log.append(b"1, 2, 3");

    assert_eq!(log.len(), 2);
    assert_eq!(log.is_empty(), false);

    assert_eq!(log.get(0), Some(b"Hello, Test!".to_vec()));
    assert_eq!(log.get(1), Some(b"1, 2, 3".to_vec()));
    assert_eq!(log.get(2), None);
}

#[test]
fn hash() {
    let mut log = Log::new();
    let mut log_same = Log::new();

    log.append(b"Test");
    log_same.append(b"Test");

    // Different key pairs sign the same content differently.
    assert_ne!(log.hash(0).unwrap(), log_same.hash(0).unwrap());

    // The same content signed with the same key pair hashes the same.
    let keypair = generate_keypair();

    let content = LogEntryContent::new(0, vec![1, 2, 3], 1);
    let content_same = LogEntryContent::new(0, vec![1, 2, 3], 1);

    assert_eq!(
        generate_hash(&LogEntry::sign(content, &keypair)),
        generate_hash(&LogEntry::sign(content_same, &keypair)),
    );
}

#[test]
fn verify() {
    let mut log = Log::new();
    let public_key = log.public_key().to_vec();
    let wrong_keypair = generate_keypair();

    log.append(b"Test");
    log.append(b"1, 2, 3");

    log.verify(&public_key);
    log.verify(&wrong_keypair.public);
}

#[test]
fn empty_log_is_valid_and_has_no_hash() {
    let log = Log::new();
    assert_eq!(log.len(), 0);
    assert!(log.verify(log.public_key()));
    assert_eq!(log.hash(0), None);
}

#[test]
fn verify_holds_after_each_append() {
    let mut log = Log::new();
    let public_key = log.public_key().to_vec();
    let wrong_keypair = generate_keypair();
    for payload in [&b"a"[..], b"", b"third", b"\x00\xff"] {
        log.append(payload);
        assert!(log.verify(&public_key));
        assert!(!log.verify(&wrong_keypair.public));
    }
    assert_eq!(log.len(), 4);
}

#[test]
fn content_bytes_are_data_then_big_endian_fields() {
    let content = LogEntryContent::new(0x0102030405060708, vec![0xaa, 0xbb], 3);
    assert_eq!(
        content.to_bytes(),
        vec![0xaa, 0xbb, 1, 2, 3, 4, 5, 6, 7, 8, 0, 0, 0, 0, 0, 0, 0, 3]
    );
}

#[test]
fn entry_bytes_end_with_signature() {
    let keypair = generate_keypair();
    let entry = LogEntry::sign(LogEntryContent::new(0, vec![9], 1), &keypair);
    let bytes = entry.to_bytes();
    assert_eq!(bytes.len(), 1 + 8 + 8 + 64);
    assert_eq!(&bytes[17..], &entry.signature[..]);
    assert!(entry.verify(&keypair.public));
}

#[test]
fn second_entry_links_to_first() {
    let mut log = Log::new();
    log.append(b"one");
    log.append(b"two");
    let first = log.hash(0).unwrap();
    let second = log.hash(1).unwrap();
    assert_ne!(first, second);
    assert_ne!(first, 0);
}

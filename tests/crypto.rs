use p2p_chat::crypto::{
    chain_hash, generate_discovery_key, generate_keypair, sign_data, token_from_sample,
    verify_data,
};

#[test]
fn can_verify_signed_data() {
    let keypair = generate_keypair();
    let data = b"Hello, Test!";
    let signature = sign_data(&keypair.public, &keypair.secret, data);

    verify_data(&keypair.public, data, &signature).unwrap();
    verify_data(&keypair.public, b"Wrong Payload", &signature).unwrap_err();
}

#[test]
fn keypair_has_32_byte_keys_and_64_byte_signatures() {
    let keypair = generate_keypair();
    assert_eq!(keypair.public.len(), 32);
    assert_eq!(keypair.secret.len(), 32);
    let signature = sign_data(&keypair.public, &keypair.secret, b"x");
    assert_eq!(signature.len(), 64);
}

#[test]
fn signing_is_deterministic() {
    let keypair = generate_keypair();
    let a = sign_data(&keypair.public, &keypair.secret, b"same");
    let b = sign_data(&keypair.public, &keypair.secret, b"same");
    assert_eq!(a, b);
}

#[test]
fn signature_rejected_under_other_key() {
    let keypair = generate_keypair();
    let other = generate_keypair();
    let signature = sign_data(&keypair.public, &keypair.secret, b"data");
    assert!(verify_data(&other.public, b"data", &signature).is_err());
    assert!(verify_data(&keypair.public, b"data", &signature[..10]).is_err());
}

#[test]
fn discovery_key_is_keyed_blake2b() {
    let public_key: Vec<u8> = (0u8..32).collect();
    let key = generate_discovery_key(&public_key, b"p2p-chat");
    assert_eq!(
        hex::encode(&key),
        "565f2984110bbae94d541b65adbe99e837925de4edf0c8edc4089a0ec5f46275"
    );
}

#[test]
fn discovery_key_is_deterministic() {
    let public_key = generate_keypair().public;
    let a = generate_discovery_key(&public_key, b"p2p-chat");
    let b = generate_discovery_key(&public_key, b"p2p-chat");
    assert_eq!(a, b);
    assert_eq!(a.len(), 32);
    let other = generate_discovery_key(&generate_keypair().public, b"p2p-chat");
    assert_ne!(a, other);
}

#[test]
fn chain_hash_reads_first_eight_digest_bytes() {
    assert_eq!(chain_hash(b""), 0x786a02f742015903);
    assert_eq!(chain_hash(b"abc"), 0xba80a53f981c4d0d);
}

#[test]
fn token_is_base64_of_sha256() {
    assert_eq!(
        token_from_sample(b"0.5"),
        b"0sutcf8zPeZ9B+xnbjUqt/OCSOtpyUKVAVciBgfFXoQ=".to_vec()
    );
}

#[test]
fn token_is_44_characters_ending_in_padding() {
    let token = token_from_sample(b"0.123");
    assert_eq!(token.len(), 44);
    assert_eq!(token[43], b'=');
}

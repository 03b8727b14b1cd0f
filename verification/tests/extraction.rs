use std::time::Duration;

use quinn_hyphae::{
    apply_downgrade_verdict, extract_result, HandshakeError, HandshakeOptions, HandshakeResult,
    HyphaePeerIdentity, PeerIdentityLookup, V1_PATTERN,
};

fn identity(
    remote_public: Option<Vec<u8>>,
    hash: Option<Vec<u8>>,
    pattern: &str,
    payload: Option<Vec<u8>>,
) -> PeerIdentityLookup {
    PeerIdentityLookup::Found(HyphaePeerIdentity {
        remote_public,
        final_handshake_hash: hash,
        negotiated_pattern: pattern.to_string(),
        msg1_payload: payload,
    })
}

fn hash() -> Vec<u8> {
    (0u8..32).collect()
}

fn key(b: u8) -> [u8; 32] {
    [b; 32]
}

fn key_error(r: Result<HandshakeResult, HandshakeError>) -> String {
    match r {
        Err(HandshakeError::Key(m)) => m,
        Err(e) => panic!("expected a key error, got {:?}", e),
        Ok(_) => panic!("expected a key error, got a result"),
    }
}

#[test]
fn options_defaults() {
    let o = HandshakeOptions::new();
    assert_eq!(o.timeout, Duration::from_secs(10));
    assert_eq!(o.max_payload_len, 4096);
    assert_eq!(o.pinned_peer_key, None);
    let d = HandshakeOptions::default();
    assert_eq!(d.timeout, o.timeout);
    assert_eq!(d.max_payload_len, o.max_payload_len);
    assert_eq!(d.pinned_peer_key, o.pinned_peer_key);
}

#[test]
fn result_new_keeps_fields() {
    let r = HandshakeResult::new(key(1), Some(key(2)), Some(vec![9, 8]), "p".to_string());
    assert_eq!(r.handshake_hash, key(1));
    assert_eq!(r.peer_static, Some(key(2)));
    assert_eq!(r.msg1_payload, Some(vec![9, 8]));
    assert_eq!(r.negotiated_pattern, "p");
}

#[test]
fn error_display_strings() {
    assert_eq!(HandshakeError::Pattern("x".into()).to_string(), "pattern: x");
    assert_eq!(HandshakeError::Key("bad".into()).to_string(), "key: bad");
    assert_eq!(HandshakeError::Io("down".into()).to_string(), "io: down");
    assert_eq!(HandshakeError::Payload("big".into()).to_string(), "payload: big");
    assert_eq!(HandshakeError::Timeout.to_string(), "timeout");
    assert_eq!(HandshakeError::Crypto("c".into()).to_string(), "crypto: c");
}

#[test]
fn missing_identity_is_io_error() {
    let r = extract_result(PeerIdentityLookup::Missing, &HandshakeOptions::new());
    assert!(matches!(r, Err(HandshakeError::Io(ref m)) if m == "missing peer identity"));
}

#[test]
fn foreign_identity_is_io_error() {
    let r = extract_result(PeerIdentityLookup::UnexpectedType, &HandshakeOptions::new());
    assert!(matches!(r, Err(HandshakeError::Io(ref m)) if m == "unexpected peer identity type"));
}

#[test]
fn missing_hash_is_key_error() {
    let r = extract_result(identity(None, None, "", None), &HandshakeOptions::new());
    assert_eq!(key_error(r), "missing final handshake hash");
}

#[test]
fn short_hash_is_key_error() {
    let r = extract_result(identity(None, Some(vec![1; 31]), "", None), &HandshakeOptions::new());
    assert_eq!(key_error(r), "expected 32-byte handshake hash, got 31 bytes");
    let r = extract_result(identity(None, Some(vec![]), "", None), &HandshakeOptions::new());
    assert_eq!(key_error(r), "expected 32-byte handshake hash, got 0 bytes");
    let r = extract_result(identity(None, Some(vec![1; 1234]), "", None), &HandshakeOptions::new());
    assert_eq!(key_error(r), "expected 32-byte handshake hash, got 1234 bytes");
}

#[test]
fn long_static_key_is_key_error() {
    let r = extract_result(
        identity(Some(vec![5; 33]), Some(hash()), "", None),
        &HandshakeOptions::new(),
    );
    assert_eq!(key_error(r), "expected 32-byte peer static key, got 33 bytes");
}

#[test]
fn hash_is_checked_before_static_key() {
    let r = extract_result(
        identity(Some(vec![5; 33]), Some(vec![1; 10]), "", None),
        &HandshakeOptions::new(),
    );
    assert_eq!(key_error(r), "expected 32-byte handshake hash, got 10 bytes");
}

#[test]
fn pinning_without_static_key_is_refused() {
    let mut o = HandshakeOptions::new();
    o.pinned_peer_key = Some(key(7));
    let r = extract_result(identity(None, Some(hash()), "", None), &o);
    assert_eq!(key_error(r), "peer provides no static key for pinning");
}

#[test]
fn pinning_mismatch_is_refused() {
    let mut o = HandshakeOptions::new();
    o.pinned_peer_key = Some(key(7));
    let mut other = vec![7u8; 32];
    other[31] = 8;
    let r = extract_result(identity(Some(other), Some(hash()), "", None), &o);
    assert_eq!(key_error(r), "peer key mismatch");
}

#[test]
fn pinning_match_is_accepted() {
    let mut o = HandshakeOptions::new();
    o.pinned_peer_key = Some(key(7));
    let r = extract_result(identity(Some(vec![7; 32]), Some(hash()), "", None), &o).unwrap();
    assert_eq!(r.peer_static, Some(key(7)));
}

#[test]
fn oversize_payload_is_payload_error() {
    let mut o = HandshakeOptions::new();
    o.max_payload_len = 100;
    let r = extract_result(identity(None, Some(hash()), "", Some(vec![7u8; 200])), &o);
    assert!(matches!(r, Err(HandshakeError::Payload(ref m)) if m == "msg1 payload too large: 200 > 100"));
}

#[test]
fn payload_at_limit_is_accepted() {
    let mut o = HandshakeOptions::new();
    o.max_payload_len = 100;
    let r = extract_result(identity(None, Some(hash()), "", Some(vec![7u8; 100])), &o).unwrap();
    assert_eq!(r.msg1_payload, Some(vec![7u8; 100]));
}

#[test]
fn pinning_is_checked_before_payload() {
    let mut o = HandshakeOptions::new();
    o.max_payload_len = 1;
    o.pinned_peer_key = Some(key(7));
    let r = extract_result(identity(None, Some(hash()), "", Some(vec![1, 2, 3])), &o);
    assert_eq!(key_error(r), "peer provides no static key for pinning");
}

#[test]
fn empty_pattern_reports_v1_pattern() {
    let r = extract_result(identity(None, Some(hash()), "", None), &HandshakeOptions::new()).unwrap();
    assert_eq!(r.negotiated_pattern, V1_PATTERN);
    assert_eq!(V1_PATTERN, "Noise_XX_25519_ChaChaPoly_BLAKE2s");
    assert!(!r.negotiated_pattern.is_empty());
}

#[test]
fn named_pattern_is_kept() {
    let r = extract_result(
        identity(None, Some(hash()), "Noise_IK_25519_ChaChaPoly_BLAKE2s", None),
        &HandshakeOptions::new(),
    )
    .unwrap();
    assert_eq!(r.negotiated_pattern, "Noise_IK_25519_ChaChaPoly_BLAKE2s");
}

#[test]
fn success_carries_identity_fields() {
    let static_key = vec![3u8; 32];
    let r = extract_result(
        identity(Some(static_key.clone()), Some(hash()), "", Some(b"exchange-payload-v1".to_vec())),
        &HandshakeOptions::new(),
    )
    .unwrap();
    let expected_hash: [u8; 32] = hash().try_into().unwrap();
    assert_eq!(r.handshake_hash, expected_hash);
    assert_eq!(r.peer_static, Some(key(3)));
    assert_eq!(r.msg1_payload, Some(b"exchange-payload-v1".to_vec()));
}

#[test]
fn downgrade_verdict_ok_keeps_result() {
    let r = HandshakeResult::new(key(1), None, None, "p".to_string());
    let out = apply_downgrade_verdict(r, Ok(())).unwrap();
    assert_eq!(out.handshake_hash, key(1));
    assert_eq!(out.negotiated_pattern, "p");
}

#[test]
fn downgrade_verdict_err_rejects() {
    let r = HandshakeResult::new(key(1), None, None, "p".to_string());
    let out = apply_downgrade_verdict(r, Err(HandshakeError::Pattern("downgrade".into())));
    assert!(matches!(out, Err(HandshakeError::Pattern(ref m)) if m == "downgrade"));
}

#[test]
fn default_limit_admits_4096_byte_payload() {
    let o = HandshakeOptions::default();
    let r = extract_result(identity(None, Some(hash()), "", Some(vec![1u8; 4096])), &o);
    assert!(r.is_ok());
    let r = extract_result(identity(None, Some(hash()), "", Some(vec![1u8; 4097])), &o);
    assert!(matches!(r, Err(HandshakeError::Payload(ref m)) if m == "msg1 payload too large: 4097 > 4096"));
}

#[test]
fn payload_error_renders_with_category() {
    let mut o = HandshakeOptions::new();
    o.max_payload_len = 0;
    let e = extract_result(identity(None, Some(hash()), "", Some(vec![1])), &o).unwrap_err();
    assert_eq!(e.to_string(), "payload: msg1 payload too large: 1 > 0");
}

#[test]
fn empty_payload_is_reported_as_none() {
    let r = extract_result(identity(None, Some(hash()), "", Some(Vec::new())), &HandshakeOptions::new()).unwrap();
    assert_eq!(r.msg1_payload, None);
    let r = extract_result(identity(None, Some(hash()), "", None), &HandshakeOptions::new()).unwrap();
    assert_eq!(r.msg1_payload, None);
}

use content_attestor::{
    attest_content, content_hash, now_ms, process_data, signing_message, to_signed_response,
    verify_signed_response, AppState, ContentRequest, ContentResponse, IntentMessage, IntentScope,
    ProcessDataRequest,
};
use fastcrypto::ed25519::{Ed25519KeyPair, Ed25519PublicKey, Ed25519Signature};
use fastcrypto::traits::{KeyPair, ToFromBytes, VerifyingKey};

fn fresh_state() -> AppState {
    AppState {
        eph_kp: Ed25519KeyPair::generate(&mut rand::thread_rng()),
        api_key: String::new(),
    }
}

fn request(content: &str) -> ProcessDataRequest<ContentRequest> {
    ProcessDataRequest {
        payload: ContentRequest {
            content: content.to_string(),
        },
    }
}

fn raw_verifies(public_key: &[u8], message: &[u8], signature: &[u8]) -> bool {
    let pk = Ed25519PublicKey::from_bytes(public_key).unwrap();
    let sig = Ed25519Signature::from_bytes(signature).unwrap();
    pk.verify(message, &sig).is_ok()
}

#[test]
fn test_process_data_returns_hash() {
    let state = fresh_state();
    let resp = process_data(&state, request("hello lagos")).unwrap();

    let expected = blake3::hash("hello lagos".as_bytes()).to_hex().to_string();
    assert_eq!(resp.response.data.content_hash, expected);
    assert!(resp.signature.len() > 0);
    assert!(resp.response.timestamp_ms > 0);
}

#[test]
fn hello_lagos_end_to_end() {
    let state = fresh_state();
    let resp = process_data(&state, request("hello lagos")).unwrap();
    let digest = content_hash("hello lagos".as_bytes());
    assert_eq!(digest.len(), 64);
    assert!(digest.chars().all(|c| c.is_ascii_digit() || ('a'..='f').contains(&c)));
    assert_eq!(resp.response.data.content_hash, digest);
    assert_eq!(resp.response.intent, IntentScope::ProcessData);
    assert_eq!(resp.signature.len(), 64);
    assert_eq!(resp.public_key, state.eph_kp.public().as_bytes().to_vec());
    assert!(verify_signed_response(state.eph_kp.public().as_bytes(), &resp));
}

#[test]
fn empty_content_hashes_to_the_empty_digest() {
    assert_eq!(
        content_hash(b""),
        "af1349b9f5f9a1a6a0404dea36dcc9499bcb25c9adc112b7cc9a93cae41f3262"
    );
    let state = fresh_state();
    let resp = process_data(&state, request("")).unwrap();
    assert_eq!(
        resp.response.data.content_hash,
        "af1349b9f5f9a1a6a0404dea36dcc9499bcb25c9adc112b7cc9a93cae41f3262"
    );
    assert!(verify_signed_response(&resp.public_key, &resp));
}

#[test]
fn hashing_is_deterministic() {
    let a = content_hash(b"the same bytes");
    let b = content_hash(b"the same bytes");
    assert_eq!(a, b);
    assert_eq!(a, blake3::hash(b"the same bytes").to_hex().to_string());
}

#[test]
fn near_duplicate_inputs_hash_apart() {
    let base = b"hello lagos".to_vec();
    let mut seen = std::collections::HashSet::new();
    seen.insert(content_hash(&base));
    for i in 0..base.len() {
        for bit in 0..8 {
            let mut v = base.clone();
            v[i] ^= 1 << bit;
            assert!(seen.insert(content_hash(&v)));
        }
    }
    let mut longer = base.clone();
    longer.push(0);
    assert!(seen.insert(content_hash(&longer)));
    assert!(seen.insert(content_hash(&base[..base.len() - 1])));
}

#[test]
fn sealed_response_verifies() {
    let state = fresh_state();
    let resp = to_signed_response(
        &state.eph_kp,
        ContentResponse {
            content_hash: "abc".to_string(),
        },
        1_700_000_000_000,
        IntentScope::ProcessData,
    );
    assert_eq!(resp.response.timestamp_ms, 1_700_000_000_000);
    assert_eq!(resp.response.data.content_hash, "abc");
    assert_eq!(resp.public_key.len(), 32);
    assert!(verify_signed_response(&resp.public_key, &resp));
    let message = signing_message(&resp.response);
    assert!(raw_verifies(&resp.public_key, &message, &resp.signature));
}

#[test]
fn tampered_timestamp_fails_verification() {
    let state = fresh_state();
    let mut resp = attest_content(
        &state.eph_kp,
        &ContentRequest {
            content: "hello lagos".to_string(),
        },
        42,
    );
    assert!(verify_signed_response(&resp.public_key, &resp));
    resp.response.timestamp_ms += 1;
    assert!(!verify_signed_response(&resp.public_key, &resp));
}

#[test]
fn tampered_payload_fails_verification() {
    let state = fresh_state();
    let mut resp = process_data(&state, request("hello lagos")).unwrap();
    let mut hash = resp.response.data.content_hash.clone().into_bytes();
    hash[0] = if hash[0] == b'0' { b'1' } else { b'0' };
    resp.response.data.content_hash = String::from_utf8(hash).unwrap();
    assert!(!verify_signed_response(&resp.public_key, &resp));
}

#[test]
fn every_byte_of_the_signed_message_is_covered() {
    let state = fresh_state();
    let resp = process_data(&state, request("hello lagos")).unwrap();
    let message = signing_message(&resp.response);
    assert!(raw_verifies(&resp.public_key, &message, &resp.signature));
    for i in 0..message.len() {
        let mut changed = message.clone();
        changed[i] ^= 0x01;
        assert!(!raw_verifies(&resp.public_key, &changed, &resp.signature));
    }
}

#[test]
fn other_scope_code_fails_verification() {
    let state = fresh_state();
    let resp = process_data(&state, request("hello lagos")).unwrap();
    let mut message = signing_message(&resp.response);
    assert_eq!(message[0], IntentScope::ProcessData.code());
    for scope in 1..=255u8 {
        message[0] = scope;
        assert!(!raw_verifies(&resp.public_key, &message, &resp.signature));
    }
}

#[test]
fn another_key_does_not_verify() {
    let state = fresh_state();
    let other = fresh_state();
    let resp = process_data(&state, request("hello lagos")).unwrap();
    assert!(!verify_signed_response(other.eph_kp.public().as_bytes(), &resp));
    assert!(!verify_signed_response(&[0u8; 3], &resp));
}

#[test]
fn timestamps_do_not_decrease() {
    let state = fresh_state();
    let first = process_data(&state, request("a")).unwrap();
    let second = process_data(&state, request("a")).unwrap();
    assert!(first.response.timestamp_ms <= second.response.timestamp_ms);
    let t = now_ms().unwrap();
    assert!(t >= second.response.timestamp_ms);
}

#[test]
fn attest_content_keeps_the_given_timestamp() {
    let state = fresh_state();
    let resp = attest_content(
        &state.eph_kp,
        &ContentRequest {
            content: String::new(),
        },
        7,
    );
    assert_eq!(resp.response.timestamp_ms, 7);
    assert_eq!(resp.response.intent, IntentScope::ProcessData);
    assert_eq!(resp.response.data.content_hash, content_hash(b""));
}

use openai_oauth_proxy::bearer::jwt_payload_bytes;
use openai_oauth_proxy::pkce::{
    b64url_from_bytes, generate_pkce_pair, generate_state, random_b64url, sha256_b64url,
};

#[test]
fn test_pkce_pair_length() {
    let (verifier, challenge) = generate_pkce_pair();
    assert!(
        verifier.len() >= 43,
        "verifier too short: {}",
        verifier.len()
    );
    assert!(
        verifier.len() <= 128,
        "verifier too long: {}",
        verifier.len()
    );
    assert_eq!(challenge.len(), 43);
}

#[test]
fn test_pkce_verifier_charset() {
    let (verifier, _) = generate_pkce_pair();
    assert!(verifier.chars().all(|c| c.is_ascii_alphanumeric()
        || c == '-'
        || c == '.'
        || c == '_'
        || c == '~'));
}

#[test]
fn test_state_length() {
    let state = generate_state();
    assert!(state.len() >= 18 && state.len() <= 128);
}

#[test]
fn pkce_challenge_is_s256_of_verifier() {
    let (verifier, challenge) = generate_pkce_pair();
    assert_eq!(sha256_b64url(&verifier), challenge);
}

#[test]
fn sha256_b64url_of_abc() {
    assert_eq!(
        sha256_b64url("abc"),
        "ungWv48Bz-pBQUDeXa4iI7ADYaOWF3qctBD_YfIAFa0"
    );
}

#[test]
fn b64url_known_texts() {
    assert_eq!(b64url_from_bytes(b""), "");
    assert_eq!(b64url_from_bytes(b"f"), "Zg");
    assert_eq!(b64url_from_bytes(b"fo"), "Zm8");
    assert_eq!(b64url_from_bytes(b"foo"), "Zm9v");
    assert_eq!(b64url_from_bytes(b"foobar"), "Zm9vYmFy");
    assert_eq!(b64url_from_bytes(&[0xfb, 0xff]), "-_8");
}

#[test]
fn random_b64url_lengths() {
    assert_eq!(random_b64url(0), "");
    assert_eq!(random_b64url(1).len(), 2);
    assert_eq!(random_b64url(2).len(), 3);
    assert_eq!(random_b64url(3).len(), 4);
    assert_eq!(random_b64url(32).len(), 43);
    assert_eq!(generate_state().len(), 24);
}

#[test]
fn random_values_differ() {
    assert_ne!(generate_state(), generate_state());
}

#[test]
fn b64url_decode_round_trip_through_jwt() {
    let seg = b64url_from_bytes(b"{\"exp\":1}");
    let token = format!("head.{}.sig", seg);
    assert_eq!(jwt_payload_bytes(&token), Some(b"{\"exp\":1}".to_vec()));
}

#[test]
fn b64url_decode_rejects_non_canonical() {
    assert_eq!(jwt_payload_bytes("a.Zh.b"), None);
    assert_eq!(jwt_payload_bytes("a.Zg==.b"), None);
    assert_eq!(jwt_payload_bytes("a.Z.b"), None);
    assert_eq!(jwt_payload_bytes("a.Zm+v.b"), None);
    assert_eq!(jwt_payload_bytes("no-dots"), None);
    assert_eq!(jwt_payload_bytes("a.Zg.b"), Some(b"f".to_vec()));
}

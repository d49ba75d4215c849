//! Tests for webhook signature verification

use wacloudapi::webhooks::{verify_signature, HMAC};

/// The lowercase hex text of the real keyed digest, computed through the
/// same library call the authenticator trusts.
fn expected_header(body: &[u8], secret: &str) -> String {
    let mac = HMAC::mac(body, secret.as_bytes());
    let mut hex = String::new();
    for b in mac.iter() {
        hex.push_str(&format!("{:02x}", b));
    }
    hex
}

#[test]
fn test_correct_signature_accepted_with_prefix() {
    let body = b"{\"object\":\"whatsapp_business_account\",\"entry\":[]}";
    let secret = "super-secret-app-key";
    let header = format!("sha256={}", expected_header(body, secret));
    assert!(verify_signature(body, &header, secret));
}

#[test]
fn test_correct_signature_accepted_without_prefix() {
    let body = b"payload bytes";
    let secret = "another-secret";
    let header = expected_header(body, secret);
    assert!(verify_signature(body, &header, secret));
}

#[test]
fn test_mutated_header_rejected() {
    let body = b"payload bytes";
    let secret = "another-secret";
    let good = expected_header(body, secret);
    // Flip each hex digit in turn; every mutation must be rejected.
    for i in 0..good.len() {
        let mut bad: Vec<char> = good.chars().collect();
        bad[i] = if bad[i] == '0' { '1' } else { '0' };
        let bad: String = bad.into_iter().collect();
        assert!(!verify_signature(body, &format!("sha256={}", bad), secret));
    }
}

#[test]
fn test_mutated_body_rejected() {
    let body = b"payload bytes";
    let secret = "another-secret";
    let header = format!("sha256={}", expected_header(body, secret));
    let mut mutated = body.to_vec();
    mutated[0] ^= 0x01;
    assert!(!verify_signature(&mutated, &header, secret));
}

#[test]
fn test_wrong_secret_rejected() {
    let body = b"payload bytes";
    let header = format!("sha256={}", expected_header(body, "right-secret"));
    assert!(!verify_signature(body, &header, "wrong-secret"));
}

#[test]
fn test_missing_or_short_header_rejected() {
    let body = b"payload bytes";
    let secret = "another-secret";
    assert!(!verify_signature(body, "", secret));
    assert!(!verify_signature(body, "sha256=", secret));
    assert!(!verify_signature(body, "sha256=abcd", secret));
    assert!(!verify_signature(body, "deadbeef", secret));
}

#[test]
fn test_digest_matches_hmac_sha256_test_vector() {
    // The digest must be a real keyed hash: different keys give different
    // digests for the same data, and the digest matches the HMAC-SHA256
    // test vector from RFC 4231 (test case 2).
    let mac1 = HMAC::mac(b"data", b"key-one");
    let mac2 = HMAC::mac(b"data", b"key-two");
    assert_ne!(mac1, mac2);

    let mac = HMAC::mac(b"what do ya want for nothing?", b"Jefe");
    let mut hex = String::new();
    for b in mac.iter() {
        hex.push_str(&format!("{:02x}", b));
    }
    assert_eq!(
        hex,
        "5bdcc146bf60754e6a042426089575c75a003f089d2739839dec58b964ec3843"
    );
}

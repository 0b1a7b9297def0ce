use base64::Engine as _;
use notification::digest::{encoded_digest, hex_digest, stable_id, valid_digest};
use notification::error::ErrorCode;
use notification::snapshot::{
    clip_preview, content_digest, mask_email, redact_preview, request_digest,
    AeadSnapshotProtector, ProtectedValue, SnapshotProtector, TestSnapshotProtector,
};

fn protector(reference: &str) -> AeadSnapshotProtector {
    let key = base64::engine::general_purpose::STANDARD.encode([7_u8; 32]);
    AeadSnapshotProtector::from_base64_key(&key, reference.to_owned()).expect("protector")
}

#[test]
fn preview_and_recipient_mask_hide_token_and_address() {
    let input = "Join at https://example.test/invitations/secret-token for alice@example.com";
    let preview = redact_preview(input);
    assert!(!preview.contains("secret-token"));
    assert!(!preview.contains("alice@example.com"));
    assert_eq!(mask_email("alice@example.com"), "a***@example.com");
}

#[test]
fn production_envelope_round_trips_without_plaintext() {
    let key = base64::engine::general_purpose::STANDARD.encode([7_u8; 32]);
    let protector =
        AeadSnapshotProtector::from_base64_key(&key, "secret:test-notification-key".to_owned())
            .expect("protector");
    let protected = protector
        .protect("https://example.test/invitations/secret")
        .expect("protected");
    assert!(!protected.ciphertext.contains("secret"));
    assert_eq!(
        protector.unprotect(&protected).expect("revealed"),
        "https://example.test/invitations/secret"
    );
}

#[test]
fn previews_are_redacted_and_clipped() {
    assert_eq!(
        redact_preview("Join at http://a.test/x now, alice@example.com!"),
        "Join at [link redacted] now, [recipient redacted]!"
    );
    assert_eq!(redact_preview(&"x".repeat(200)), "x".repeat(160));
    assert_eq!(clip_preview(&"ä".repeat(161)), "ä".repeat(160));
    assert_eq!(clip_preview("short"), "short");
}

#[test]
fn masks_show_one_character_and_the_domain() {
    assert_eq!(mask_email("nobody"), "***");
    assert_eq!(mask_email("@example.com"), "****@example.com");
    assert_eq!(mask_email("a@b@example.com"), "a***@example.com");
    assert_eq!(mask_email("ünal@example.com"), "ü***@example.com");
    assert_eq!(mask_email("alice@"), "a***@");
}

#[test]
fn envelopes_with_a_given_nonce_are_exact() {
    let protector = protector("secret:key");
    let first = protector
        .protect_with_nonce(vec![1_u8; 12], "hello")
        .expect("protected");
    let second = protector
        .protect_with_nonce(vec![1_u8; 12], "hello")
        .expect("protected");
    let other = protector
        .protect_with_nonce(vec![2_u8; 12], "hello")
        .expect("protected");
    assert_eq!(first, second);
    assert_ne!(first, other);
    assert_eq!(first.key_reference, "secret:key");
    assert_eq!(protector.unprotect(&first).expect("revealed"), "hello");
    assert_eq!(protector.unprotect(&other).expect("revealed"), "hello");
}

#[test]
fn keys_must_be_32_bytes_of_base64() {
    let message = |encoded: &str| {
        let error = AeadSnapshotProtector::from_base64_key(encoded, "secret:key".to_owned())
            .err()
            .expect("rejected");
        assert_eq!(error.code, ErrorCode::Validation);
        error.message().to_owned()
    };
    assert_eq!(message("not base64!"), "Notification snapshot key must be base64");
    let short = base64::engine::general_purpose::STANDARD.encode([7_u8; 31]);
    assert_eq!(
        message(&short),
        "Notification snapshot key must contain exactly 32 bytes"
    );
    let long = base64::engine::general_purpose::STANDARD.encode([7_u8; 33]);
    assert_eq!(
        message(&long),
        "Notification snapshot key must contain exactly 32 bytes"
    );
}

#[test]
fn tampered_envelopes_are_refused() {
    let protector = protector("secret:key");
    let sealed = protector.protect("hello").expect("protected");
    let refused = |ciphertext: String, key_reference: &str| {
        protector
            .unprotect(&ProtectedValue {
                ciphertext,
                key_reference: key_reference.to_owned(),
            })
            .expect_err("refused")
            .message()
            .to_owned()
    };
    assert_eq!(
        refused(sealed.ciphertext.clone(), "secret:other"),
        "Notification snapshot key reference does not match"
    );
    assert_eq!(
        refused("plain".to_owned(), "secret:key"),
        "Notification snapshot envelope version is unsupported"
    );
    let prefix = sealed.ciphertext.split(':').next().expect("prefix");
    assert_eq!(refused(format!("{prefix}:!"), "secret:key"), "invalid protected snapshot");
    assert_eq!(
        refused(format!("{prefix}:AAAA"), "secret:key"),
        "invalid protected snapshot envelope"
    );
    let body = &sealed.ciphertext[prefix.len() + 1..];
    let mut bytes = base64::engine::general_purpose::STANDARD
        .decode(body)
        .expect("bytes");
    let last = bytes.len() - 1;
    bytes[last] ^= 1;
    let forged = base64::engine::general_purpose::STANDARD.encode(bytes);
    let message = refused(format!("{prefix}:{forged}"), "secret:key");
    assert!(message.contains("authentication"), "{message}");
}

#[test]
fn test_protector_reads_back_and_refuses_garbage() {
    let protector = TestSnapshotProtector;
    let value = protector.protect("hello").expect("protected");
    assert_eq!(value.key_reference, "test-only:base64");
    assert_eq!(value.ciphertext, "aGVsbG8=");
    assert_eq!(protector.unprotect(&value).expect("revealed"), "hello");
    let refused = |ciphertext: &str| {
        protector
            .unprotect(&ProtectedValue {
                ciphertext: ciphertext.to_owned(),
                key_reference: "test-only:base64".to_owned(),
            })
            .expect_err("refused")
            .message()
            .to_owned()
    };
    assert_eq!(refused("!"), "invalid protected snapshot");
    assert_eq!(refused("/w=="), "invalid protected snapshot encoding");
}

#[test]
fn digests_are_sha256() {
    let empty = "e3b0c44298fc1c149afbf4c8996fb92427ae41e4649b934ca495991b7852b855";
    assert_eq!(encoded_digest(b""), format!("sha256:{empty}"));
    assert_eq!(request_digest(b""), format!("sha256:{empty}"));
    assert_eq!(hex_digest(b""), empty);
    assert_eq!(
        stable_id("ntf_int", "abc"),
        "ntf_int_ba7816bf8f01cfea414140de5dae2223"
    );
    assert!(valid_digest(&format!("sha256:{empty}")));
    assert!(!valid_digest(empty));
    assert!(!valid_digest(&format!("sha256:{}", empty.to_uppercase())));
    assert!(!valid_digest(&format!("sha256:{}", &empty[1..])));
    assert!(!valid_digest(&format!("sha256:{empty}0")));
}

#[test]
fn content_digest_tells_parts_apart() {
    let mut bytes: Vec<u8> = Vec::new();
    for part in ["Subject", "Text", "<p>Text</p>"] {
        bytes.extend_from_slice(&(part.len() as u64).to_be_bytes());
        bytes.extend_from_slice(part.as_bytes());
    }
    assert_eq!(
        content_digest("Subject", "Text", "<p>Text</p>"),
        format!("sha256:{}", hex::encode(<sha2::Sha256 as sha2::Digest>::digest(&bytes)))
    );
    assert_ne!(content_digest("ab", "c", ""), content_digest("a", "bc", ""));
    assert_ne!(content_digest("a", "", "b"), content_digest("a", "b", ""));
}

#[test]
fn outside_failures_are_attached_as_causes() {
    let cause = |encoded: &str| {
        let error = AeadSnapshotProtector::from_base64_key(encoded, "secret:key".to_owned())
            .err()
            .expect("rejected");
        error.source().is_some()
    };
    assert!(cause("not base64!"));
    assert!(!cause(&base64::engine::general_purpose::STANDARD.encode([7_u8; 31])));
    let protector = protector("secret:key");
    let refused = |ciphertext: &str, key_reference: &str| {
        let protected = ProtectedValue {
            ciphertext: ciphertext.to_owned(),
            key_reference: key_reference.to_owned(),
        };
        protector.unprotect(&protected).expect_err("refused").source().is_some()
    };
    assert!(refused("v1:not base64!", "secret:key"));
    assert!(!refused("v1:AAAA", "secret:key"));
    assert!(!refused("v2:AAAA", "secret:key"));
    assert!(!refused("v1:AAAA", "secret:other"));
    let raw = ProtectedValue {
        ciphertext: base64::engine::general_purpose::STANDARD.encode([0xff_u8]),
        key_reference: "test-only:base64".to_owned(),
    };
    let error = TestSnapshotProtector.unprotect(&raw).expect_err("refused");
    assert_eq!(error.message(), "invalid protected snapshot encoding");
    assert!(error.source().is_some());
}

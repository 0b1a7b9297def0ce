//! How messages and recipients are hidden, and revealed again.

use vstd::prelude::*;
use vstd::utf8::*;

use crate::error::{ErrorCode, NotificationError};
use crate::laws::boundary::lemma_begins;
use crate::laws::storing::{digest_of, measured};
use crate::laws::{begins, clipped, refused, sha256_text};
use crate::snapshot::{aes_gcm_opened, aes_gcm_sealed, base64_bytes, base64_text, be_bytes,
    clip_preview, content_digest, key_bytes, mask_email, redact_preview, regex_replaced,
    request_digest, AeadSnapshotProtector, ProtectedValue, SnapshotProtector,
    TestSnapshotProtector};

verus! {

/// A key is 32 bytes in base64, and nothing else is one.
pub proof fn law_key_is_32_bytes(
    encoded: &str,
    reference: String,
    r: Result<AeadSnapshotProtector, NotificationError>,
)
    requires
        call_ensures(AeadSnapshotProtector::from_base64_key, (encoded, reference), r),
    ensures
        r is Ok <==> base64_bytes(encoded@) is Some && base64_bytes(encoded@)->Some_0.len() == 32,
        r is Ok ==> key_bytes(r->Ok_0.key) == base64_bytes(encoded@)->Some_0
            && r->Ok_0.key_reference@ == reference@,
        r is Err ==> r->Err_0.code is Validation,
        base64_bytes(encoded@) is None ==> r->Err_0.message@
            == "Notification snapshot key must be base64"@ && r->Err_0.source is Some,
        base64_bytes(encoded@) is Some && r is Err ==> refused(
            r,
            ErrorCode::Validation,
            "Notification snapshot key must contain exactly 32 bytes"@,
        ),
{
}

/// A text is sealed under the key with the nonce in front, in base64 behind its
/// version, and goes by the reference of the key.
pub proof fn law_text_is_sealed_under_the_key(
    protector: &AeadSnapshotProtector,
    nonce: Vec<u8>,
    text: &str,
    value: ProtectedValue,
)
    requires
        call_ensures(
            AeadSnapshotProtector::protect_with_nonce,
            (protector, nonce, text),
            Ok::<ProtectedValue, NotificationError>(value),
        ),
    ensures
        value.key_reference@ == protector.key_reference@,
        value.ciphertext@ == "v1:"@ + base64_text(
            nonce@ + aes_gcm_sealed(key_bytes(protector.key), nonce@, encode_utf8(text@)),
        ),
{
}

/// What was sealed is revealed again, and by no other key reference.
pub proof fn law_sealed_text_is_revealed_again(
    protector: &AeadSnapshotProtector,
    nonce: Vec<u8>,
    text: &str,
    value: ProtectedValue,
    reader: &AeadSnapshotProtector,
    r: Result<String, NotificationError>,
)
    requires
        call_ensures(
            AeadSnapshotProtector::protect_with_nonce,
            (protector, nonce, text),
            Ok::<ProtectedValue, NotificationError>(value),
        ),
        call_ensures(AeadSnapshotProtector::unprotect, (reader, &value), r),
        reader.key == protector.key,
    ensures
        reader.key_reference@ == protector.key_reference@ ==> r is Ok && r->Ok_0@ == text@,
        reader.key_reference@ != protector.key_reference@ ==> refused(
            r,
            ErrorCode::Validation,
            "Notification snapshot key reference does not match"@,
        ),
{
}

/// Whether a text could not be revealed, for the given reason.
pub open spec fn not_revealed(
    r: Result<String, NotificationError>,
    text: Seq<char>,
    caused: bool,
) -> bool {
    r is Err && r->Err_0.code is Validation && r->Err_0.message@ == text && (r->Err_0.source is Some
        <==> caused)
}

/// A protected text is revealed step by step, and what is wrong with it first is
/// the answer: another key, another version, no base64, nothing behind the
/// nonce, a seal that does not hold, or bytes that are no text.
pub proof fn law_protected_text_is_revealed_step_by_step(
    protector: &AeadSnapshotProtector,
    value: &ProtectedValue,
    r: Result<String, NotificationError>,
)
    requires
        call_ensures(AeadSnapshotProtector::unprotect, (protector, value), r),
    ensures
        ({
            let known = value.key_reference@ == protector.key_reference@;
            let versioned = begins(value.ciphertext@, "v1:"@);
            let envelope = base64_bytes(value.ciphertext@.skip(3));
            let plain = aes_gcm_opened(
                key_bytes(protector.key),
                envelope->Some_0.take(12),
                envelope->Some_0.skip(12),
            );
            &&& !known ==> not_revealed(
                r,
                "Notification snapshot key reference does not match"@,
                false,
            )
            &&& known && !versioned ==> not_revealed(
                r,
                "Notification snapshot envelope version is unsupported"@,
                false,
            )
            &&& known && versioned && envelope is None ==> not_revealed(
                r,
                "invalid protected snapshot"@,
                true,
            )
            &&& known && versioned && envelope is Some && envelope->Some_0.len() <= 12
                ==> not_revealed(r, "invalid protected snapshot envelope"@, false)
            &&& known && versioned && envelope is Some && envelope->Some_0.len() > 12 && plain
                is None ==> not_revealed(
                r,
                "Notification snapshot authentication failed"@,
                false,
            )
            &&& known && versioned && envelope is Some && envelope->Some_0.len() > 12 && plain
                is Some ==> if valid_utf8(plain->Some_0) {
                r is Ok && encode_utf8(r->Ok_0@) == plain->Some_0
            } else {
                not_revealed(r, "invalid protected snapshot encoding"@, true)
            }
        }),
{
    reveal_strlit("v1:");
    lemma_begins(value.ciphertext@, "v1:"@);
    if r is Ok {
        let envelope = base64_bytes(value.ciphertext@.skip(3))->Some_0;
        let plain = aes_gcm_opened(
            key_bytes(protector.key),
            envelope.take(12),
            envelope.skip(12),
        )->Some_0;
        decode_utf8_encode_utf8(plain);
    }
}

/// The protector for tests hides nothing: what it protects it reveals again,
/// whatever key it is said to go by.
pub proof fn law_test_protector_reveals_what_it_was_given(
    protector: &TestSnapshotProtector,
    text: &str,
    value: ProtectedValue,
    r: Result<String, NotificationError>,
)
    requires
        call_ensures(
            TestSnapshotProtector::protect,
            (protector, text),
            Ok::<ProtectedValue, NotificationError>(value),
        ),
        call_ensures(TestSnapshotProtector::unprotect, (protector, &value), r),
    ensures
        r is Ok && r->Ok_0@ == text@,
        value.ciphertext@ == base64_text(encode_utf8(text@)),
        value.key_reference@ == "test-only:base64"@,
{
}

/// An address is shown by the first character of its local part and its
/// domain; an address without an at sign is not shown at all.
pub proof fn law_address_is_masked(address: &str, mask: String, at: int)
    requires
        call_ensures(mask_email, (address,), mask),
    ensures
        (forall|i: int| 0 <= i < address@.len() ==> #[trigger] address@[i] != '@') ==> mask@
            == "***"@,
        0 <= at < address@.len() && address@[at] == '@' && (forall|i: int|
            at < i < address@.len() ==> #[trigger] address@[i] != '@') ==> mask@ == seq![
            if at > 0 {
                address@[0]
            } else {
                '*'
            },
        ] + "***@"@ + address@.skip(at + 1),
{
    if forall|i: int| 0 <= i < address@.len() ==> #[trigger] address@[i] != '@' {
        lemma_no_at(address@);
    }
    if 0 <= at < address@.len() && address@[at] == '@' && (forall|i: int|
        at < i < address@.len() ==> #[trigger] address@[i] != '@') {
        lemma_last_at_is(address@, at);
    }
}

proof fn lemma_no_at(address: Seq<char>)
    requires
        forall|i: int| 0 <= i < address.len() ==> #[trigger] address[i] != '@',
    ensures
        crate::snapshot::last_at(address) == -1,
    decreases address.len(),
{
    if address.len() > 0 {
        assert(address.last() != '@');
        lemma_no_at(address.drop_last());
    }
}

proof fn lemma_last_at_is(address: Seq<char>, at: int)
    requires
        0 <= at < address.len(),
        address[at] == '@',
        forall|i: int| at < i < address.len() ==> #[trigger] address[i] != '@',
    ensures
        crate::snapshot::last_at(address) == at,
    decreases address.len(),
{
    if at < address.len() - 1 {
        assert(address.last() != '@');
        lemma_last_at_is(address.drop_last(), at);
    }
}

/// A preview is the message without its links and then without its addresses,
/// clipped to 160 characters.
pub proof fn law_preview_is_redacted_and_clipped(
    text: &str,
    preview: String,
    redacted: &str,
    short: String,
)
    requires
        call_ensures(redact_preview, (text,), preview),
        call_ensures(clip_preview, (redacted,), short),
    ensures
        clipped(
            preview@,
            regex_replaced(
                "[A-Za-z0-9._%+-]+@[A-Za-z0-9.-]+\\.[A-Za-z]{2,}"@,
                regex_replaced("https?://\\S+"@, text@, "[link redacted]"@),
                "[recipient redacted]"@,
            ),
            160,
        ),
        clipped(short@, redacted@, 160),
{
}

/// The digest of a message is taken over its subject, its text and its HTML, in
/// this order and each with its length in front; the digest of a request over
/// its encoding.
pub proof fn law_message_is_told_by_its_parts(
    subject: &str,
    text: &str,
    html: &str,
    digest: String,
    encoded: &[u8],
    request: String,
)
    requires
        call_ensures(content_digest, (subject, text, html), digest),
        call_ensures(request_digest, (encoded,), request),
    ensures
        digest@ == digest_of(measured(subject@) + measured(text@) + measured(html@)),
        sha256_text(digest@),
        request@ == digest_of(encoded@),
{
    crate::laws::boundary::lemma_sha256_text(digest@);
}

/// A length is told in eight bytes, the highest first.
pub proof fn law_length_is_told_highest_byte_first(length: u64, bytes: Seq<u8>)
    requires
        bytes == be_bytes(length as nat, 8),
    ensures
        bytes.len() == 8,
        length == 0x100_0000_0000_0000 * bytes[0] + 0x1_0000_0000_0000 * bytes[1]
            + 0x100_0000_0000 * bytes[2] + 0x1_0000_0000 * bytes[3] + 0x100_0000 * bytes[4]
            + 0x1_0000 * bytes[5] + 0x100 * bytes[6] + bytes[7],
{
    reveal_with_fuel(be_bytes, 9);
    let a = length as nat;
    let b = a / 256;
    let c = b / 256;
    let d = c / 256;
    let e = d / 256;
    let f = e / 256;
    let g = f / 256;
    let h = g / 256;
    assert(h < 256);
    assert(bytes[7] == a % 256);
    assert(bytes[6] == b % 256);
    assert(bytes[5] == c % 256);
    assert(bytes[4] == d % 256);
    assert(bytes[3] == e % 256);
    assert(bytes[2] == f % 256);
    assert(bytes[1] == g % 256);
    assert(bytes[0] == h % 256);
}

/// A text is sealed unless it is longer than the cipher can take.
pub proof fn law_text_that_fits_is_sealed(
    protector: &AeadSnapshotProtector,
    nonce: Vec<u8>,
    text: &str,
    r: Result<ProtectedValue, NotificationError>,
)
    requires
        call_ensures(AeadSnapshotProtector::protect_with_nonce, (protector, nonce, text), r),
    ensures
        r is Ok <==> encode_utf8(text@).len() <= 68_719_476_736,
        r is Err ==> refused(
            r,
            ErrorCode::Internal,
            "Notification snapshot encryption failed"@,
        ),
{
}

} // verus!

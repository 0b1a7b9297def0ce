//! Protected snapshots, content digests and redacted previews.

use aes_gcm::aead::{Aead, KeyInit};
use base64::Engine;
use vstd::prelude::*;
use vstd::string::*;
use vstd::utf8::*;

use crate::digest::{digest_text, encoded_digest, valid_digest_text};
use crate::error::{ErrorCode, FailureView, NotificationError, NotificationResult};
use crate::text::{after_prefix, bounded, chars_of, leading, same_text, stands_at, text_between};

verus! {

/// The bytes of a key in a `zeroize::Zeroizing`, which clears them when it is
/// dropped.
#[verifier::external_body]
pub struct SnapshotKey {
    bytes: zeroize::Zeroizing<[u8; 32]>,
}

/// The bytes that a key holds.
pub uninterp spec fn key_bytes(key: SnapshotKey) -> Seq<u8>;

/// `Zeroizing::new` on the 32 bytes of a key: it holds exactly those bytes.
#[verifier::external_body]
fn hold_key(bytes: Vec<u8>) -> (key: SnapshotKey)
    requires
        bytes@.len() == 32,
    ensures
        key_bytes(key) == bytes@,
{
    let key: [u8; 32] = bytes.try_into().expect("32 bytes");
    SnapshotKey { bytes: zeroize::Zeroizing::new(key) }
}

/// AES-256-GCM ciphertext with its tag, under a key and a nonce.
pub uninterp spec fn aes_gcm_sealed(key: Seq<u8>, nonce: Seq<u8>, plain: Seq<u8>) -> Seq<u8>;

/// What AES-256-GCM opens to, if the ciphertext is authentic.
pub uninterp spec fn aes_gcm_opened(key: Seq<u8>, nonce: Seq<u8>, sealed: Seq<u8>) -> Option<
    Seq<u8>,
>;

/// The longest plaintext of one AES-GCM message.
pub const AES_GCM_LIMIT: u64 = 68_719_476_736;

/// `Aes256Gcm::encrypt`: refuses only a plaintext over the limit; otherwise the
/// ciphertext is 16 bytes longer than the plaintext and opens to it again.
#[verifier::external_body]
fn aes_encrypt(key: &SnapshotKey, nonce: &Vec<u8>, plain: &[u8]) -> (sealed: Option<
    Vec<u8>,
>)
    requires
        nonce@.len() == 12,
    ensures
        sealed is Some == (plain@.len() <= AES_GCM_LIMIT),
        sealed matches Some(bytes) ==> {
            &&& bytes@ == aes_gcm_sealed(key_bytes(*key), nonce@, plain@)
            &&& bytes@.len() == plain@.len() + 16
            &&& aes_gcm_opened(key_bytes(*key), nonce@, bytes@) == Some(plain@)
        },
{
    aes_gcm::Aes256Gcm::new_from_slice(key.bytes.as_ref())
        .expect("32-byte key")
        .encrypt(aes_gcm::Nonce::from_slice(nonce), plain)
        .ok()
}

/// `Aes256Gcm::decrypt`: what the ciphertext opens to, if it is authentic.
#[verifier::external_body]
fn aes_decrypt(key: &SnapshotKey, nonce: &Vec<u8>, sealed: &Vec<u8>) -> (plain:
    Option<Vec<u8>>)
    requires
        nonce@.len() == 12,
    ensures
        match plain {
            Some(bytes) => aes_gcm_opened(key_bytes(*key), nonce@, sealed@) == Some(bytes@),
            None => aes_gcm_opened(key_bytes(*key), nonce@, sealed@) is None,
        },
{
    aes_gcm::Aes256Gcm::new_from_slice(key.bytes.as_ref())
        .expect("32-byte key")
        .decrypt(aes_gcm::Nonce::from_slice(nonce), sealed.as_slice())
        .ok()
}

/// `getrandom::fill` on twelve bytes. Which bytes come is left to chance.
#[verifier::external_body]
fn random_nonce() -> (nonce: Result<Vec<u8>, String>)
    ensures
        nonce matches Ok(bytes) ==> bytes@.len() == 12,
{
    let mut bytes = vec![0u8; 12];
    match getrandom::fill(&mut bytes) {
        Ok(()) => Ok(bytes),
        Err(error) => Err(error.to_string()),
    }
}

/// Standard padded base64 text of bytes.
pub uninterp spec fn base64_text(bytes: Seq<u8>) -> Seq<char>;

/// The bytes that standard padded base64 text stands for.
pub uninterp spec fn base64_bytes(text: Seq<char>) -> Option<Seq<u8>>;

/// `general_purpose::STANDARD.encode`: text that decodes to the bytes again.
#[verifier::external_body]
fn base64_encode(bytes: &[u8]) -> (text: String)
    ensures
        text@ == base64_text(bytes@),
        base64_bytes(text@) == Some(bytes@),
{
    base64::engine::general_purpose::STANDARD.encode(bytes)
}

/// `general_purpose::STANDARD.decode`: the bytes, or the text of the error
/// where the input is no base64. Nothing is stated of that text.
#[verifier::external_body]
fn base64_decode(text: &str) -> (bytes: Result<Vec<u8>, String>)
    ensures
        match bytes {
            Ok(decoded) => base64_bytes(text@) == Some(decoded@),
            Err(_) => base64_bytes(text@) is None,
        },
{
    match base64::engine::general_purpose::STANDARD.decode(text) {
        Ok(decoded) => Ok(decoded),
        Err(error) => Err(error.to_string()),
    }
}

/// `String::from_utf8`: the text, or the text of the error where the bytes are
/// no UTF-8. Nothing is stated of that text.
#[verifier::external_body]
fn utf8_text(bytes: Vec<u8>) -> (text: Result<String, String>)
    ensures
        match text {
            Ok(decoded) => valid_utf8(bytes@) && decoded@ == decode_utf8(bytes@),
            Err(_) => !valid_utf8(bytes@),
        },
{
    match String::from_utf8(bytes) {
        Ok(decoded) => Ok(decoded),
        Err(error) => Err(error.to_string()),
    }
}

/// A text as it is stored: protected, with the reference of its key.
#[derive(Debug, Clone, PartialEq, Eq)]
pub struct ProtectedValue {
    pub ciphertext: String,
    pub key_reference: String,
}

/// What revealing a protected text gives: the text, or what is told of the
/// failure.
pub type Revealed = Result<Seq<char>, FailureView>;

/// A validation failure without an underlying failure.
pub open spec fn invalid(message: Seq<char>) -> Revealed {
    Err(FailureView { code: ErrorCode::Validation, message, caused: false })
}

/// A validation failure with the underlying failure attached to it.
pub open spec fn invalid_because(message: Seq<char>) -> Revealed {
    Err(FailureView { code: ErrorCode::Validation, message, caused: true })
}

/// Whether `result` is the outcome `revealed` says.
pub open spec fn reveals(result: NotificationResult<String>, revealed: Revealed) -> bool {
    match result {
        Ok(text) => revealed == Ok::<Seq<char>, FailureView>(text@),
        Err(error) => revealed == Err::<Seq<char>, FailureView>(error.told()),
    }
}

/// Protects texts for storage and reveals them again.
pub trait SnapshotProtector {
    /// What revealing a stored pair of ciphertext and key reference gives.
    spec fn revealed(&self, ciphertext: Seq<char>, key_reference: Seq<char>) -> Revealed;

    /// Whether protecting a text can give `value`.
    spec fn protects(&self, plaintext: Seq<char>, value: ProtectedValue) -> bool;

    /// Whether protecting a text can fail with `error`.
    spec fn refuses(&self, plaintext: Seq<char>, error: NotificationError) -> bool;

    /// Protects a text; what was protected reveals to the same text.
    fn protect(&self, plaintext: &str) -> (protected: NotificationResult<ProtectedValue>)
        ensures
            match protected {
                Ok(value) => self.protects(plaintext@, value) && self.revealed(
                    value.ciphertext@,
                    value.key_reference@,
                ) == Ok::<Seq<char>, FailureView>(plaintext@),
                Err(error) => self.refuses(plaintext@, error),
            },
    ;

    fn unprotect(&self, protected: &ProtectedValue) -> (text: NotificationResult<String>)
        ensures
            reveals(text, self.revealed(protected.ciphertext@, protected.key_reference@)),
    ;
}

/// Protects texts with AES-256-GCM under one key.
pub struct AeadSnapshotProtector {
    pub key: SnapshotKey,
    pub key_reference: String,
}

pub const KEY_NOT_BASE64: &'static str = "Notification snapshot key must be base64";

pub const KEY_NOT_32_BYTES: &'static str = "Notification snapshot key must contain exactly 32 bytes";

pub const NONCE_FAILED: &'static str = "Notification snapshot nonce generation failed";

pub const ENCRYPTION_FAILED: &'static str = "Notification snapshot encryption failed";

pub const REFERENCE_MISMATCH: &'static str = "Notification snapshot key reference does not match";

pub const VERSION_UNSUPPORTED: &'static str = "Notification snapshot envelope version is unsupported";

pub const SNAPSHOT_INVALID: &'static str = "invalid protected snapshot";

pub const ENVELOPE_INVALID: &'static str = "invalid protected snapshot envelope";

pub const AUTHENTICATION_FAILED: &'static str = "Notification snapshot authentication failed";

pub const ENCODING_INVALID: &'static str = "invalid protected snapshot encoding";

/// The version in front of every envelope.
pub const ENVELOPE_VERSION: &'static str = "v1:";

impl AeadSnapshotProtector {
    /// The protector whose key is written in base64.
    pub fn from_base64_key(encoded: &str, key_reference: String) -> (r: NotificationResult<Self>)
        ensures
            match r {
                Ok(protector) => {
                    &&& base64_bytes(encoded@) == Some(key_bytes(protector.key))
                    &&& key_bytes(protector.key).len() == 32
                    &&& protector.key_reference == key_reference
                },
                Err(error) => {
                    &&& error.code == ErrorCode::Validation
                    &&& match base64_bytes(encoded@) {
                        None => error.text() == KEY_NOT_BASE64@ && error.cause() is Some,
                        Some(bytes) => bytes.len() != 32 && error.text() == KEY_NOT_32_BYTES@
                            && error.cause() is None,
                    }
                },
            },
    {
        let bytes = match base64_decode(encoded) {
            Ok(bytes) => bytes,
            Err(cause) => {
                return Err(
                    NotificationError::new(ErrorCode::Validation, KEY_NOT_BASE64).with_source(
                        cause.as_str(),
                    ),
                );
            },
        };
        if bytes.len() != 32 {
            return Err(NotificationError::new(ErrorCode::Validation, KEY_NOT_32_BYTES));
        }
        Ok(AeadSnapshotProtector { key: hold_key(bytes), key_reference })
    }

    /// The ciphertext text of `plaintext` under `nonce`.
    pub open spec fn envelope(self, nonce: Seq<u8>, plaintext: Seq<char>) -> Seq<char> {
        ENVELOPE_VERSION@ + base64_text(
            nonce + aes_gcm_sealed(key_bytes(self.key), nonce, encode_utf8(plaintext)),
        )
    }

    /// What an envelope opens to under this key.
    pub open spec fn opened(self, ciphertext: Seq<char>) -> Revealed {
        if !stands_at(ciphertext, ENVELOPE_VERSION@, 0) {
            invalid(VERSION_UNSUPPORTED@)
        } else {
            match base64_bytes(ciphertext.skip(ENVELOPE_VERSION@.len() as int)) {
                None => invalid_because(SNAPSHOT_INVALID@),
                Some(envelope) => if envelope.len() <= 12 {
                    invalid(ENVELOPE_INVALID@)
                } else {
                    match aes_gcm_opened(
                        key_bytes(self.key),
                        envelope.take(12),
                        envelope.skip(12),
                    ) {
                        None => invalid(AUTHENTICATION_FAILED@),
                        Some(plain) => if valid_utf8(plain) {
                            Ok(decode_utf8(plain))
                        } else {
                            invalid_because(ENCODING_INVALID@)
                        },
                    }
                },
            }
        }
    }

    /// Protects a text under the given nonce.
    pub fn protect_with_nonce(&self, nonce: Vec<u8>, plaintext: &str) -> (r: NotificationResult<
        ProtectedValue,
    >)
        requires
            nonce@.len() == 12,
        ensures
            match r {
                Ok(value) => {
                    &&& encode_utf8(plaintext@).len() <= AES_GCM_LIMIT
                    &&& value.ciphertext@ == self.envelope(nonce@, plaintext@)
                    &&& value.key_reference@ == self.key_reference@
                    &&& self.opened(value.ciphertext@) == Ok::<Seq<char>, FailureView>(plaintext@)
                },
                Err(error) => {
                    &&& encode_utf8(plaintext@).len() > AES_GCM_LIMIT
                    &&& error.is(ErrorCode::Internal, ENCRYPTION_FAILED@)
                },
            },
    {
        let sealed = match aes_encrypt(&self.key, &nonce, plaintext.as_bytes()) {
            Some(sealed) => sealed,
            None => {
                return Err(NotificationError::new(ErrorCode::Internal, ENCRYPTION_FAILED));
            },
        };
        let ghost nonce_bytes = nonce@;
        let ghost sealed_bytes = sealed@;
        let mut envelope = nonce;
        let mut tail = sealed;
        envelope.append(&mut tail);
        let encoded = base64_encode(envelope.as_slice());
        let mut ciphertext = ENVELOPE_VERSION.to_owned();
        ciphertext.append(encoded.as_str());
        proof {
            assert(envelope@ == nonce_bytes + sealed_bytes);
            assert(envelope@.take(12) =~= nonce_bytes);
            assert(envelope@.skip(12) =~= sealed_bytes);
            assert(ciphertext@.subrange(0, ENVELOPE_VERSION@.len() as int) =~= ENVELOPE_VERSION@);
            assert(ciphertext@.skip(ENVELOPE_VERSION@.len() as int) =~= encoded@);
            encode_utf8_valid_utf8(plaintext@);
            encode_utf8_decode_utf8(plaintext@);
        }
        Ok(ProtectedValue { ciphertext, key_reference: self.key_reference.clone() })
    }
}

impl SnapshotProtector for AeadSnapshotProtector {
    open spec fn revealed(&self, ciphertext: Seq<char>, key_reference: Seq<char>) -> Revealed {
        if key_reference != self.key_reference@ {
            invalid(REFERENCE_MISMATCH@)
        } else {
            self.opened(ciphertext)
        }
    }

    /// The envelope of the text under some nonce, with this key's reference.
    /// Which nonce it is, and that no nonce is drawn twice, is left unsaid: it
    /// rests on chance.
    open spec fn protects(&self, plaintext: Seq<char>, value: ProtectedValue) -> bool {
        &&& value.key_reference@ == self.key_reference@
        &&& exists|nonce: Seq<u8>|
            nonce.len() == 12 && value.ciphertext@ == #[trigger] self.envelope(nonce, plaintext)
    }

    /// Either no nonce could be drawn, or the text is too long to be sealed.
    open spec fn refuses(&self, plaintext: Seq<char>, error: NotificationError) -> bool {
        ||| error.code == ErrorCode::Internal && error.text() == NONCE_FAILED@ && error.cause()
            is Some
        ||| error.is(ErrorCode::Internal, ENCRYPTION_FAILED@) && encode_utf8(plaintext).len()
            > AES_GCM_LIMIT
    }

    /// Protects a text under a nonce that is drawn at random for it. That the
    /// nonce is fresh rests on chance and is left unsaid.
    fn protect(&self, plaintext: &str) -> (protected: NotificationResult<ProtectedValue>) {
        match random_nonce() {
            Ok(nonce) => self.protect_with_nonce(nonce, plaintext),
            Err(cause) => Err(
                NotificationError::new(ErrorCode::Internal, NONCE_FAILED).with_source(
                    cause.as_str(),
                ),
            ),
        }
    }

    fn unprotect(&self, protected: &ProtectedValue) -> (text: NotificationResult<String>) {
        if !same_text(protected.key_reference.as_str(), self.key_reference.as_str()) {
            return Err(NotificationError::new(ErrorCode::Validation, REFERENCE_MISMATCH));
        }
        let encoded = match after_prefix(protected.ciphertext.as_str(), ENVELOPE_VERSION) {
            Some(encoded) => encoded,
            None => {
                return Err(NotificationError::new(ErrorCode::Validation, VERSION_UNSUPPORTED));
            },
        };
        let envelope = match base64_decode(encoded.as_str()) {
            Ok(envelope) => envelope,
            Err(cause) => {
                return Err(
                    NotificationError::new(ErrorCode::Validation, SNAPSHOT_INVALID).with_source(
                        cause.as_str(),
                    ),
                );
            },
        };
        if envelope.len() <= 12 {
            return Err(NotificationError::new(ErrorCode::Validation, ENVELOPE_INVALID));
        }
        let ghost whole = envelope@;
        let mut nonce = envelope;
        let sealed = nonce.split_off(12);
        assert(nonce@ =~= whole.take(12));
        assert(sealed@ =~= whole.skip(12));
        let plain = match aes_decrypt(&self.key, &nonce, &sealed) {
            Some(plain) => plain,
            None => {
                return Err(NotificationError::new(ErrorCode::Validation, AUTHENTICATION_FAILED));
            },
        };
        match utf8_text(plain) {
            Ok(text) => Ok(text),
            Err(cause) => Err(
                NotificationError::new(ErrorCode::Validation, ENCODING_INVALID).with_source(
                    cause.as_str(),
                ),
            ),
        }
    }
}

/// A protector for tests only: it encodes, and hides nothing. Production
/// composition uses a protector whose key comes from a secret reference.
#[derive(Debug, Clone, Copy)]
pub struct TestSnapshotProtector;

/// The key reference of the protector for tests.
pub const TEST_KEY_REFERENCE: &'static str = "test-only:base64";

impl SnapshotProtector for TestSnapshotProtector {
    open spec fn revealed(&self, ciphertext: Seq<char>, key_reference: Seq<char>) -> Revealed {
        match base64_bytes(ciphertext) {
            None => invalid_because(SNAPSHOT_INVALID@),
            Some(bytes) => if valid_utf8(bytes) {
                Ok(decode_utf8(bytes))
            } else {
                invalid_because(ENCODING_INVALID@)
            },
        }
    }

    open spec fn protects(&self, plaintext: Seq<char>, value: ProtectedValue) -> bool {
        &&& value.ciphertext@ == base64_text(encode_utf8(plaintext))
        &&& value.key_reference@ == TEST_KEY_REFERENCE@
    }

    /// Encoding never fails.
    open spec fn refuses(&self, plaintext: Seq<char>, error: NotificationError) -> bool {
        false
    }

    fn protect(&self, plaintext: &str) -> (protected: NotificationResult<ProtectedValue>)
        ensures
            protected is Ok,
    {
        let ciphertext = base64_encode(plaintext.as_bytes());
        proof {
            encode_utf8_valid_utf8(plaintext@);
            encode_utf8_decode_utf8(plaintext@);
        }
        Ok(ProtectedValue { ciphertext, key_reference: TEST_KEY_REFERENCE.to_owned() })
    }

    fn unprotect(&self, protected: &ProtectedValue) -> (text: NotificationResult<String>) {
        let bytes = match base64_decode(protected.ciphertext.as_str()) {
            Ok(bytes) => bytes,
            Err(cause) => {
                return Err(
                    NotificationError::new(ErrorCode::Validation, SNAPSHOT_INVALID).with_source(
                        cause.as_str(),
                    ),
                );
            },
        };
        match utf8_text(bytes) {
            Ok(text) => Ok(text),
            Err(cause) => Err(
                NotificationError::new(ErrorCode::Validation, ENCODING_INVALID).with_source(
                    cause.as_str(),
                ),
            ),
        }
    }
}

/// The `width` lowest bytes of `value`, the highest of them first.
pub open spec fn be_bytes(value: nat, width: nat) -> Seq<u8>
    decreases width,
{
    if width == 0 {
        Seq::empty()
    } else {
        be_bytes(value / 256, (width - 1) as nat).push((value % 256) as u8)
    }
}

/// A text with its length in bytes, as eight bytes, in front of it.
pub open spec fn framed(text: Seq<char>) -> Seq<u8> {
    be_bytes(encode_utf8(text).len(), 8) + encode_utf8(text)
}

/// The bytes over which the content digest of a message is taken.
pub open spec fn content_frame(subject: Seq<char>, text: Seq<char>, html: Seq<char>) -> Seq<u8> {
    framed(subject) + framed(text) + framed(html)
}

/// Appends the `width` lowest bytes of `value`.
pub(crate) fn push_be(out: &mut Vec<u8>, value: u64, width: usize)
    ensures
        final(out)@ == old(out)@ + be_bytes(value as nat, width as nat),
    decreases width,
{
    if width > 0 {
        push_be(out, value / 256, width - 1);
        out.push((value % 256) as u8);
    }
    assert(out@ =~= old(out)@ + be_bytes(value as nat, width as nat));
}

/// Appends the bytes of a text.
pub(crate) fn push_text(out: &mut Vec<u8>, text: &str)
    ensures
        final(out)@ == old(out)@ + encode_utf8(text@),
{
    let mut bytes = text.as_bytes_vec();
    out.append(&mut bytes);
}

fn push_framed(out: &mut Vec<u8>, text: &str)
    ensures
        final(out)@ == old(out)@ + framed(text@),
{
    let length: usize = text.as_bytes().len();
    push_be(out, length as u64, 8);
    push_text(out, text);
    assert(out@ =~= old(out)@ + framed(text@));
}

/// The digest of a rendered message.
pub fn content_digest(subject: &str, text: &str, html: &str) -> (digest: String)
    ensures
        digest@ == digest_text(content_frame(subject@, text@, html@)),
        valid_digest_text(digest@),
{
    let mut frame: Vec<u8> = Vec::new();
    push_framed(&mut frame, subject);
    push_framed(&mut frame, text);
    push_framed(&mut frame, html);
    assert(frame@ =~= content_frame(subject@, text@, html@));
    encoded_digest(frame.as_slice())
}

/// The digest of an encoded intent request.
pub fn request_digest(encoded: &[u8]) -> (digest: String)
    ensures
        digest@ == digest_text(encoded@),
        valid_digest_text(digest@),
{
    encoded_digest(encoded)
}

proof fn lemma_length_bytes(a: nat, b: nat)
    requires
        a <= u64::MAX,
        b <= u64::MAX,
    ensures
        be_bytes(a, 8).len() == 8,
        be_bytes(a, 8) == be_bytes(b, 8) ==> a == b,
{
    lemma_be_bytes_len(a, 8);
    assert(vstd::arithmetic::power::pow(256, 8) == 0x1_0000_0000_0000_0000) by {
        reveal_with_fuel(vstd::arithmetic::power::pow, 9);
    }
    if be_bytes(a, 8) == be_bytes(b, 8) {
        lemma_be_bytes_inj(a, b, 8);
    }
}

proof fn lemma_be_bytes_len(a: nat, width: nat)
    ensures
        be_bytes(a, width).len() == width,
    decreases width,
{
    if width > 0 {
        lemma_be_bytes_len(a / 256, (width - 1) as nat);
    }
}

proof fn lemma_be_bytes_inj(a: nat, b: nat, width: nat)
    requires
        be_bytes(a, width) == be_bytes(b, width),
        a < vstd::arithmetic::power::pow(256, width),
        b < vstd::arithmetic::power::pow(256, width),
    ensures
        a == b,
    decreases width,
{
    reveal_with_fuel(vstd::arithmetic::power::pow, 2);
    if width > 0 {
        let shorter = (width - 1) as nat;
        let x = be_bytes(a / 256, shorter);
        let y = be_bytes(b / 256, shorter);
        let p = vstd::arithmetic::power::pow(256, shorter);
        assert(x.push((a % 256) as u8).drop_last() =~= x);
        assert(y.push((b % 256) as u8).drop_last() =~= y);
        assert(x.push((a % 256) as u8).last() == y.push((b % 256) as u8).last());
        assert(vstd::arithmetic::power::pow(256, width) == 256 * p);
        assert(a / 256 < p) by (nonlinear_arith)
            requires
                a < 256 * p,
        ;
        assert(b / 256 < p) by (nonlinear_arith)
            requires
                b < 256 * p,
        ;
        lemma_be_bytes_inj(a / 256, b / 256, shorter);
        assert(a % 256 == b % 256);
    }
}

/// A frame is followed unambiguously: equal bytes begin with equal texts.
proof fn lemma_framed_prefix(a: Seq<char>, rest_a: Seq<u8>, b: Seq<char>, rest_b: Seq<u8>)
    requires
        framed(a) + rest_a == framed(b) + rest_b,
        encode_utf8(a).len() <= u64::MAX,
        encode_utf8(b).len() <= u64::MAX,
    ensures
        a == b,
        rest_a == rest_b,
{
    let x = encode_utf8(a);
    let y = encode_utf8(b);
    let left = framed(a) + rest_a;
    let right = framed(b) + rest_b;
    lemma_length_bytes(x.len(), y.len());
    lemma_length_bytes(y.len(), x.len());
    assert(left.take(8) =~= be_bytes(x.len(), 8));
    assert(right.take(8) =~= be_bytes(y.len(), 8));
    assert(x.len() == y.len());
    assert(left.subrange(8, 8 + x.len() as int) =~= x);
    assert(right.subrange(8, 8 + y.len() as int) =~= y);
    crate::text::lemma_same_bytes(a, b);
    assert(left.skip(8 + x.len() as int) =~= rest_a);
    assert(right.skip(8 + y.len() as int) =~= rest_b);
}

/// The content digest is bound to the message: two messages whose digests are
/// taken over the same bytes have the same subject, text and HTML.
pub proof fn law_content_frame_is_injective(
    subject_a: Seq<char>,
    text_a: Seq<char>,
    html_a: Seq<char>,
    subject_b: Seq<char>,
    text_b: Seq<char>,
    html_b: Seq<char>,
)
    requires
        content_frame(subject_a, text_a, html_a) == content_frame(subject_b, text_b, html_b),
        encode_utf8(subject_a).len() <= u64::MAX,
        encode_utf8(text_a).len() <= u64::MAX,
        encode_utf8(html_a).len() <= u64::MAX,
        encode_utf8(subject_b).len() <= u64::MAX,
        encode_utf8(text_b).len() <= u64::MAX,
        encode_utf8(html_b).len() <= u64::MAX,
    ensures
        subject_a == subject_b,
        text_a == text_b,
        html_a == html_b,
{
    let none = Seq::<u8>::empty();
    assert(content_frame(subject_a, text_a, html_a) =~= framed(subject_a) + (framed(text_a)
        + framed(html_a)));
    assert(content_frame(subject_b, text_b, html_b) =~= framed(subject_b) + (framed(text_b)
        + framed(html_b)));
    lemma_framed_prefix(
        subject_a,
        framed(text_a) + framed(html_a),
        subject_b,
        framed(text_b) + framed(html_b),
    );
    lemma_framed_prefix(text_a, framed(html_a), text_b, framed(html_b));
    assert(framed(html_a) + none =~= framed(html_b) + none);
    lemma_framed_prefix(html_a, none, html_b, none);
}

/// Where the last `@` of an address stands.
pub open spec fn last_at(address: Seq<char>) -> int
    decreases address.len(),
{
    if address.len() == 0 {
        -1
    } else if address.last() == '@' {
        address.len() - 1
    } else {
        last_at(address.drop_last())
    }
}

/// The mask that stands for an address: the first character before the last
/// `@`, and the domain after it.
pub open spec fn masked(address: Seq<char>) -> Seq<char> {
    let at = last_at(address);
    if at < 0 {
        "***"@
    } else {
        let first = if at > 0 {
            address[0]
        } else {
            '*'
        };
        seq![first] + "***@"@ + address.skip(at + 1)
    }
}

/// The mask that stands for an address.
pub fn mask_email(address: &str) -> (mask: String)
    ensures
        mask@ == masked(address@),
{
    let chars = chars_of(address);
    let mut end: usize = chars.len();
    assert(address@.take(end as int) =~= address@);
    while end > 0 && chars[end - 1] != '@'
        invariant
            end <= chars@.len(),
            chars@ == address@,
            last_at(address@) == last_at(address@.take(end as int)),
        decreases end,
    {
        assert(address@.take(end as int).drop_last() =~= address@.take(end - 1));
        end = end - 1;
    }
    if end == 0 {
        return "***".to_owned();
    }
    let first = if end > 1 {
        chars[0]
    } else {
        '*'
    };
    let mut mask = String::new();
    mask.push(first);
    mask.append("***@");
    let domain = text_between(&chars, end, chars.len());
    mask.append(domain.as_str());
    proof {
        assert(last_at(address@) == end - 1);
        assert(domain@ =~= address@.skip(end as int));
        assert(mask@ =~= masked(address@));
    }
    mask
}

/// A mask tells nothing of the local part but its first character: addresses
/// with the same first character and the same domain have the same mask.
pub proof fn law_mask_hides_local_part(local_a: Seq<char>, local_b: Seq<char>, domain: Seq<char>)
    requires
        local_a.len() > 0,
        local_b.len() > 0,
        local_a[0] == local_b[0],
        !domain.contains('@'),
    ensures
        masked(local_a + seq!['@'] + domain) == masked(local_b + seq!['@'] + domain),
        masked(local_a + seq!['@'] + domain) == seq![local_a[0]] + "***@"@ + domain,
{
    lemma_last_at(local_a, domain);
    lemma_last_at(local_b, domain);
    let a = local_a + seq!['@'] + domain;
    let b = local_b + seq!['@'] + domain;
    assert(a.skip(local_a.len() as int + 1) =~= domain);
    assert(b.skip(local_b.len() as int + 1) =~= domain);
}

proof fn lemma_last_at(local: Seq<char>, domain: Seq<char>)
    requires
        !domain.contains('@'),
    ensures
        last_at(local + seq!['@'] + domain) == local.len(),
    decreases domain.len(),
{
    let address = local + seq!['@'] + domain;
    if domain.len() == 0 {
        assert(address.last() == '@');
    } else {
        assert(domain.contains(domain.last()));
        assert(address.last() == domain.last());
        assert(address.drop_last() =~= local + seq!['@'] + domain.drop_last());
        assert forall|i: int| 0 <= i < domain.drop_last().len() implies #[trigger] domain.drop_last()[i]
            != '@' by {
            assert(domain.contains(domain[i]));
        }
        lemma_last_at(local, domain.drop_last());
    }
}

/// Matches a link.
pub const LINK_PATTERN: &'static str = r"https?://\S+";

/// Matches an email address.
pub const ADDRESS_PATTERN: &'static str = r"[A-Za-z0-9._%+-]+@[A-Za-z0-9.-]+\.[A-Za-z]{2,}";

/// `text` with every match of a regular expression replaced by a literal text.
pub uninterp spec fn regex_replaced(
    pattern: Seq<char>,
    text: Seq<char>,
    replacement: Seq<char>,
) -> Seq<char>;

/// `Regex::new` and `Regex::replace_all` for the two patterns above: `text`
/// with every match replaced. The replacement holds no `$`, so it is literal.
#[verifier::external_body]
fn replace_matches(pattern: &str, text: &str, replacement: &str) -> (replaced: String)
    requires
        pattern@ == LINK_PATTERN@ || pattern@ == ADDRESS_PATTERN@,
        !replacement@.contains('$'),
    ensures
        replaced@ == regex_replaced(pattern@, text@, replacement@),
{
    regex::Regex::new(pattern).expect("valid pattern").replace_all(text, replacement).into_owned()
}

/// The most characters that a preview shows.
pub const PREVIEW_LIMIT: usize = 160;

/// The preview of an already redacted text: its first characters.
pub fn clip_preview(redacted: &str) -> (preview: String)
    ensures
        preview@ == leading(redacted@, PREVIEW_LIMIT as nat),
        preview@.len() <= PREVIEW_LIMIT,
{
    bounded(redacted, PREVIEW_LIMIT)
}

/// The preview of a message: links and addresses replaced, then clipped.
pub open spec fn preview_of(text: Seq<char>) -> Seq<char> {
    leading(
        regex_replaced(
            ADDRESS_PATTERN@,
            regex_replaced(LINK_PATTERN@, text, "[link redacted]"@),
            "[recipient redacted]"@,
        ),
        PREVIEW_LIMIT as nat,
    )
}

/// The preview of a message, without its links and addresses.
pub fn redact_preview(text: &str) -> (preview: String)
    ensures
        preview@ == preview_of(text@),
        preview@.len() <= PREVIEW_LIMIT,
{
    proof {
        reveal_strlit("[link redacted]");
        reveal_strlit("[recipient redacted]");
    }
    let without_links = replace_matches(LINK_PATTERN, text, "[link redacted]");
    let without_addresses = replace_matches(
        ADDRESS_PATTERN,
        without_links.as_str(),
        "[recipient redacted]",
    );
    clip_preview(without_addresses.as_str())
}

} // verus!

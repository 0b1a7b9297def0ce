//! SHA-256 digests, their text form and the identifiers derived from them.

use vstd::prelude::*;
use vstd::string::*;
use vstd::utf8::*;

use crate::text::{after_prefix, chars_of, lower_hex, stands_at, text_between};

verus! {

/// The SHA-256 digest of a byte string.
pub uninterp spec fn sha256(bytes: Seq<u8>) -> Seq<u8>;

/// `Sha256::digest`: the 32 bytes of the SHA-256 digest.
#[verifier::external_body]
fn sha256_of(bytes: &[u8]) -> (digest: Vec<u8>)
    ensures
        digest@ == sha256(bytes@),
        digest@.len() == 32,
{
    <sha2::Sha256 as sha2::Digest>::digest(bytes).to_vec()
}

/// The lowercase hexadecimal digit of a number below sixteen.
pub open spec fn hex_digit(value: int) -> char {
    if value < 10 {
        ('0' as int + value) as char
    } else {
        ('a' as int + value - 10) as char
    }
}

/// Two lowercase hexadecimal digits for each byte, the high half first.
pub open spec fn hex_text(bytes: Seq<u8>) -> Seq<char> {
    Seq::new(
        2 * bytes.len(),
        |i: int|
            hex_digit(
                if i % 2 == 0 {
                    bytes[i / 2] as int / 16
                } else {
                    bytes[i / 2] as int % 16
                },
            ),
    )
}

/// `hex::encode`: lowercase hexadecimal text of the bytes.
#[verifier::external_body]
fn hex_of(bytes: &Vec<u8>) -> (text: String)
    ensures
        text@ == hex_text(bytes@),
{
    hex::encode(bytes)
}

/// The name of the digest algorithm before the digest itself.
pub const DIGEST_PREFIX: &'static str = "sha256:";

/// The text form of the digest of `bytes`.
pub open spec fn digest_text(bytes: Seq<u8>) -> Seq<char> {
    DIGEST_PREFIX@ + hex_text(sha256(bytes))
}

/// Whether two different texts have the same SHA-256 digest.
pub open spec fn collide(a: Seq<char>, b: Seq<char>) -> bool {
    a != b && sha256(encode_utf8(a)) == sha256(encode_utf8(b))
}

/// The text form of the digest of encoded bytes.
pub fn encoded_digest(bytes: &[u8]) -> (text: String)
    ensures
        text@ == digest_text(bytes@),
        valid_digest_text(text@),
{
    let digest = sha256_of(bytes);
    let mut text = DIGEST_PREFIX.to_owned();
    let hex = hex_of(&digest);
    text.append(hex.as_str());
    proof {
        lemma_digest_text_is_valid(bytes@, digest@);
    }
    text
}

/// The digest of `bytes` as bare hexadecimal text.
pub fn hex_digest(bytes: &[u8]) -> (text: String)
    ensures
        text@ == hex_text(sha256(bytes@)),
        text@.len() == 64,
{
    let digest = sha256_of(bytes);
    hex_of(&digest)
}

/// `sha256:` followed by 64 lowercase hexadecimal digits.
pub open spec fn valid_digest_text(text: Seq<char>) -> bool {
    let digits = text.skip(DIGEST_PREFIX@.len() as int);
    &&& stands_at(text, DIGEST_PREFIX@, 0)
    &&& digits.len() == 64
    &&& forall|i: int| 0 <= i < digits.len() ==> lower_hex(#[trigger] digits[i])
}

/// Hexadecimal text consists of hexadecimal digits.
pub proof fn lemma_hex_text(bytes: Seq<u8>)
    ensures
        hex_text(bytes).len() == 2 * bytes.len(),
        forall|i: int|
            0 <= i < hex_text(bytes).len() ==> lower_hex(#[trigger] hex_text(bytes)[i]),
{
}

/// Different bytes have different hexadecimal texts.
pub proof fn lemma_hex_text_is_injective(a: Seq<u8>, b: Seq<u8>)
    requires
        hex_text(a) == hex_text(b),
    ensures
        a == b,
{
    assert(hex_text(a).len() == 2 * a.len() && hex_text(b).len() == 2 * b.len());
    assert(a.len() == b.len());
    assert forall|i: int| 0 <= i < a.len() implies a[i] == b[i] by {
        assert((2 * i) / 2 == i && (2 * i) % 2 == 0);
        assert((2 * i + 1) / 2 == i && (2 * i + 1) % 2 == 1);
        assert(hex_text(a)[2 * i] == hex_digit(a[i] as int / 16));
        assert(hex_text(b)[2 * i] == hex_digit(b[i] as int / 16));
        assert(hex_text(a)[2 * i + 1] == hex_digit(a[i] as int % 16));
        assert(hex_text(b)[2 * i + 1] == hex_digit(b[i] as int % 16));
        assert(a[i] as int / 16 == b[i] as int / 16);
        assert(a[i] as int % 16 == b[i] as int % 16);
    }
    assert(a =~= b);
}

/// Digests of different bytes differ in their text where they differ at all.
pub proof fn lemma_digest_texts_differ(a: Seq<u8>, b: Seq<u8>)
    requires
        sha256(a) != sha256(b),
    ensures
        digest_text(a) != digest_text(b),
{
    if digest_text(a) == digest_text(b) {
        let width = DIGEST_PREFIX@.len() as int;
        assert(hex_text(sha256(a)) =~= digest_text(a).skip(width));
        assert(hex_text(sha256(b)) =~= digest_text(b).skip(width));
        lemma_hex_text_is_injective(sha256(a), sha256(b));
    }
}

proof fn lemma_digest_text_is_valid(bytes: Seq<u8>, digest: Seq<u8>)
    requires
        digest == sha256(bytes),
        digest.len() == 32,
    ensures
        valid_digest_text(digest_text(bytes)),
{
    let text = digest_text(bytes);
    let hex = hex_text(digest);
    lemma_hex_text(digest);
    assert(text.subrange(0, DIGEST_PREFIX@.len() as int) =~= DIGEST_PREFIX@);
    assert(text.skip(DIGEST_PREFIX@.len() as int) =~= hex);
}

/// Whether `value` is the text form of a digest.
pub fn valid_digest(value: &str) -> (r: bool)
    ensures
        r == valid_digest_text(value@),
{
    match after_prefix(value, DIGEST_PREFIX) {
        Some(digits) => {
            let chars = chars_of(digits.as_str());
            if chars.len() != 64 {
                return false;
            }
            let mut i: usize = 0;
            while i < chars.len()
                invariant
                    i <= chars@.len(),
                    chars@.len() == 64,
                    chars@ == value@.skip(DIGEST_PREFIX@.len() as int),
                    stands_at(value@, DIGEST_PREFIX@, 0),
                    forall|j: int| 0 <= j < i ==> lower_hex(#[trigger] chars@[j]),
                decreases chars@.len() - i,
            {
                let c = chars[i];
                if !((c >= '0' && c <= '9') || (c >= 'a' && c <= 'f')) {
                    return false;
                }
                i = i + 1;
            }
            true
        },
        None => false,
    }
}

/// The identifier that `prefix` and `input` determine: the prefix, an
/// underscore and the first half of the hexadecimal digest of `input`.
pub open spec fn stable_id_text(prefix: Seq<char>, input: Seq<char>) -> Seq<char> {
    prefix + "_"@ + hex_text(sha256(encode_utf8(input))).take(32)
}

/// The identifier that `prefix` and `input` determine.
pub fn stable_id(prefix: &str, input: &str) -> (id: String)
    ensures
        id@ == stable_id_text(prefix@, input@),
        id@.len() == prefix@.len() + 33,
{
    let hex = hex_digest(input.as_bytes());
    let chars = chars_of(hex.as_str());
    let short = text_between(&chars, 0, 32);
    let mut id = prefix.to_owned();
    id.append("_");
    id.append(short.as_str());
    proof {
        reveal_strlit("_");
        assert(short@ =~= hex@.take(32));
    }
    id
}

} // verus!

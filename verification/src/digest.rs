//! Content digests: SHA-1 over a file's bytes, written as lowercase hex.

use sha1::Digest;
use vstd::prelude::*;

verus! {

/// Number of bytes in a SHA-1 digest.
pub const DIGEST_LEN: usize = 20;

/// Number of characters in the hex form of a SHA-1 digest.
pub const DIGEST_HEX_LEN: usize = 40;

/// SHA-1 is defined for messages shorter than 2^64 bits, that is 2^61 bytes.
pub const DIGEST_INPUT_LIMIT: u64 = 0x2000_0000_0000_0000;

/// The SHA-1 digest of `data`, as the `sha1` crate computes it.
pub uninterp spec fn sha1_of(data: Seq<u8>) -> Seq<u8>;

/// The lowercase hex digit that stands for a value below 16.
pub open spec fn hex_digit(nibble: int) -> char {
    if nibble < 10 {
        ((48 + nibble) as u8) as char
    } else {
        ((87 + nibble) as u8) as char
    }
}

/// Lowercase hex text of a byte string: two digits per byte, high half first.
pub open spec fn hex_lower(bytes: Seq<u8>) -> Seq<char> {
    Seq::new(
        2 * bytes.len(),
        |i: int|
            if i % 2 == 0 {
                hex_digit(bytes[i / 2] as int / 16)
            } else {
                hex_digit(bytes[i / 2] as int % 16)
            },
    )
}

/// Whether `c` is one of `0`..`9`, `a`..`f`.
pub open spec fn is_lower_hex(c: char) -> bool {
    ('0' <= c && c <= '9') || ('a' <= c && c <= 'f')
}

/// Whether a file with content `data` carries the expected digest text.
pub open spec fn content_matches(data: Seq<u8>, expected: Seq<char>) -> bool {
    hex_lower(sha1_of(data)) == expected
}

/// `sha1::Sha1::digest` (the one-shot form of the `Digest` trait): the result
/// is the SHA-1 digest of the input, which always has 20 bytes.
#[verifier::external_body]
fn sha1_digest(data: &[u8]) -> (digest: Vec<u8>)
    requires
        data@.len() < DIGEST_INPUT_LIMIT,
    ensures
        digest@ == sha1_of(data@),
        digest@.len() == DIGEST_LEN,
{
    sha1::Sha1::digest(data).to_vec()
}

/// `hex::encode`: each input byte becomes two lowercase hex digits, the high
/// half first.
#[verifier::external_body]
fn hex_encode(bytes: &[u8]) -> (text: String)
    ensures
        text@ == hex_lower(bytes@),
{
    hex::encode(bytes)
}

/// Writes a digest as lowercase hex.
pub fn encode_digest(digest: &[u8]) -> (text: String)
    ensures
        text@ == hex_lower(digest@),
{
    hex_encode(digest)
}

/// Decides whether a computed digest is the expected one. The expected text is
/// compared as it stands, so only lowercase hex can ever be accepted.
pub fn digest_accepts(digest: &[u8], expected: &String) -> (ok: bool)
    ensures
        ok == (hex_lower(digest@) == expected@),
{
    let text = encode_digest(digest);
    text == *expected
}

/// The hex SHA-1 digest of a file's content.
pub fn content_digest(data: &[u8]) -> (text: String)
    requires
        data@.len() < DIGEST_INPUT_LIMIT,
    ensures
        text@ == hex_lower(sha1_of(data@)),
        text@.len() == DIGEST_HEX_LEN,
{
    let digest = sha1_digest(data);
    encode_digest(digest.as_slice())
}

/// Decides whether a file's content carries the expected digest.
pub fn verify_content(data: &[u8], expected: &String) -> (ok: bool)
    requires
        data@.len() < DIGEST_INPUT_LIMIT,
    ensures
        ok == content_matches(data@, expected@),
{
    let digest = sha1_digest(data);
    digest_accepts(digest.as_slice(), expected)
}

/// Distinct values below 16 have distinct hex digits.
pub proof fn lemma_hex_digit_injective(a: int, b: int)
    requires
        0 <= a < 16,
        0 <= b < 16,
        hex_digit(a) == hex_digit(b),
    ensures
        a == b,
{
}

/// Hex text holds two characters per byte, all of them lowercase hex digits.
pub proof fn lemma_hex_lower_shape(bytes: Seq<u8>)
    ensures
        hex_lower(bytes).len() == 2 * bytes.len(),
        forall|i: int| 0 <= i < hex_lower(bytes).len() ==> is_lower_hex(#[trigger] hex_lower(bytes)[i]),
{
    assert forall|i: int| 0 <= i < hex_lower(bytes).len() implies is_lower_hex(
        #[trigger] hex_lower(bytes)[i],
    ) by {
        let b = bytes[i / 2] as int;
        assert(0 <= b / 16 < 16 && 0 <= b % 16 < 16);
    }
}

/// Two byte strings with the same hex text are the same byte string, so that
/// comparing hex text decides exactly whether the digests are equal.
pub proof fn lemma_hex_lower_injective(a: Seq<u8>, b: Seq<u8>)
    requires
        hex_lower(a) == hex_lower(b),
    ensures
        a == b,
{
    assert(hex_lower(a).len() == 2 * a.len());
    assert(hex_lower(b).len() == 2 * b.len());
    assert forall|i: int| 0 <= i < a.len() implies a[i] == b[i] by {
        let x = a[i] as int;
        let y = b[i] as int;
        assert(hex_lower(a)[2 * i] == hex_digit(x / 16));
        assert(hex_lower(b)[2 * i] == hex_digit(y / 16));
        assert(hex_lower(a)[2 * i + 1] == hex_digit(x % 16));
        assert(hex_lower(b)[2 * i + 1] == hex_digit(y % 16));
        lemma_hex_digit_injective(x / 16, y / 16);
        lemma_hex_digit_injective(x % 16, y % 16);
    }
    assert(a =~= b);
}

/// An expected text that is not 40 lowercase hex digits is the digest of no
/// content at all.
pub proof fn lemma_malformed_digest_never_accepted(digest: Seq<u8>, expected: Seq<char>)
    requires
        digest.len() == DIGEST_LEN,
        expected.len() != DIGEST_HEX_LEN || exists|i: int|
            0 <= i < expected.len() && !is_lower_hex(#[trigger] expected[i]),
    ensures
        hex_lower(digest) != expected,
{
    lemma_hex_lower_shape(digest);
}

} // verus!

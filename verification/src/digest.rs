//! Digests and hexadecimal text.
//!
//! The digests come from the `blake3` and `sha2` crates and the hexadecimal
//! encoding from the `hex` crate; what they compute is named here, not
//! written out.
use vstd::prelude::*;
use sha2::Digest;
use std::hash::BuildHasher;

verus! {

/// The lowercase hexadecimal digit of a value below 16.
pub open spec fn hex_digit(d: u8) -> char {
    if d < 10 {
        (48 + d) as char
    } else {
        (87 + d) as char
    }
}

/// Two lowercase hexadecimal digits for a byte, the high half first.
pub open spec fn hex_byte(b: u8) -> Seq<char> {
    seq![hex_digit(b / 16), hex_digit(b % 16)]
}

/// The lowercase hexadecimal text of a sequence of bytes.
pub open spec fn hex_text(s: Seq<u8>) -> Seq<char>
    decreases s.len(),
{
    if s.len() == 0 {
        Seq::empty()
    } else {
        hex_text(s.drop_last()) + hex_byte(s.last())
    }
}

/// The hexadecimal text of `n` bytes has `2 * n` characters.
pub proof fn lemma_hex_text_len(s: Seq<u8>)
    ensures
        hex_text(s).len() == 2 * s.len(),
    decreases s.len(),
{
    if s.len() > 0 {
        lemma_hex_text_len(s.drop_last());
    }
}

/// The BLAKE3 hash of some bytes.
pub uninterp spec fn blake3_of(data: Seq<u8>) -> Seq<u8>;

/// The SHA-256 digest of some bytes.
pub uninterp spec fn sha256_of(data: Seq<u8>) -> Seq<u8>;

/// The hash of a string by std's `DefaultHasher` (built with fixed keys).
pub uninterp spec fn default_hash_of(s: Seq<char>) -> u64;

/// `hex::encode`: the lowercase hexadecimal text of the bytes, two digits
/// per byte, high half first.
#[verifier::external_body]
pub(crate) fn hex_encode(data: &[u8]) -> (r: String)
    ensures
        r@ == hex_text(data@),
{
    hex::encode(data)
}

/// `blake3::hash` followed by `Hash::to_hex`: the lowercase hexadecimal
/// text of the 32-byte BLAKE3 hash of the bytes.
#[verifier::external_body]
pub(crate) fn blake3_hex(data: &[u8]) -> (r: String)
    ensures
        r@ == hex_text(blake3_of(data@)),
        r@.len() == 64,
{
    blake3::hash(data).to_hex().to_string()
}

/// `sha2::Sha256::digest`: the 32-byte SHA-256 digest of the bytes.
#[verifier::external_body]
pub(crate) fn sha256_digest(data: &[u8]) -> (r: Vec<u8>)
    ensures
        r@ == sha256_of(data@),
        r@.len() == 32,
{
    sha2::Sha256::digest(data).to_vec()
}

/// `BuildHasher::hash_one` with std's `DefaultHasher`: the hash of a string.
#[verifier::external_body]
pub(crate) fn default_hash(s: &str) -> (r: u64)
    ensures
        r == default_hash_of(s@),
{
    std::hash::BuildHasherDefault::<std::collections::hash_map::DefaultHasher>::default().hash_one(s)
}

} // verus!

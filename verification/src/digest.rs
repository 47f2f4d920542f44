//! Checksums of downloaded files: SHA-1 and SHA-256 digests compared, as
//! lower-case hexadecimal, with an expected checksum ignoring ASCII case.

use vstd::prelude::*;
use crate::text::{chars_of, eq_ignore_case};
use sha2::Digest;

verus! {

/// The hexadecimal digit of a nibble, lower case.
pub open spec fn hex_digit(n: int) -> char {
    if n < 10 {
        ((48 + n) as u32) as char
    } else {
        ((87 + n) as u32) as char
    }
}

/// Bytes as lower-case hexadecimal, two digits per byte, high nibble first.
pub open spec fn hex_lower(bytes: Seq<u8>) -> Seq<char>
    decreases bytes.len(),
{
    if bytes.len() == 0 {
        Seq::empty()
    } else {
        hex_lower(bytes.drop_last()).push(hex_digit(bytes.last() as int / 16)).push(hex_digit(bytes.last() as int % 16))
    }
}

/// `hex::encode`: each byte as two lower-case hexadecimal digits, high
/// nibble first.
#[verifier::external_body]
pub(crate) fn hex_encode(data: &[u8]) -> (r: String)
    ensures
        r@ == hex_lower(data@),
{
    hex::encode(data)
}

/// The SHA-1 digest of some bytes.
pub uninterp spec fn sha1_of(data: Seq<u8>) -> Seq<u8>;

/// The SHA-256 digest of some bytes.
pub uninterp spec fn sha256_of(data: Seq<u8>) -> Seq<u8>;

/// The MD5 digest of a text's UTF-8 bytes.
pub uninterp spec fn md5_of_text(text: Seq<char>) -> Seq<u8>;

/// `md5::compute` on the UTF-8 bytes of a text: the 16-byte MD5 digest.
#[verifier::external_body]
pub(crate) fn md5_text(text: &str) -> (r: Vec<u8>)
    ensures
        r@ == md5_of_text(text@),
        r@.len() == 16,
{
    md5::compute(text).0.to_vec()
}

/// `sha1::Sha1::digest`: the 20-byte SHA-1 digest.
#[verifier::external_body]
fn sha1_digest(data: &[u8]) -> (r: Vec<u8>)
    ensures
        r@ == sha1_of(data@),
        r@.len() == 20,
{
    sha1::Sha1::digest(data).to_vec()
}

/// `sha2::Sha256::digest`: the 32-byte SHA-256 digest.
#[verifier::external_body]
fn sha256_digest(data: &[u8]) -> (r: Vec<u8>)
    ensures
        r@ == sha256_of(data@),
        r@.len() == 32,
{
    sha2::Sha256::digest(data).to_vec()
}

/// Whether the SHA-1 of `data` is `expected`, in hexadecimal of any case.
pub fn verify_sha1(data: &[u8], expected: &str) -> (r: bool)
    ensures
        r == eq_ignore_case(hex_lower(sha1_of(data@)), expected@),
{
    let d = sha1_digest(data);
    let h = hex_encode(d.as_slice());
    crate::text::eq_ignore_ascii_case(&chars_of(h.as_str()), &chars_of(expected))
}

/// Whether the SHA-256 of `data` is `expected`, in hexadecimal of any case.
pub fn verify_sha256(data: &[u8], expected: &str) -> (r: bool)
    ensures
        r == eq_ignore_case(hex_lower(sha256_of(data@)), expected@),
{
    let d = sha256_digest(data);
    let h = hex_encode(d.as_slice());
    crate::text::eq_ignore_ascii_case(&chars_of(h.as_str()), &chars_of(expected))
}

/// Hexadecimal encoding has two characters per byte.
pub proof fn law_hex_length(bytes: Seq<u8>)
    ensures
        hex_lower(bytes).len() == 2 * bytes.len(),
    decreases bytes.len(),
{
    if bytes.len() > 0 {
        law_hex_length(bytes.drop_last());
    }
}

} // verus!

//! SHA-256 digests written as lowercase hex, as OCI digests and builder names use them.

use vstd::prelude::*;
use sha2::Digest;

verus! {

/// What SHA-256 gives for a byte string.
pub uninterp spec fn sha256_of(data: Seq<u8>) -> Seq<u8>;

/// `sha2::Sha256::digest` over `data`: the 32-byte SHA-256 digest, a function of `data` alone.
#[verifier::external_body]
pub(crate) fn sha256(data: &[u8]) -> (r: Vec<u8>)
    ensures
        r@ == sha256_of(data@),
        r@.len() == 32,
{
    sha2::Sha256::digest(data).to_vec()
}

/// The lowercase hexadecimal digit for `n` in `0..16`.
pub open spec fn hex_digit(n: int) -> char {
    if n < 10 {
        digit_of(n)
    } else if n == 10 {
        'a'
    } else if n == 11 {
        'b'
    } else if n == 12 {
        'c'
    } else if n == 13 {
        'd'
    } else if n == 14 {
        'e'
    } else {
        'f'
    }
}

pub open spec fn digit_of(n: int) -> char {
    crate::text::digit_char(n)
}

/// Two lowercase hex digits per byte, high nibble first.
pub open spec fn lower_hex(data: Seq<u8>) -> Seq<char> {
    Seq::new(
        2 * data.len(),
        |i: int|
            if i % 2 == 0 {
                hex_digit(data[i / 2] as int / 16)
            } else {
                hex_digit(data[i / 2] as int % 16)
            },
    )
}

/// `hex::encode`: each byte becomes two lowercase hex digits, high nibble first.
#[verifier::external_body]
pub(crate) fn hex_encode(data: &[u8]) -> (r: String)
    ensures
        r@ == lower_hex(data@),
{
    hex::encode(data)
}

/// SHA-256 of `data`, as lowercase hex.
pub open spec fn sha256_hex_of(data: Seq<u8>) -> Seq<char> {
    lower_hex(sha256_of(data))
}

/// The SHA-256 digest of `data` in lowercase hex (64 characters).
pub fn sha256_hex(data: &[u8]) -> (r: String)
    ensures
        r@ == sha256_hex_of(data@),
        r@.len() == 64,
{
    let d = sha256(data);
    hex_encode(d.as_slice())
}

} // verus!

//! Encodings of bytes as text, and the MD5 digest, from their crates.

use vstd::prelude::*;
use base64::Engine;

verus! {

/// The standard Base64 encoding (RFC 4648 alphabet, with `=` padding) of
/// `data`, as `base64`'s `STANDARD` engine writes it.
pub uninterp spec fn base64_standard(data: Seq<u8>) -> Seq<char>;

/// Whether the Base64 text of `len` bytes, 4 characters for every 3 bytes
/// or part of 3, has a length that fits in a `usize`.
pub open spec fn base64_len_fits(len: nat) -> bool {
    4 * ((len + 2) / 3) <= usize::MAX
}

/// Whether the Base64 text of `len` bytes has a length that fits in a
/// `usize`.
pub fn base64_fits(len: usize) -> (r: bool)
    ensures
        r == base64_len_fits(len as nat),
{
    (len / 3 + if len % 3 > 0 { 1 } else { 0 }) <= usize::MAX / 4
}

/// `base64::engine::general_purpose::STANDARD.encode`: the standard Base64
/// text of `data`, named `base64_standard`. The engine panics when the
/// length of that text overflows a `usize`, which `requires` leaves out.
#[verifier::external_body]
pub(crate) fn encode_base64(data: &[u8]) -> (r: String)
    requires
        base64_len_fits(data@.len()),
    ensures
        r@ == base64_standard(data@),
{
    base64::engine::general_purpose::STANDARD.encode(data)
}

/// The MD5 digest of `data`.
pub uninterp spec fn md5_digest(data: Seq<u8>) -> Seq<u8>;

/// `md5::compute`: the digest of `data`, named `md5_digest`; the crate's
/// `Digest` holds 16 bytes.
#[verifier::external_body]
pub(crate) fn md5_compute(data: &[u8]) -> (r: Vec<u8>)
    ensures
        r@ == md5_digest(data@),
        r@.len() == 16,
{
    md5::compute(data).0.to_vec()
}

/// The lowercase hexadecimal digit of `v`, for `v < 16`.
pub open spec fn hex_digit(v: int) -> char {
    if v < 10 {
        (48 + v) as char
    } else {
        (87 + v) as char
    }
}

/// Each byte as two lowercase hexadecimal digits, the high one first.
pub open spec fn spec_hex_lower(data: Seq<u8>) -> Seq<char>
    decreases data.len(),
{
    if data.len() == 0 {
        seq![]
    } else {
        seq![hex_digit(data[0] as int / 16), hex_digit(data[0] as int % 16)] + spec_hex_lower(data.drop_first())
    }
}

/// `hex::encode`: its documentation and source give each byte as two
/// lowercase hexadecimal digits ("0123456789abcdef"), high digit first.
#[verifier::external_body]
pub(crate) fn hex_encode(data: &[u8]) -> (r: String)
    ensures
        r@ == spec_hex_lower(data@),
{
    hex::encode(data)
}

} // verus!

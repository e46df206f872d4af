//! Byte encodings and digests the coordinator uses: hex (the `hex`
//! crate), SHA-256 (the `sha2` crate) and standard Base64 (the `base64`
//! crate).

use vstd::prelude::*;
use vstd::string::StringSliceAdditionalSpecFns;

use base64::Engine;
use sha2::Digest;

verus! {

/// Value of a hex digit (either case), if `c` is one.
pub open spec fn hex_digit_value(c: u8) -> Option<u8> {
    if 48 <= c <= 57 {
        Some((c - 48) as u8)
    } else if 65 <= c <= 70 {
        Some((c - 55) as u8)
    } else if 97 <= c <= 102 {
        Some((c - 87) as u8)
    } else {
        None
    }
}

/// What `hex::decode` gives for the text `s`: `None` when the length is
/// odd or a character is not a hex digit; otherwise one byte per digit
/// pair, high nibble first.
pub open spec fn hex_decoded(s: Seq<u8>) -> Option<Seq<u8>> {
    if s.len() % 2 != 0 || exists|i: int| 0 <= i < s.len() && (#[trigger] hex_digit_value(s[i])) is None {
        None
    } else {
        Some(Seq::new(
            (s.len() / 2) as nat,
            |i: int| (hex_digit_value(s[2 * i])->0 * 16 + hex_digit_value(s[2 * i + 1])->0) as u8,
        ))
    }
}

/// `hex::decode`: the bytes a hex text denotes, `None` when it is not an
/// even-length string of hex digits.
#[verifier::external_body]
pub(crate) fn hex_decode(text: &str) -> (r: Option<Vec<u8>>)
    ensures
        match r {
            Some(v) => hex_decoded(text.spec_bytes()) == Some(v@),
            None => hex_decoded(text.spec_bytes()) is None,
        },
{
    hex::decode(text).ok()
}

/// Lower-case hex digit of a nibble.
pub open spec fn hex_char(v: int) -> char {
    if v < 10 { (48 + v) as char } else { (87 + v) as char }
}

/// What `hex::encode` gives: two lower-case hex digits per byte, high
/// nibble first.
pub open spec fn hex_encoded(data: Seq<u8>) -> Seq<char> {
    Seq::new(
        (2 * data.len()) as nat,
        |i: int| if i % 2 == 0 { hex_char((data[i / 2] / 16) as int) } else { hex_char((data[i / 2] % 16) as int) },
    )
}

/// `hex::encode`: lower-case hex text of a byte string.
#[verifier::external_body]
pub(crate) fn hex_encode(data: &[u8]) -> (r: String)
    ensures
        r@ == hex_encoded(data@),
{
    hex::encode(data)
}

/// The SHA-256 digest (FIPS 180-4) of a byte string.
pub uninterp spec fn sha256_of(data: Seq<u8>) -> Seq<u8>;

/// `sha2::Sha256::digest`: the 32-byte SHA-256 digest of `data`.
#[verifier::external_body]
pub(crate) fn sha256(data: &[u8]) -> (r: [u8; 32])
    ensures
        r@ == sha256_of(data@),
{
    sha2::Sha256::digest(data).into()
}

/// The bytes that the standard (RFC 4648, padded) Base64 engine of the
/// `base64` crate decodes from a text, or `None` when it rejects it.
pub uninterp spec fn base64_decoded(text: Seq<u8>) -> Option<Seq<u8>>;

/// `base64::engine::general_purpose::STANDARD.decode`: decode standard,
/// padded Base64 text.
#[verifier::external_body]
pub(crate) fn base64_decode(text: &[u8]) -> (r: Option<Vec<u8>>)
    ensures
        match r {
            Some(v) => base64_decoded(text@) == Some(v@),
            None => base64_decoded(text@) is None,
        },
{
    base64::engine::general_purpose::STANDARD.decode(text).ok()
}

} // verus!

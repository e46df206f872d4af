//! Textual UUIDs, as request and session identifiers arrive in paths.

use vstd::prelude::*;
use vstd::arithmetic::power2::pow2;

use crate::codec::hex_char;

verus! {

/// The 128-bit value of the UUID that `uuid::Uuid::parse_str` reads from
/// `text` (big-endian, as `Uuid::as_u128` gives it), or `None` when the
/// text is not a UUID in one of the accepted forms.
pub uninterp spec fn uuid_text_value(text: Seq<char>) -> Option<u128>;

/// Parse a textual UUID with `uuid::Uuid::parse_str` (simple, hyphenated,
/// URN or braced form), giving its 128-bit value via `Uuid::as_u128`.
/// The accepted grammar is left to the name `uuid_text_value`.
#[verifier::external_body]
pub(crate) fn parse_uuid(text: &str) -> (r: Option<u128>)
    ensures
        r == uuid_text_value(text@),
{
    match uuid::Uuid::parse_str(text) {
        Ok(u) => Some(u.as_u128()),
        Err(_) => None,
    }
}

/// The nibble of `v` at position `j` (0 to 31), most significant first.
pub open spec fn uuid_nibble(v: u128, j: int) -> int {
    ((v as int) / (pow2((4 * (31 - j)) as nat) as int)) % 16
}

/// Character `i` (0 to 35) of the hyphenated form of `v`: hyphens at
/// positions 8, 13, 18 and 23, lower-case hex digits of the nibbles,
/// most significant first, elsewhere.
pub open spec fn uuid_char(v: u128, i: int) -> char {
    if i == 8 || i == 13 || i == 18 || i == 23 {
        '-'
    } else {
        let j = if i < 8 { i } else if i < 13 { i - 1 } else if i < 18 { i - 2 } else if i < 23 { i - 3 } else { i - 4 };
        hex_char(uuid_nibble(v, j))
    }
}

/// The hyphenated lower-case text of the UUID with 128-bit value `v`
/// (`xxxxxxxx-xxxx-xxxx-xxxx-xxxxxxxxxxxx`).
pub open spec fn uuid_hyphenated(v: u128) -> Seq<char> {
    Seq::new(36, |i: int| uuid_char(v, i))
}

/// Format a UUID value as `uuid::Uuid::from_u128(v).to_string()` does:
/// hyphenated, lower case.
#[verifier::external_body]
pub(crate) fn uuid_text(v: u128) -> (r: String)
    ensures
        r@ == uuid_hyphenated(v),
{
    uuid::Uuid::from_u128(v).to_string()
}

} // verus!

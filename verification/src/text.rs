//! Byte- and text-level helpers shared by the request validators.

use vstd::prelude::*;

verus! {

/// Byte-wise equality of two slices.
pub fn bytes_eq(a: &[u8], b: &[u8]) -> (r: bool)
    ensures
        r == (a@ == b@),
{
    if a.len() != b.len() {
        return false;
    }
    let mut i: usize = 0;
    while i < a.len()
        invariant
            a@.len() == b@.len(),
            i <= a@.len(),
            forall|k: int| 0 <= k < i ==> a@[k] == b@[k],
        decreases a@.len() - i,
    {
        if a[i] != b[i] {
            return false;
        }
        i = i + 1;
    }
    assert(a@ =~= b@);
    true
}

/// Equality of two string slices, decided on their UTF-8 bytes.
pub fn str_eq(a: &str, b: &str) -> (r: bool)
    ensures
        r == (a@ == b@),
{
    let r = bytes_eq(a.as_bytes(), b.as_bytes());
    proof {
        vstd::utf8::encode_utf8_decode_utf8(a@);
        vstd::utf8::encode_utf8_decode_utf8(b@);
    }
    r
}

/// A character with the Unicode `White_Space` property (Unicode
/// Character Database, PropList.txt).
pub open spec fn is_white_space(c: char) -> bool {
    let u = c as u32;
    ||| 0x09 <= u <= 0x0d
    ||| u == 0x20
    ||| u == 0x85
    ||| u == 0xa0
    ||| u == 0x1680
    ||| 0x2000 <= u <= 0x200a
    ||| u == 0x2028
    ||| u == 0x2029
    ||| u == 0x202f
    ||| u == 0x205f
    ||| u == 0x3000
}

/// `s` without its leading white space.
pub open spec fn trim_start(s: Seq<char>) -> Seq<char>
    decreases s.len(),
{
    if s.len() > 0 && is_white_space(s[0]) { trim_start(s.drop_first()) } else { s }
}

/// `s` without its trailing white space.
pub open spec fn trim_end(s: Seq<char>) -> Seq<char>
    decreases s.len(),
{
    if s.len() > 0 && is_white_space(s.last()) { trim_end(s.drop_last()) } else { s }
}

/// `s` without leading and trailing white space.
pub open spec fn trimmed(s: Seq<char>) -> Seq<char> {
    trim_end(trim_start(s))
}

/// `str::trim`: the slice of `s` without leading and trailing white
/// space, white space being the characters `char::is_whitespace`
/// accepts (the Unicode `White_Space` property).
#[verifier::external_body]
pub(crate) fn trim_text(s: &str) -> (r: &str)
    ensures
        r@ == trimmed(s@),
{
    s.trim()
}

/// `str::strip_prefix` with a text prefix: the rest of `s` after
/// `prefix`, when `s` starts with it.
#[verifier::external_body]
pub(crate) fn strip_text_prefix<'a>(s: &'a str, prefix: &str) -> (r: Option<&'a str>)
    ensures
        r is Some <==> (prefix@.len() <= s@.len() && s@.subrange(0, prefix@.len() as int) == prefix@),
        r matches Some(t) ==> t@ == s@.skip(prefix@.len() as int),
{
    s.strip_prefix(prefix)
}

/// Whether `needle` occurs in `hay` at position `at`.
pub open spec fn occurs_at(hay: Seq<u8>, needle: Seq<u8>, at: int) -> bool {
    0 <= at && at + needle.len() <= hay.len() && hay.subrange(at, at + needle.len()) == needle
}

/// Whether `needle` occurs anywhere in `hay`.
pub open spec fn has_substring(hay: Seq<u8>, needle: Seq<u8>) -> bool {
    exists|at: int| occurs_at(hay, needle, at)
}

/// Whether the byte string `needle` occurs in `hay`.
pub fn contains_bytes(hay: &[u8], needle: &[u8]) -> (r: bool)
    ensures
        r == has_substring(hay@, needle@),
{
    let hl: usize = hay.len();
    let mut at: usize = 0;
    while at <= hl && needle.len() <= hl - at
        invariant
            hl == hay@.len(),
            at <= hay@.len() + 1,
            forall|k: int| 0 <= k < at ==> !occurs_at(hay@, needle@, k),
            at > hay@.len() ==> hay@.len() < needle@.len() + at,
        decreases hay@.len() + 1 - at,
    {
        let mut j: usize = 0;
        let mut matched = true;
        while j < needle.len()
            invariant
                hl == hay@.len(),
                at + needle@.len() <= hl,
                j <= needle@.len(),
                matched ==> forall|m: int| 0 <= m < j ==> hay@[at + m] == needle@[m],
                !matched ==> exists|m: int| 0 <= m < needle@.len() && hay@[at + m] != needle@[m],
            decreases needle@.len() - j,
        {
            if hay[at + j] != needle[j] {
                matched = false;
            }
            j = j + 1;
        }
        if matched {
            proof {
                assert(hay@.subrange(at as int, at + needle@.len()) =~= needle@);
                assert(occurs_at(hay@, needle@, at as int));
            }
            return true;
        }
        proof {
            let m = choose|m: int| 0 <= m < needle@.len() && hay@[at + m] != needle@[m];
            if occurs_at(hay@, needle@, at as int) {
                assert(hay@.subrange(at as int, at + needle@.len())[m] == hay@[at + m]);
            }
        }
        at = at + 1;
    }
    proof {
        assert forall|k: int| !occurs_at(hay@, needle@, k) by {
            if 0 <= k && k < at {
            }
        }
    }
    false
}

/// `b` with ASCII upper-case letters mapped to lower case.
pub open spec fn ascii_lower(b: u8) -> u8 {
    if 65 <= b <= 90 { (b + 32) as u8 } else { b }
}

/// `s` with every ASCII upper-case letter mapped to lower case.
pub open spec fn ascii_lowered(s: Seq<u8>) -> Seq<u8> {
    s.map_values(|b: u8| ascii_lower(b))
}

/// Lower-casing twice is lower-casing once, so comparing a text
/// case-insensitively is the same as comparing its lower-cased form.
pub proof fn lemma_eq_lowercased_of_lowered(s: Seq<u8>, lower: Seq<u8>)
    ensures
        eq_ascii_lowercased(s, lower) == eq_ascii_lowercased(ascii_lowered(s), lower),
{
    let t = ascii_lowered(s);
    assert forall|i: int| 0 <= i < s.len() implies ascii_lower(#[trigger] t[i]) == ascii_lower(s[i]) by {
        assert(t[i] == ascii_lower(s[i]));
    }
    if eq_ascii_lowercased(s, lower) {
        assert forall|i: int| 0 <= i < t.len() implies ascii_lower(#[trigger] t[i]) == lower[i] by {
            assert(ascii_lower(s[i]) == lower[i]);
        }
    }
    if eq_ascii_lowercased(t, lower) {
        assert forall|i: int| 0 <= i < s.len() implies ascii_lower(#[trigger] s[i]) == lower[i] by {
            assert(ascii_lower(t[i]) == lower[i]);
        }
    }
}

/// Whether `s`, ASCII-lower-cased, equals `lower`.
pub open spec fn eq_ascii_lowercased(s: Seq<u8>, lower: Seq<u8>) -> bool {
    s.len() == lower.len() && forall|i: int| 0 <= i < s.len() ==> ascii_lower(#[trigger] s[i]) == lower[i]
}

/// Whether `s`, ASCII-lower-cased, equals `lower`.
pub fn eq_lowercased(s: &[u8], lower: &[u8]) -> (r: bool)
    ensures
        r == eq_ascii_lowercased(s@, lower@),
{
    if s.len() != lower.len() {
        return false;
    }
    let mut i: usize = 0;
    while i < s.len()
        invariant
            s@.len() == lower@.len(),
            i <= s@.len(),
            forall|k: int| 0 <= k < i ==> ascii_lower(#[trigger] s@[k]) == lower@[k],
        decreases s@.len() - i,
    {
        let b = s[i];
        let l: u8 = if 65 <= b && b <= 90 { b + 32 } else { b };
        if l != lower[i] {
            return false;
        }
        i = i + 1;
    }
    true
}

/// `str::split_once` at a comma: the text before the first comma and
/// the text after it, when the text holds one.
#[verifier::external_body]
pub(crate) fn split_once_comma(s: &str) -> (r: Option<(&str, &str)>)
    ensures
        r is None <==> !s@.contains(','),
        r matches Some((a, b)) ==> s@ == a@ + seq![','] + b@ && !a@.contains(','),
{
    s.split_once(',')
}

} // verus!

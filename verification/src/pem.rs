//! Fingerprint of an operator-supplied PEM certificate: the SHA-256 hex
//! digest of the DER bytes of its first certificate block.

use vstd::prelude::*;
use vstd::string::StringSliceAdditionalSpecFns;

use crate::codec::{base64_decode, base64_decoded, hex_encode, hex_encoded, sha256, sha256_of};

verus! {

/// A line without the carriage return that ended it, if any.
pub open spec fn strip_cr(line: Seq<u8>) -> Seq<u8> {
    if line.len() > 0 && line.last() == 13 { line.drop_last() } else { line }
}

/// The lines of `rest`, the current partial line being `cur`: split at
/// `\n`, with a `\r` right before a `\n` dropped, and a final line
/// without a terminator kept as it is (as `str::lines` splits).
pub open spec fn lines_from(rest: Seq<u8>, cur: Seq<u8>) -> Seq<Seq<u8>>
    decreases rest.len(),
{
    if rest.len() == 0 {
        if cur.len() == 0 { Seq::empty() } else { seq![cur] }
    } else if rest[0] == 10 {
        seq![strip_cr(cur)] + lines_from(rest.drop_first(), Seq::empty())
    } else {
        lines_from(rest.drop_first(), cur.push(rest[0]))
    }
}

/// The lines of a text, given by its bytes.
pub open spec fn text_lines(text: Seq<u8>) -> Seq<Seq<u8>> {
    lines_from(text, Seq::empty())
}

/// `line` starts with `prefix`.
pub open spec fn starts_with(line: Seq<u8>, prefix: Seq<u8>) -> bool {
    prefix.len() <= line.len() && line.take(prefix.len() as int) == prefix
}

/// The lines after the first one that opens a certificate block.
pub open spec fn after_begin(lines: Seq<Seq<u8>>) -> Seq<Seq<u8>>
    decreases lines.len(),
{
    if lines.len() == 0 {
        lines
    } else if starts_with(lines[0], "-----BEGIN CERTIFICATE-----".spec_bytes()) {
        lines.drop_first()
    } else {
        after_begin(lines.drop_first())
    }
}

/// The lines before the first one that closes a certificate block,
/// joined.
pub open spec fn until_end(lines: Seq<Seq<u8>>) -> Seq<u8>
    decreases lines.len(),
{
    if lines.len() == 0 || starts_with(lines[0], "-----END CERTIFICATE-----".spec_bytes()) {
        Seq::empty()
    } else {
        lines[0] + until_end(lines.drop_first())
    }
}

/// The Base64 body of the first certificate block of a PEM text.
pub open spec fn pem_body(text: Seq<u8>) -> Seq<u8> {
    until_end(after_begin(text_lines(text)))
}

/// Values of a sequence of byte vectors.
pub open spec fn byte_lines(v: Seq<Vec<u8>>) -> Seq<Seq<u8>> {
    v.map_values(|l: Vec<u8>| l@)
}

/// `std::str::from_utf8` succeeds: the bytes are well-formed UTF-8.
#[verifier::external_body]
fn is_utf8(bytes: &[u8]) -> (r: bool)
    ensures
        r == vstd::utf8::valid_utf8(bytes@),
{
    std::str::from_utf8(bytes).is_ok()
}

/// Whether `line` starts with `prefix`.
fn starts_with_bytes(line: &[u8], prefix: &[u8]) -> (r: bool)
    ensures
        r == starts_with(line@, prefix@),
{
    if prefix.len() > line.len() {
        return false;
    }
    let mut i: usize = 0;
    while i < prefix.len()
        invariant
            prefix@.len() <= line@.len(),
            i <= prefix@.len(),
            forall|k: int| 0 <= k < i ==> line@[k] == prefix@[k],
        decreases prefix@.len() - i,
    {
        if line[i] != prefix[i] {
            proof {
                assert(line@.take(prefix@.len() as int)[i as int] == line@[i as int]);
            }
            return false;
        }
        i = i + 1;
    }
    proof {
        assert(line@.take(prefix@.len() as int) =~= prefix@);
    }
    true
}

/// Split a text, given by its bytes, into lines.
fn split_lines(text: &[u8]) -> (r: Vec<Vec<u8>>)
    ensures
        byte_lines(r@) == text_lines(text@),
{
    let mut done: Vec<Vec<u8>> = Vec::new();
    let mut cur: Vec<u8> = Vec::new();
    let mut i: usize = 0;
    proof {
        assert(text@.skip(0) =~= text@);
        assert(byte_lines(done@) =~= Seq::<Seq<u8>>::empty());
        assert(text_lines(text@) =~= byte_lines(done@) + lines_from(text@.skip(0), cur@));
    }
    while i < text.len()
        invariant
            i <= text@.len(),
            text_lines(text@) == byte_lines(done@) + lines_from(text@.skip(i as int), cur@),
        decreases text@.len() - i,
    {
        let b = text[i];
        let ghost rest = text@.skip(i as int);
        let ghost c = cur@;
        let ghost before = byte_lines(done@);
        proof {
            assert(rest[0] == b);
            assert(rest.drop_first() =~= text@.skip(i + 1));
        }
        if b == 10 {
            let mut line = cur;
            if line.len() > 0 && line[line.len() - 1] == 13 {
                line.pop();
                proof {
                    assert(line@ =~= c.drop_last());
                }
            }
            done.push(line);
            cur = Vec::new();
            proof {
                assert(line@ == strip_cr(c));
                assert(byte_lines(done@) =~= before.push(strip_cr(c)));
                assert(lines_from(rest, c) == seq![strip_cr(c)] + lines_from(text@.skip(i + 1), Seq::empty()));
                assert(before + (seq![strip_cr(c)] + lines_from(text@.skip(i + 1), Seq::empty()))
                    =~= before.push(strip_cr(c)) + lines_from(text@.skip(i + 1), Seq::empty()));
                assert(cur@ =~= Seq::<u8>::empty());
            }
        } else {
            cur.push(b);
            proof {
                assert(lines_from(rest, c) == lines_from(text@.skip(i + 1), c.push(b)));
            }
        }
        i = i + 1;
    }
    proof {
        assert(text@.skip(i as int) =~= Seq::<u8>::empty());
    }
    if cur.len() > 0 {
        let ghost before = byte_lines(done@);
        let ghost c = cur@;
        done.push(cur);
        proof {
            assert(byte_lines(done@) =~= before + seq![c]);
        }
    } else {
        proof {
            assert(byte_lines(done@) + Seq::<Seq<u8>>::empty() =~= byte_lines(done@));
        }
    }
    done
}

/// The Base64 body of the first certificate block of a PEM text.
fn certificate_body(text: &[u8]) -> (r: Vec<u8>)
    ensures
        r@ == pem_body(text@),
{
    let lines = split_lines(text);
    let begin = "-----BEGIN CERTIFICATE-----".as_bytes();
    let end = "-----END CERTIFICATE-----".as_bytes();
    let ghost all = byte_lines(lines@);
    let mut k: usize = 0;
    let mut found = false;
    proof {
        assert(all.skip(0) =~= all);
    }
    while k < lines.len() && !found
        invariant
            k <= lines@.len(),
            all == byte_lines(lines@),
            begin@ == "-----BEGIN CERTIFICATE-----".spec_bytes(),
            !found ==> after_begin(all) == after_begin(all.skip(k as int)),
            found ==> k >= 1 && after_begin(all) == all.skip(k as int),
        decreases lines@.len() - k + if found { 0int } else { 1int },
    {
        let ghost tail = all.skip(k as int);
        proof {
            assert(tail[0] == lines@[k as int]@);
            assert(tail.drop_first() =~= all.skip(k + 1));
        }
        if starts_with_bytes(lines[k].as_slice(), begin) {
            found = true;
        }
        k = k + 1;
    }
    let ghost body_lines = after_begin(all);
    proof {
        if !found {
            assert(all.skip(k as int) =~= Seq::<Seq<u8>>::empty());
            assert(body_lines =~= Seq::<Seq<u8>>::empty());
            assert(all.skip(lines@.len() as int) =~= Seq::<Seq<u8>>::empty());
        }
    }
    let mut body: Vec<u8> = Vec::new();
    if found {
        let mut j: usize = k;
        let mut stop = false;
        proof {
            assert(body@ + until_end(all.skip(j as int)) =~= until_end(body_lines));
        }
        while j < lines.len() && !stop
            invariant
                k <= j <= lines@.len(),
                all == byte_lines(lines@),
                end@ == "-----END CERTIFICATE-----".spec_bytes(),
                !stop ==> body@ + until_end(all.skip(j as int)) == until_end(body_lines),
                stop ==> body@ == until_end(body_lines),
            decreases lines@.len() - j + if stop { 0int } else { 1int },
        {
            let ghost tail = all.skip(j as int);
            proof {
                assert(tail[0] == lines@[j as int]@);
                assert(tail.drop_first() =~= all.skip(j + 1));
            }
            if starts_with_bytes(lines[j].as_slice(), end) {
                stop = true;
                proof {
                    assert(body@ + Seq::<u8>::empty() =~= body@);
                }
            } else {
                let ghost b0 = body@;
                let mut m: usize = 0;
                while m < lines[j].len()
                    invariant
                        j < lines@.len(),
                        m <= lines@[j as int]@.len(),
                        body@ == b0 + lines@[j as int]@.take(m as int),
                    decreases lines@[j as int]@.len() - m,
                {
                    body.push(lines[j][m]);
                    proof {
                        assert(body@ =~= b0 + lines@[j as int]@.take(m + 1));
                    }
                    m = m + 1;
                }
                proof {
                    assert(lines@[j as int]@.take(m as int) =~= lines@[j as int]@);
                    assert(b0 + (lines@[j as int]@ + until_end(all.skip(j + 1)))
                        =~= body@ + until_end(all.skip(j + 1)));
                }
            }
            j = j + 1;
        }
        proof {
            if !stop {
                assert(all.skip(j as int) =~= Seq::<Seq<u8>>::empty());
                assert(body@ + Seq::<u8>::empty() =~= body@);
            }
        }
    }
    body
}

/// The fingerprint of the first certificate in a PEM text: `None` when
/// the text is not UTF-8 or the block's body is not valid Base64.
pub open spec fn pem_fingerprint(pem: Seq<u8>) -> Option<Seq<char>> {
    if !vstd::utf8::valid_utf8(pem) {
        None
    } else {
        match base64_decoded(pem_body(pem)) {
            None => None,
            Some(der) => Some(hex_encoded(sha256_of(der))),
        }
    }
}

/// SHA-256 hex fingerprint of the first DER certificate of a PEM text.
pub fn cert_fingerprint_from_pem(pem: &[u8]) -> (r: Option<String>)
    ensures
        match r {
            Some(f) => pem_fingerprint(pem@) == Some(f@),
            None => pem_fingerprint(pem@) is None,
        },
{
    if !is_utf8(pem) {
        return None;
    }
    let body = certificate_body(pem);
    let der = match base64_decode(body.as_slice()) {
        Some(d) => d,
        None => return None,
    };
    let digest = sha256(der.as_slice());
    Some(hex_encode(&digest))
}

} // verus!

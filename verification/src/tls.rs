//! The coordinator's TLS certificate when the operator supplies none: a
//! self-signed one (the `rcgen` crate) issued for `localhost` and the IP
//! addresses of the comma-separated `PINAIVU_TLS_SAN_IPS` setting, and
//! its SHA-256 fingerprint.

use vstd::prelude::*;

use crate::codec::{hex_encode, hex_encoded, sha256, sha256_of};
use crate::text::split_once_comma;
use crate::types::texts;
use vstd::utf8::is_ascii_chars;

verus! {

/// A one-field list holding `f`, or nothing when `f` is empty.
pub open spec fn kept(f: Seq<char>) -> Seq<Seq<char>> {
    if f.len() == 0 { Seq::empty() } else { seq![f] }
}

/// The non-empty comma-separated fields of `rest`, `cur` being the part
/// of the current field read so far.
pub open spec fn fields_from(rest: Seq<char>, cur: Seq<char>) -> Seq<Seq<char>>
    decreases rest.len(),
{
    if rest.len() == 0 {
        kept(cur)
    } else if rest[0] == ',' {
        kept(cur) + fields_from(rest.drop_first(), Seq::empty())
    } else {
        fields_from(rest.drop_first(), cur.push(rest[0]))
    }
}

/// The non-empty comma-separated fields of a text, in order.
pub open spec fn comma_fields(raw: Seq<char>) -> Seq<Seq<char>> {
    fields_from(raw, Seq::empty())
}

/// A text without commas ends the current field.
proof fn lemma_fields_no_comma(a: Seq<char>, cur: Seq<char>)
    requires
        !a.contains(','),
    ensures
        fields_from(a, cur) == kept(cur + a),
    decreases a.len(),
{
    if a.len() == 0 {
        assert(cur + a =~= cur);
    } else {
        assert(a[0] != ',') by {
            assert(a.contains(a[0]) || a[0] != ',');
        }
        let rest = a.drop_first();
        assert(!rest.contains(',')) by {
            if rest.contains(',') {
                let k = choose|k: int| 0 <= k < rest.len() && rest[k] == ',';
                assert(a[k + 1] == ',');
            }
        }
        lemma_fields_no_comma(rest, cur.push(a[0]));
        assert(cur.push(a[0]) + rest =~= cur + a);
    }
}

/// A comma after a comma-free text `a` closes the field `cur + a`.
proof fn lemma_fields_split(a: Seq<char>, b: Seq<char>, cur: Seq<char>)
    requires
        !a.contains(','),
    ensures
        fields_from(a + seq![','] + b, cur) == kept(cur + a) + fields_from(b, Seq::empty()),
    decreases a.len(),
{
    let whole = a + seq![','] + b;
    if a.len() == 0 {
        assert(whole[0] == ',');
        assert(whole.drop_first() =~= b);
        assert(cur + a =~= cur);
    } else {
        assert(a[0] != ',') by {
            assert(a.contains(a[0]) || a[0] != ',');
        }
        let rest = a.drop_first();
        assert(!rest.contains(',')) by {
            if rest.contains(',') {
                let k = choose|k: int| 0 <= k < rest.len() && rest[k] == ',';
                assert(a[k + 1] == ',');
            }
        }
        assert(whole[0] == a[0]);
        assert(whole.drop_first() =~= rest + seq![','] + b);
        lemma_fields_split(rest, b, cur.push(a[0]));
        assert(cur.push(a[0]) + rest =~= cur + a);
    }
}

/// The extra IP addresses of the comma-separated `PINAIVU_TLS_SAN_IPS`
/// setting: its non-empty fields, in order.
pub fn san_ips_from(raw: &str) -> (r: Vec<String>)
    ensures
        texts(r@) == comma_fields(raw@),
{
    let mut out: Vec<String> = Vec::new();
    let mut rest: &str = raw;
    proof {
        assert(texts(out@) + fields_from(rest@, Seq::empty()) =~= comma_fields(raw@));
    }
    loop
        invariant
            texts(out@) + fields_from(rest@, Seq::empty()) == comma_fields(raw@),
        decreases rest@.len(),
    {
        let ghost before = texts(out@);
        match split_once_comma(rest) {
            Some((a, b)) => {
                proof {
                    lemma_fields_split(a@, b@, Seq::empty());
                    assert(Seq::<char>::empty() + a@ =~= a@);
                }
                if !a.is_empty() {
                    out.push(a.to_owned());
                    proof {
                        assert(texts(out@) =~= before + seq![a@]);
                        assert(kept(a@) == seq![a@]);
                    }
                } else {
                    proof {
                        assert(kept(a@) =~= Seq::<Seq<char>>::empty());
                    }
                }
                proof {
                    assert(texts(out@) + fields_from(b@, Seq::empty())
                        =~= before + (kept(a@) + fields_from(b@, Seq::empty())));
                    assert(rest@.len() == a@.len() + 1 + b@.len());
                }
                rest = b;
            },
            None => {
                proof {
                    lemma_fields_no_comma(rest@, Seq::empty());
                    assert(Seq::<char>::empty() + rest@ =~= rest@);
                }
                if !rest.is_empty() {
                    out.push(rest.to_owned());
                    proof {
                        assert(texts(out@) =~= before + seq![rest@]);
                    }
                } else {
                    proof {
                        assert(before + kept(rest@) =~= before);
                    }
                }
                return out;
            },
        }
    }
}

/// The names of a self-signed certificate: `localhost`, then the extra
/// IP addresses in their order.
pub fn self_signed_sans(san_ips: &Vec<String>) -> (r: Vec<String>)
    ensures
        texts(r@) == seq!["localhost"@] + texts(san_ips@),
{
    let mut r: Vec<String> = Vec::new();
    r.push("localhost".to_owned());
    let mut i: usize = 0;
    while i < san_ips.len()
        invariant
            i <= san_ips@.len(),
            r@.len() == i + 1,
            r@[0]@ == "localhost"@,
            forall|k: int| 0 <= k < i ==> (#[trigger] r@[k + 1])@ == san_ips@[k]@,
        decreases san_ips@.len() - i,
    {
        r.push(san_ips[i].clone());
        i = i + 1;
    }
    proof {
        assert forall|k: int| 0 <= k < r@.len() implies
            #[trigger] texts(r@)[k] == (seq!["localhost"@] + texts(san_ips@))[k] by {
            if k > 0 {
                assert(r@[(k - 1) + 1] == r@[k]);
            }
        }
        assert(texts(r@) =~= seq!["localhost"@] + texts(san_ips@));
    }
    r
}

/// `rcgen::Error`, why certificate generation failed.
#[verifier::external_type_specification]
#[verifier::external_body]
pub struct ExRcgenError(rcgen::Error);

/// `rcgen::generate_simple_self_signed`: a fresh random key pair and a
/// certificate for `sans` signed with it, handed back as the
/// certificate's PEM text, the key pair's PEM text (`serialize_pem`) and
/// the certificate's DER bytes. The key is random, so nothing is
/// promised of the three values. A name that is neither an IP address
/// nor ASCII (an `Ia5String`) is refused with the crate's error.
#[verifier::external_body]
fn generate_simple_self_signed(sans: Vec<String>) -> (r: Result<(String, String, Vec<u8>), rcgen::Error>)
    ensures
        (exists|i: int| 0 <= i < sans@.len() && !is_ascii_chars(#[trigger] sans@[i]@)) ==> r is Err,
{
    match rcgen::generate_simple_self_signed(sans) {
        Ok(ck) => Ok((ck.cert.pem(), ck.key_pair.serialize_pem(), ck.cert.der().to_vec())),
        Err(e) => Err(e),
    }
}

/// Why no self-signed certificate could be made.
#[derive(Clone, Copy, PartialEq, Eq, Structural, Debug)]
pub enum TlsError {
    /// `rcgen` refused a name or failed to sign.
    Generation,
}

/// A self-signed certificate, its key and its fingerprint.
pub struct SelfSignedTls {
    pub cert_pem: String,
    pub key_pem: String,
    pub cert_der: Vec<u8>,
    /// Lower-case hex SHA-256 digest of `cert_der`.
    pub fingerprint: String,
}

/// What a certificate freshly issued by `rcgen` gives: its PEM text, its
/// key's PEM text and its DER bytes as handed back, with the DER's
/// SHA-256 hex fingerprint; or `Generation` when `rcgen` refused.
pub fn tls_from_generated(generated: Result<(String, String, Vec<u8>), rcgen::Error>) -> (r: Result<SelfSignedTls, TlsError>)
    ensures
        match generated {
            Ok((c, k, d)) => r matches Ok(t) && t.cert_pem@ == c@ && t.key_pem@ == k@ && t.cert_der@ == d@
                && t.fingerprint@ == hex_encoded(sha256_of(d@)),
            Err(_) => r == Err::<SelfSignedTls, TlsError>(TlsError::Generation),
        },
{
    match generated {
        Ok((cert_pem, key_pem, cert_der)) => {
            let digest = sha256(cert_der.as_slice());
            let fingerprint = hex_encode(&digest);
            Ok(SelfSignedTls { cert_pem, key_pem, cert_der, fingerprint })
        },
        Err(_) => Err(TlsError::Generation),
    }
}

/// Issue a self-signed certificate for `localhost` and `san_ips`, and
/// fingerprint it: the SHA-256 hex digest of its DER bytes. A non-ASCII
/// name is refused.
pub fn generate_self_signed_tls(san_ips: &Vec<String>) -> (r: Result<SelfSignedTls, TlsError>)
    ensures
        r matches Ok(t) ==> t.fingerprint@ == hex_encoded(sha256_of(t.cert_der@)),
        (exists|i: int| 0 <= i < san_ips@.len() && !is_ascii_chars(#[trigger] san_ips@[i]@)) ==> r is Err,
{
    let sans = self_signed_sans(san_ips);
    proof {
        if exists|i: int| 0 <= i < san_ips@.len() && !is_ascii_chars(#[trigger] san_ips@[i]@) {
            let i = choose|i: int| 0 <= i < san_ips@.len() && !is_ascii_chars(#[trigger] san_ips@[i]@);
            assert(texts(sans@).len() == sans@.len());
            assert(sans@.len() == san_ips@.len() + 1);
            assert(texts(sans@)[i + 1] == san_ips@[i]@);
            assert(sans@[i + 1]@ == texts(sans@)[i + 1]);
            assert(!is_ascii_chars(sans@[i + 1]@));
        }
    }
    tls_from_generated(generate_simple_self_signed(sans))
}

} // verus!

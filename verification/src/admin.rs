//! Privileged endpoints used by the deploy host, authenticated with the
//! shared sidecar secret, and the rows they report.

use vstd::prelude::*;

use crate::ids::{parse_uuid, uuid_text_value};
use crate::onchain::RegisteredEnclave;
use crate::text::{str_eq, trim_text, trimmed};

verus! {

/// Constant-time equality of two byte strings: every byte pair is
/// examined whatever the earlier bytes were.
pub fn constant_time_eq(a: &[u8], b: &[u8]) -> (r: bool)
    ensures
        r == (a@ == b@),
{
    if a.len() != b.len() {
        return false;
    }
    let mut diff: u8 = 0;
    let mut i: usize = 0;
    while i < a.len()
        invariant
            a@.len() == b@.len(),
            i <= a@.len(),
            (diff == 0) == (forall|k: int| 0 <= k < i ==> a@[k] == b@[k]),
        decreases a@.len() - i,
    {
        let x = a[i];
        let y = b[i];
        let d = diff | (x ^ y);
        proof {
            assert((diff | (x ^ y)) == 0u8 <==> (diff == 0u8 && x == y)) by (bit_vector);
            if d == 0 {
                assert forall|k: int| 0 <= k < i + 1 implies a@[k] == b@[k] by {}
            }
        }
        diff = d;
        i = i + 1;
    }
    proof {
        if diff == 0 {
            assert(a@ =~= b@);
        }
    }
    diff == 0
}

/// Why an admin request was refused.
#[derive(Clone, Copy, PartialEq, Eq, Structural, Debug)]
pub enum AdminAuthError {
    /// The coordinator has no admin secret configured (HTTP 503).
    NotConfigured,
    /// The request's `X-Sidecar-Secret` is missing or wrong (HTTP 401).
    BadSecret,
}

/// The outcome of checking an admin request: the configured secret
/// (trimmed) when it is non-empty and the supplied one (trimmed, empty
/// when absent) equals it; a blank configured secret admits nobody.
pub open spec fn secret_check(configured: Option<Seq<char>>, supplied: Option<Seq<char>>) -> Result<Seq<char>, AdminAuthError> {
    match configured {
        None => Err(AdminAuthError::NotConfigured),
        Some(raw) => {
            let s = match supplied { Some(h) => trimmed(h), None => trimmed(Seq::empty()) };
            if trimmed(raw).len() > 0 && s == trimmed(raw) { Ok(trimmed(raw)) } else { Err(AdminAuthError::BadSecret) }
        },
    }
}

/// Law: an admin request is admitted only with a configured secret that
/// is non-empty once trimmed and equals the trimmed header; a blank
/// secret admits nobody, whatever is sent.
pub proof fn law_admin_needs_nonblank_secret(configured: Option<Seq<char>>, supplied: Option<Seq<char>>)
    ensures
        secret_check(configured, supplied) is Ok ==> (configured matches Some(raw) && trimmed(raw).len() > 0
            && secret_check(configured, supplied) == Ok::<Seq<char>, AdminAuthError>(trimmed(raw))),
        (configured matches Some(raw) && trimmed(raw).len() == 0) ==> secret_check(configured, supplied)
            == Err::<Seq<char>, AdminAuthError>(AdminAuthError::BadSecret),
{
}

/// Check the shared secret of an admin request. `configured` is the
/// `SIDECAR_SECRET` setting, `supplied` the request's `X-Sidecar-Secret`
/// header (when present and readable as text). Both are trimmed; a
/// blank configured secret refuses every request; the comparison runs
/// in constant time.
pub fn check_secret(configured: Option<&str>, supplied: Option<&str>) -> (r: Result<String, AdminAuthError>)
    ensures
        match r {
            Ok(s) => secret_check(
                match configured { Some(c) => Some(c@), None => None },
                match supplied { Some(h) => Some(h@), None => None },
            ) == Ok::<Seq<char>, AdminAuthError>(s@),
            Err(e) => secret_check(
                match configured { Some(c) => Some(c@), None => None },
                match supplied { Some(h) => Some(h@), None => None },
            ) == Err::<Seq<char>, AdminAuthError>(e),
        },
{
    let raw = match configured {
        Some(c) => c,
        None => return Err(AdminAuthError::NotConfigured),
    };
    let expected = trim_text(raw);
    let header = match supplied {
        Some(h) => h,
        None => "",
    };
    proof {
        if supplied is None {
            reveal_strlit("");
            assert(""@ =~= Seq::<char>::empty());
        }
    }
    if expected.is_empty() {
        return Err(AdminAuthError::BadSecret);
    }
    let given = trim_text(header);
    let same = given.as_bytes().len() == expected.as_bytes().len()
        && constant_time_eq(given.as_bytes(), expected.as_bytes());
    proof {
        vstd::utf8::encode_utf8_decode_utf8(given@);
        vstd::utf8::encode_utf8_decode_utf8(expected@);
    }
    if !same {
        return Err(AdminAuthError::BadSecret);
    }
    Ok(expected.to_string())
}

/// Why a key-management request was refused.
#[derive(Clone, Copy, PartialEq, Eq, Structural, Debug)]
pub enum KeyAdminError {
    /// No admin secret is configured (HTTP 500).
    NotConfigured,
    /// The supplied secret is missing or wrong (HTTP 401).
    Unauthorized,
}

/// Check the admin secret of a key-management request: the configured
/// secret (empty when unset) must be non-empty, and the supplied
/// `x-sidecar-secret` header (empty when absent) must equal it exactly.
pub fn verify_admin(configured: Option<&str>, supplied: Option<&str>) -> (r: Result<(), KeyAdminError>)
    ensures
        r == (match configured {
            None => Err(KeyAdminError::NotConfigured),
            Some(c) => if c@.len() == 0 {
                Err(KeyAdminError::NotConfigured)
            } else if supplied matches Some(h) && h@ == c@ {
                Ok(())
            } else {
                Err(KeyAdminError::Unauthorized)
            },
        }),
{
    let secret = match configured {
        Some(c) => c,
        None => return Err(KeyAdminError::NotConfigured),
    };
    if secret.is_empty() {
        return Err(KeyAdminError::NotConfigured);
    }
    let provided = match supplied {
        Some(h) => h,
        None => "",
    };
    proof {
        reveal_strlit("");
    }
    if !str_eq(provided, secret) {
        return Err(KeyAdminError::Unauthorized);
    }
    Ok(())
}

/// Body of `POST /v1/admin/set-enclave-id`.
pub struct SetEnclaveIdReq {
    pub enclave_object_id: String,
    pub tx_digest: Option<String>,
}

/// Reply of `POST /v1/admin/set-enclave-id`.
pub struct SetEnclaveIdResp {
    pub enclave_object_id: String,
    pub forwarded_to_sidecar: bool,
}

/// Why a set-enclave-id request was refused.
#[derive(Clone, Copy, PartialEq, Eq, Structural, Debug)]
pub enum SetEnclaveIdError {
    Auth(AdminAuthError),
    /// The enclave object id is empty once trimmed (HTTP 400).
    MissingId,
}

/// What an accepted set-enclave-id request carries forward: the admin
/// secret to forward with, and the registration to cache.
pub struct AcceptedEnclaveId {
    pub secret: String,
    pub registration: RegisteredEnclave,
}

/// Check a set-enclave-id request: the admin secret first, then a
/// non-empty (trimmed) enclave object id. The cached registration takes
/// the trimmed id and the transaction digest, empty when absent.
pub fn accept_enclave_id(
    configured: Option<&str>,
    supplied: Option<&str>,
    req: &SetEnclaveIdReq,
) -> (r: Result<AcceptedEnclaveId, SetEnclaveIdError>)
    ensures
        ({
            let auth = secret_check(
                match configured { Some(c) => Some(c@), None => None },
                match supplied { Some(h) => Some(h@), None => None },
            );
            match r {
                Err(SetEnclaveIdError::Auth(e)) => auth == Err::<Seq<char>, AdminAuthError>(e),
                Err(SetEnclaveIdError::MissingId) => auth is Ok && trimmed(req.enclave_object_id@).len() == 0,
                Ok(a) => {
                    &&& auth == Ok::<Seq<char>, AdminAuthError>(a.secret@)
                    &&& trimmed(req.enclave_object_id@).len() > 0
                    &&& a.registration.enclave_object_id@ == trimmed(req.enclave_object_id@)
                    &&& a.registration.tx_digest@ == (match req.tx_digest {
                        Some(d) => d@,
                        None => Seq::<char>::empty(),
                    })
                },
            }
        }),
{
    let secret = match check_secret(configured, supplied) {
        Ok(s) => s,
        Err(e) => return Err(SetEnclaveIdError::Auth(e)),
    };
    let id = trim_text(req.enclave_object_id.as_str());
    if id.is_empty() {
        return Err(SetEnclaveIdError::MissingId);
    }
    let tx_digest = match &req.tx_digest {
        Some(d) => d.clone(),
        None => String::new(),
    };
    Ok(AcceptedEnclaveId {
        secret,
        registration: RegisteredEnclave { tx_digest, enclave_object_id: id.to_string() },
    })
}

/// Outcome of checking an admin lookup by id.
#[derive(Clone, Copy, PartialEq, Eq, Structural, Debug)]
pub enum AdminLookup {
    /// Refused by the secret check.
    Refused(AdminAuthError),
    /// The id in the path is not a UUID (HTTP 400).
    BadId,
    /// Look up this id.
    Lookup(u128),
}

/// Check an admin lookup (`/v1/admin/settlements/{id}` or
/// `/v1/admin/sessions/{id}`): the secret first, then the id in the
/// path must be a UUID.
pub fn admin_lookup(configured: Option<&str>, supplied: Option<&str>, path_id: &str) -> (r: AdminLookup)
    ensures
        ({
            let auth = secret_check(
                match configured { Some(c) => Some(c@), None => None },
                match supplied { Some(h) => Some(h@), None => None },
            );
            match auth {
                Err(e) => r == AdminLookup::Refused(e),
                Ok(_) => match uuid_text_value(path_id@) {
                    None => r == AdminLookup::BadId,
                    Some(v) => r == AdminLookup::Lookup(v),
                },
            }
        }),
{
    match check_secret(configured, supplied) {
        Err(e) => AdminLookup::Refused(e),
        Ok(_) => match parse_uuid(path_id) {
            None => AdminLookup::BadId,
            Some(v) => AdminLookup::Lookup(v),
        },
    }
}

/// One payment row of a request, as the settlement inspector reports it.
pub struct PaymentRow {
    pub id: String,
    pub request_id: String,
    pub payee_peer_id: String,
    pub payee_sui_address: String,
    pub amount_nanox: i64,
    pub status: String,
    pub tx_digest: Option<String>,
    pub created_at: String,
    pub submitted_at: Option<String>,
    pub confirmed_at: Option<String>,
}

/// Every payment row of a request.
pub struct SettlementStatusResp {
    pub request_id: String,
    pub payments: Vec<PaymentRow>,
}

/// One recent turn of a chat session.
pub struct SessionTurnRow {
    pub turn_id: String,
    pub request_id: String,
    pub node_peer_id: Option<String>,
    pub input_tokens: Option<i32>,
    pub output_tokens: Option<i32>,
    pub latency_ms: Option<i32>,
    pub created_at: String,
}

/// A node still warm for a chat session.
pub struct WarmNodeRow {
    pub node_peer_id: String,
    pub cache_tier: String,
    pub last_served_at: String,
}

/// State of a chat session: its context blob, recent turns and warm nodes.
pub struct SessionStatusResp {
    pub session_id: String,
    pub user_address: String,
    pub model_id: String,
    pub turn_count: i32,
    pub total_tokens: i64,
    pub walrus_blob_id: Option<String>,
    pub prev_blob_id: Option<String>,
    pub last_updated: String,
    pub turns: Vec<SessionTurnRow>,
    pub warm_nodes: Vec<WarmNodeRow>,
}

} // verus!

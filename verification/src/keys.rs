//! API keys: generation, hashing, per-key limits and usage accounting.
//!
//! Raw keys are shown to the developer once and never stored; only their
//! SHA-256 hex digest is persisted. Key format: `sk-pnv-` followed by 48
//! alphanumeric characters; the stored display prefix is the first 16
//! characters.

use vstd::prelude::*;

use rand::Rng;
use vstd::string::{StrSliceExecFns, StringExecFns, StringSliceAdditionalSpecFns};

use crate::codec::{hex_encode, hex_encoded, sha256, sha256_of};
use crate::error::AppError;
use crate::ids::{parse_uuid, uuid_text_value};
use crate::text::{strip_text_prefix, trim_text, trimmed};
use crate::types::RequestId;

verus! {

/// An ASCII letter or digit.
pub open spec fn is_alphanumeric_ascii(c: char) -> bool {
    ('A' <= c && c <= 'Z') || ('a' <= c && c <= 'z') || ('0' <= c && c <= '9')
}

/// `len` characters drawn with `rand::thread_rng()` from the
/// `rand::distributions::Alphanumeric` distribution (`A`-`Z`, `a`-`z`,
/// `0`-`9`). Only the length and the alphabet are promised: the
/// characters are random.
#[verifier::external_body]
fn random_alphanumeric(len: usize) -> (r: String)
    ensures
        r@.len() == len,
        forall|i: int| 0 <= i < len ==> is_alphanumeric_ascii(#[trigger] r@[i]),
{
    rand::thread_rng().sample_iter(&rand::distributions::Alphanumeric).take(len).map(char::from).collect()
}

/// SHA-256 hex digest of a raw key.
pub fn hash_api_key(raw: &str) -> (h: String)
    ensures
        h@ == hex_encoded(sha256_of(raw.spec_bytes())),
{
    let digest = sha256(raw.as_bytes());
    hex_encode(&digest)
}

/// A freshly generated key: the raw key, its hash, its display prefix.
pub struct GeneratedKey {
    pub raw: String,
    pub hash: String,
    pub prefix: String,
}

/// Generate a fresh API key.
pub fn generate_api_key() -> (k: GeneratedKey)
    ensures
        k.raw@.len() == 55,
        k.raw@.subrange(0, 7) == "sk-pnv-"@,
        forall|i: int| 7 <= i < 55 ==> is_alphanumeric_ascii(#[trigger] k.raw@[i]),
        k.hash@ == hex_encoded(sha256_of(vstd::utf8::encode_utf8(k.raw@))),
        k.prefix@ == k.raw@.subrange(0, 16),
{
    let suffix = random_alphanumeric(48);
    let raw = "sk-pnv-".to_string().concat(suffix.as_str());
    proof {
        reveal_strlit("sk-pnv-");
        assert(raw@.subrange(0, 7) =~= "sk-pnv-"@);
        assert forall|i: int| 7 <= i < 55 implies is_alphanumeric_ascii(#[trigger] raw@[i]) by {
            assert(raw@[i] == suffix@[i - 7]);
        }
        assert(vstd::utf8::is_ascii_chars(raw@));
    }
    let hash = hash_api_key(raw.as_str());
    let prefix = raw.as_str().substring_ascii(0, 16).to_string();
    GeneratedKey { raw, hash, prefix }
}

/// A validated API key, as downstream handlers see it.
pub struct ApiKeyContext {
    pub api_key_id: u128,
    pub account_id: u128,
    pub rpm_limit: i32,
    pub daily_limit: i32,
}

/// The API key a request's `Authorization` header carries: the text
/// after `Bearer `, trimmed, when non-empty.
pub open spec fn bearer_key(header: Option<Seq<char>>) -> Option<Seq<char>> {
    match header {
        None => None,
        Some(h) => if h.len() >= 7 && h.subrange(0, 7) == "Bearer "@ && trimmed(h.skip(7)).len() > 0 {
            Some(trimmed(h.skip(7)))
        } else {
            None
        },
    }
}

/// Extract the raw API key from the `Authorization` header (when present
/// and readable as text).
pub fn bearer_token(header: Option<&str>) -> (r: Option<String>)
    ensures
        match r {
            Some(k) => bearer_key(match header { Some(h) => Some(h@), None => None }) == Some(k@),
            None => bearer_key(match header { Some(h) => Some(h@), None => None }) is None,
        },
{
    proof {
        reveal_strlit("Bearer ");
    }
    let h = match header {
        Some(h) => h,
        None => return None,
    };
    let rest = match strip_text_prefix(h, "Bearer ") {
        Some(rest) => rest,
        None => return None,
    };
    let key = trim_text(rest);
    if key.is_empty() {
        return None;
    }
    Some(key.to_string())
}

/// The account a key listing asks for: the `account_id` query parameter,
/// which must be a UUID.
pub fn account_id_param(param: Option<&str>) -> (r: Result<u128, AppError>)
    ensures
        match param {
            Some(p) => match uuid_text_value(p@) {
                Some(v) => r == Ok::<u128, AppError>(v),
                None => r matches Err(AppError::BadRequest(m)) && m@ == "account_id query param required"@,
            },
            None => r matches Err(AppError::BadRequest(m)) && m@ == "account_id query param required"@,
        },
{
    let parsed = match param {
        Some(p) => parse_uuid(p),
        None => None,
    };
    match parsed {
        Some(v) => Ok(v),
        None => Err(AppError::BadRequest("account_id query param required".to_string())),
    }
}

/// Whether the `count`-th request in the current minute is within a
/// key's per-minute limit.
pub fn within_rpm(count: i64, limit: i32) -> (ok: bool)
    ensures
        ok == (count <= limit),
{
    count <= limit as i64
}

/// Body of `POST /v1/keys`.
pub struct CreateKeyRequest {
    pub account_id: u128,
    pub name: Option<String>,
    pub rpm_limit: Option<i32>,
    pub daily_limit: Option<i32>,
}

/// Limits a new key gets: as requested, or 10 requests per minute and
/// 100 per day.
pub fn key_limits(req: &CreateKeyRequest) -> (r: (i32, i32))
    ensures
        r.0 == (match req.rpm_limit { Some(v) => v, None => 10 }),
        r.1 == (match req.daily_limit { Some(v) => v, None => 100 }),
{
    let rpm = match req.rpm_limit {
        Some(v) => v,
        None => 10,
    };
    let daily = match req.daily_limit {
        Some(v) => v,
        None => 100,
    };
    (rpm, daily)
}

/// Reply of `DELETE /v1/keys/{id}`.
pub struct RevokeResponse {
    pub revoked: bool,
}

/// A key is revoked when the update touched a still-active key row.
pub fn revoke_response(rows_affected: u64) -> (r: RevokeResponse)
    ensures
        r.revoked == (rows_affected > 0),
{
    RevokeResponse { revoked: rows_affected > 0 }
}

/// Body of `POST /v1/accounts`.
pub struct CreateAccountRequest {
    pub email: Option<String>,
    pub wallet_addr: Option<String>,
}

/// Query of `GET /v1/usage`.
pub struct UsageQuery {
    /// How many past days to include. Default 30, at least 1, at most 90.
    pub days: Option<i32>,
}

/// The number of days a usage query covers.
pub fn usage_days(q: &UsageQuery) -> (d: i32)
    ensures
        d == (match q.days {
            None => 30,
            Some(v) => if v > 90 { 90 } else if v < 1 { 1 } else { v },
        }),
{
    let d = match q.days {
        Some(v) => v,
        None => 30,
    };
    let d = if d < 90 { d } else { 90 };
    if d > 1 { d } else { 1 }
}

/// One usage row.
pub struct UsageRecord {
    pub request_id: Option<RequestId>,
    pub model: String,
    pub input_tokens: i32,
    pub output_tokens: i32,
    pub cost_nanox: i64,
    pub latency_ms: Option<i32>,
    pub created_at: String,
}

/// Totals over a sequence of usage rows.
pub open spec fn input_total(rows: Seq<UsageRecord>) -> int
    decreases rows.len(),
{
    if rows.len() == 0 { 0 } else { input_total(rows.drop_last()) + rows.last().input_tokens }
}

pub open spec fn output_total(rows: Seq<UsageRecord>) -> int
    decreases rows.len(),
{
    if rows.len() == 0 { 0 } else { output_total(rows.drop_last()) + rows.last().output_tokens }
}

pub open spec fn cost_total(rows: Seq<UsageRecord>) -> int
    decreases rows.len(),
{
    if rows.len() == 0 { 0 } else { cost_total(rows.drop_last()) + rows.last().cost_nanox }
}

/// Usage summary of an account.
pub struct UsageSummary {
    pub total_requests: i64,
    pub total_input_tokens: i64,
    pub total_output_tokens: i64,
    pub total_cost_nanox: i64,
    pub records: Vec<UsageRecord>,
}

/// Every prefix of the rows has a cost total within `i64`.
pub open spec fn cost_fits(rows: Seq<UsageRecord>) -> bool {
    forall|k: int| 0 <= k <= rows.len() ==> i64::MIN <= #[trigger] cost_total(rows.take(k)) <= i64::MAX
}

/// Summarise the usage rows of an account.
pub fn summarize_usage(rows: Vec<UsageRecord>) -> (s: UsageSummary)
    requires
        rows@.len() <= 0xffff_ffff,
        cost_fits(rows@),
    ensures
        s.total_requests == rows@.len(),
        s.total_input_tokens == input_total(rows@),
        s.total_output_tokens == output_total(rows@),
        s.total_cost_nanox == cost_total(rows@),
        s.records@ == rows@,
{
    let mut input: i64 = 0;
    let mut output: i64 = 0;
    let mut cost: i64 = 0;
    let mut i: usize = 0;
    while i < rows.len()
        invariant
            i <= rows@.len(),
            rows@.len() <= 0xffff_ffff,
            cost_fits(rows@),
            input == input_total(rows@.take(i as int)),
            output == output_total(rows@.take(i as int)),
            cost == cost_total(rows@.take(i as int)),
            -0x8000_0000 * i <= input <= 0x7fff_ffff * i,
            -0x8000_0000 * i <= output <= 0x7fff_ffff * i,
        decreases rows@.len() - i,
    {
        proof {
            assert(rows@.take(i + 1).drop_last() =~= rows@.take(i as int));
            assert(rows@.take(i + 1).last() == rows@[i as int]);
        }
        input = input + rows[i].input_tokens as i64;
        output = output + rows[i].output_tokens as i64;
        proof {
            assert(i64::MIN <= cost_total(rows@.take(i + 1)) <= i64::MAX);
        }
        cost = cost + rows[i].cost_nanox;
        i = i + 1;
    }
    proof {
        assert(rows@.take(rows@.len() as int) =~= rows@);
    }
    let n = rows.len() as i64;
    UsageSummary { total_requests: n, total_input_tokens: input, total_output_tokens: output, total_cost_nanox: cost, records: rows }
}

} // verus!

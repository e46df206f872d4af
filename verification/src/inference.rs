//! `POST /v1/chat/completions`: the auction run on a client's behalf
//! and the dispatch token naming the winning node.

use vstd::prelude::*;
use vstd::string::{StringExecFns, StringSliceAdditionalSpecFns};

use crate::auction::{pick_winner, winner_index, BidRank};
use crate::codec::{hex_decode, hex_decoded};
use crate::error::AppError;
use crate::protocol::DispatchToken;
use crate::text::{ascii_lowered, contains_bytes, eq_ascii_lowercased, eq_lowercased, has_substring, lemma_eq_lowercased_of_lowered};
use crate::text_map::TextMap;
use crate::types::{texts, InferenceBid, InferenceRequest, NanoX, NodePeerId, PrivacyLevel, RequestId, SessionId};

verus! {

/// How long a dispatch token stays valid.
pub const DISPATCH_DEADLINE_MS: u64 = 60_000;

/// One chat message of a request.
pub struct ChatMessage {
    pub role: String,
    pub content: String,
}

/// Body of `POST /v1/chat/completions`.
pub struct ChatCompletionRequest {
    pub model: String,
    pub messages: Vec<ChatMessage>,
    /// Hex Ed25519 public key of the client, bound into the dispatch token.
    pub client_pubkey_hex: String,
    pub max_price_nanox: Option<u64>,
    pub privacy: Option<String>,
    /// Settlement ids the client accepts, in preference order; empty
    /// means `["free"]`.
    pub accepted_settlements: Vec<String>,
    /// Hex X25519 public key of the client, when the messages come
    /// encrypted to the enclave.
    pub client_x25519_pubkey_hex: Option<String>,
    /// Base64 AES-256-GCM ciphertext of the JSON messages.
    pub messages_encrypted: Option<String>,
    /// Base64 96-bit AES-GCM nonce of `messages_encrypted`.
    pub messages_nonce: Option<String>,
}

/// The privacy level a request's `privacy` field names, compared
/// ASCII-case-insensitively; absent or unknown means standard.
pub open spec fn privacy_named(s: Option<Seq<u8>>) -> PrivacyLevel {
    match s {
        None => PrivacyLevel::Standard,
        Some(b) => if eq_ascii_lowercased(b, "private".spec_bytes()) {
            PrivacyLevel::Private
        } else if eq_ascii_lowercased(b, "fragmented".spec_bytes()) {
            PrivacyLevel::Fragmented
        } else if eq_ascii_lowercased(b, "maximum".spec_bytes()) {
            PrivacyLevel::Maximum
        } else {
            PrivacyLevel::Standard
        },
    }
}

/// Law: the privacy level depends on the field only up to ASCII case:
/// a field and its lower-cased form name the same level, so every
/// casing of `maximum` names what `maximum` names, and likewise for
/// the other levels.
pub proof fn law_privacy_ignores_ascii_case(s: Seq<u8>)
    ensures
        privacy_named(Some(s)) == privacy_named(Some(ascii_lowered(s))),
{
    lemma_eq_lowercased_of_lowered(s, "private".spec_bytes());
    lemma_eq_lowercased_of_lowered(s, "fragmented".spec_bytes());
    lemma_eq_lowercased_of_lowered(s, "maximum".spec_bytes());
}

/// Law: a privacy field names the maximum level exactly when it reads
/// `maximum` in any ASCII casing, and likewise `private` and
/// `fragmented`; anything else is standard.
pub proof fn law_privacy_levels(s: Seq<u8>)
    ensures
        (privacy_named(Some(s)) == PrivacyLevel::Private) <==> ascii_lowered(s) == "private".spec_bytes(),
        (privacy_named(Some(s)) == PrivacyLevel::Fragmented) <==> ascii_lowered(s) == "fragmented".spec_bytes(),
        (privacy_named(Some(s)) == PrivacyLevel::Maximum) <==> ascii_lowered(s) == "maximum".spec_bytes(),
{
    reveal_strlit("private");
    reveal_strlit("fragmented");
    reveal_strlit("maximum");
    vstd::string::is_ascii_spec_bytes("private");
    vstd::string::is_ascii_spec_bytes("fragmented");
    vstd::string::is_ascii_spec_bytes("maximum");
    let p = "private".spec_bytes();
    let f = "fragmented".spec_bytes();
    let m = "maximum".spec_bytes();
    assert(p[0] == 112u8 && m[0] == 109u8 && f.len() == 10 && p.len() == 7 && m.len() == 7);
    let t = ascii_lowered(s);
    assert(eq_ascii_lowercased(s, p) == (t == p)) by {
        if eq_ascii_lowercased(s, p) { assert(t =~= p); }
    }
    assert(eq_ascii_lowercased(s, f) == (t == f)) by {
        if eq_ascii_lowercased(s, f) { assert(t =~= f); }
    }
    assert(eq_ascii_lowercased(s, m) == (t == m)) by {
        if eq_ascii_lowercased(s, m) { assert(t =~= m); }
    }
}

/// Parse a request's privacy field.
pub fn parse_privacy(s: Option<&str>) -> (r: PrivacyLevel)
    ensures
        r == privacy_named(match s { Some(t) => Some(t.spec_bytes()), None => None }),
{
    match s {
        None => PrivacyLevel::Standard,
        Some(t) => {
            let b = t.as_bytes();
            if eq_lowercased(b, "private".as_bytes()) {
                PrivacyLevel::Private
            } else if eq_lowercased(b, "fragmented".as_bytes()) {
                PrivacyLevel::Fragmented
            } else if eq_lowercased(b, "maximum".as_bytes()) {
                PrivacyLevel::Maximum
            } else {
                PrivacyLevel::Standard
            }
        },
    }
}

/// Why a client public key was rejected.
#[derive(Clone, Copy, PartialEq, Eq, Structural, Debug)]
pub enum PubkeyError {
    /// Not an even-length hex string.
    NotHex,
    /// Hex, but not of exactly 32 bytes.
    WrongLength,
}

/// Decode the client's hex Ed25519 public key.
pub fn decode_hex_pubkey(s: &str) -> (r: Result<[u8; 32], PubkeyError>)
    ensures
        match hex_decoded(s.spec_bytes()) {
            None => r == Err::<[u8; 32], PubkeyError>(PubkeyError::NotHex),
            Some(b) => if b.len() == 32 {
                r matches Ok(k) && k@ == b
            } else {
                r == Err::<[u8; 32], PubkeyError>(PubkeyError::WrongLength)
            },
        },
{
    let raw = match hex_decode(s) {
        Some(v) => v,
        None => return Err(PubkeyError::NotHex),
    };
    if raw.len() != 32 {
        return Err(PubkeyError::WrongLength);
    }
    let mut out = [0u8; 32];
    let mut i: usize = 0;
    while i < 32
        invariant
            raw@.len() == 32,
            i <= 32,
            forall|k: int| 0 <= k < i ==> out@[k] == raw@[k],
        decreases 32 - i,
    {
        out[i] = raw[i];
        i = i + 1;
    }
    proof {
        assert(out@ =~= raw@);
    }
    Ok(out)
}

/// The settlement ids a request accepts: as given, or `["free"]` when
/// none are given.
pub fn accepted_or_free(accepted: &Vec<String>) -> (r: Vec<String>)
    ensures
        accepted@.len() == 0 ==> texts(r@) == seq!["free"@],
        accepted@.len() > 0 ==> texts(r@) == texts(accepted@),
{
    if accepted.len() == 0 {
        let mut r: Vec<String> = Vec::new();
        r.push("free".to_string());
        proof {
            assert(texts(r@) =~= seq!["free"@]);
        }
        r
    } else {
        crate::types::copy_texts(accepted)
    }
}

/// The request the coordinator publishes for a chat completion.
pub fn build_request(
    request_id: RequestId,
    session_id: SessionId,
    req: &ChatCompletionRequest,
) -> (r: InferenceRequest)
    ensures
        r.request_id == request_id,
        r.session_id == session_id,
        r.model@ == req.model@,
        r.privacy == privacy_named(match req.privacy { Some(t) => Some(vstd::utf8::encode_utf8(t@)), None => None }),
        req.accepted_settlements@.len() == 0 ==> texts(r.accepted_settlements@) == seq!["free"@],
        req.accepted_settlements@.len() > 0 ==> texts(r.accepted_settlements@) == texts(req.accepted_settlements@),
{
    let privacy = match &req.privacy {
        Some(p) => parse_privacy(Some(p.as_str())),
        None => parse_privacy(None),
    };
    InferenceRequest {
        request_id,
        session_id,
        model: req.model.clone(),
        privacy,
        accepted_settlements: accepted_or_free(&req.accepted_settlements),
    }
}

/// The payout addresses that bids declare, keyed by peer id; bids
/// without an address are skipped and a later bid from the same peer
/// wins.
pub open spec fn bid_payouts(bids: Seq<InferenceBid>) -> Map<Seq<char>, String>
    decreases bids.len(),
{
    if bids.len() == 0 {
        Map::empty()
    } else {
        let rest = bid_payouts(bids.drop_last());
        let b = bids.last();
        if b.payout_address@.len() == 0 { rest } else { rest.insert(b.node_peer_id.0@, b.payout_address) }
    }
}

/// Record the payout address of every bidder that declared one, so the
/// completion handler can build payment rows.
pub fn payout_addresses_of(bids: &Vec<InferenceBid>) -> (m: TextMap<String>)
    ensures
        m.view().dom() == bid_payouts(bids@).dom(),
        forall|k: Seq<char>| #[trigger] m.view().contains_key(k) ==> m.view()[k]@ == bid_payouts(bids@)[k]@,
{
    let mut m: TextMap<String> = TextMap::new();
    let mut i: usize = 0;
    while i < bids.len()
        invariant
            i <= bids@.len(),
            m.view().dom() == bid_payouts(bids@.take(i as int)).dom(),
            forall|k: Seq<char>| #[trigger] m.view().contains_key(k) ==> m.view()[k]@ == bid_payouts(bids@.take(i as int))[k]@,
        decreases bids@.len() - i,
    {
        proof {
            assert(bids@.take(i + 1).drop_last() =~= bids@.take(i as int));
            assert(bids@.take(i + 1).last() == bids@[i as int]);
        }
        if !bids[i].payout_address.as_str().is_empty() {
            m.insert(bids[i].node_peer_id.0.clone(), bids[i].payout_address.clone());
        }
        proof {
            assert(m.view().dom() =~= bid_payouts(bids@.take(i + 1)).dom());
        }
        i = i + 1;
    }
    proof {
        assert(bids@.take(bids@.len() as int) =~= bids@);
    }
    m
}

/// The ranking key of a bid, given its composite score's bit pattern.
pub fn rank_of(bid: &InferenceBid, score_bits: u32) -> (r: BidRank)
    ensures
        r.score_bits == score_bits,
        r.price_per_1k == bid.price_per_1k.0,
        r.latency_ms == bid.latency_ms,
{
    BidRank { score_bits, price_per_1k: bid.price_per_1k.0, latency_ms: bid.latency_ms }
}

/// Pick the auction's winner, or answer that no node can serve.
pub fn select_winner(ranks: &[BidRank]) -> (r: Result<usize, AppError>)
    ensures
        ranks@.len() == 0 ==> (r matches Err(AppError::NoNodes(m)) && m@ == "no bids matched the requested settlement"@),
        ranks@.len() > 0 ==> r == Ok::<usize, AppError>(winner_index(ranks@, ranks@.len()) as usize),
{
    match pick_winner(ranks) {
        Some(i) => Ok(i),
        None => Err(AppError::NoNodes("no bids matched the requested settlement".to_string())),
    }
}

/// How a failed publish is answered: as "no node" when the mesh had no
/// subscribed or too few peers, as an internal error otherwise.
pub fn classify_publish_error(message: &str) -> (r: AppError)
    ensures
        (has_substring(message.spec_bytes(), "NoPeersSubscribed".spec_bytes())
            || has_substring(message.spec_bytes(), "InsufficientPeers".spec_bytes()))
            ==> (r matches AppError::NoNodes(m) && m@ == "no GPU nodes subscribed to this model topic"@),
        !(has_substring(message.spec_bytes(), "NoPeersSubscribed".spec_bytes())
            || has_substring(message.spec_bytes(), "InsufficientPeers".spec_bytes()))
            ==> (r matches AppError::Internal(m) && m@ == "mesh publish: "@ + message@),
{
    let b = message.as_bytes();
    if contains_bytes(b, "NoPeersSubscribed".as_bytes()) || contains_bytes(b, "InsufficientPeers".as_bytes()) {
        AppError::NoNodes("no GPU nodes subscribed to this model topic".to_string())
    } else {
        AppError::Internal("mesh publish: ".to_string().concat(message))
    }
}

/// What the handler answers once a winner is chosen: the winner's own
/// endpoint and the dispatch token to sign.
pub struct DispatchDraft {
    pub node_url: String,
    /// The token, not yet signed (zero coordinator key, empty signature).
    pub token: DispatchToken,
}

/// Draft the dispatch token naming the winning bid, issued at `now_ms`.
/// The client key must be 32 bytes of hex; the price cap defaults to
/// unlimited; settlement is free; the token expires after
/// `DISPATCH_DEADLINE_MS`.
pub fn draft_dispatch(
    request_id: RequestId,
    req: &ChatCompletionRequest,
    winner: &InferenceBid,
    now_ms: u64,
) -> (r: Result<DispatchDraft, AppError>)
    requires
        now_ms <= u64::MAX - DISPATCH_DEADLINE_MS,
    ensures
        match hex_decoded(vstd::utf8::encode_utf8(req.client_pubkey_hex@)) {
            None => r matches Err(AppError::BadRequest(m)) && m@ == "client_pubkey_hex must be hex"@,
            Some(k) => if k.len() != 32 {
                r matches Err(AppError::BadRequest(m)) && m@ == "client_pubkey_hex must be 32 bytes"@
            } else {
                r matches Ok(d) && {
                    &&& d.node_url@ == winner.http_endpoint@
                    &&& d.token.request_id == request_id
                    &&& d.token.client_pubkey@ == k
                    &&& d.token.primary_peer_id.0@ == winner.node_peer_id.0@
                    &&& d.token.settlement_id@ == "free"@
                    &&& d.token.max_price_nanox == NanoX(match req.max_price_nanox { Some(p) => p, None => u64::MAX })
                    &&& d.token.issued_at_ms == now_ms
                    &&& d.token.deadline_ms == now_ms + DISPATCH_DEADLINE_MS
                    &&& d.token.coordinator_pubkey@ == Seq::new(32, |i: int| 0u8)
                    &&& d.token.signature@.len() == 0
                }
            },
        },
{
    let client_pubkey = match decode_hex_pubkey(req.client_pubkey_hex.as_str()) {
        Ok(k) => k,
        Err(PubkeyError::NotHex) => return Err(AppError::BadRequest("client_pubkey_hex must be hex".to_string())),
        Err(PubkeyError::WrongLength) => {
            return Err(AppError::BadRequest("client_pubkey_hex must be 32 bytes".to_string()))
        },
    };
    let max_price = match req.max_price_nanox {
        Some(p) => p,
        None => u64::MAX,
    };
    let token = DispatchToken {
        request_id,
        client_pubkey,
        primary_peer_id: winner.node_peer_id.duplicate(),
        settlement_id: "free".to_string(),
        max_price_nanox: NanoX(max_price),
        issued_at_ms: now_ms,
        deadline_ms: now_ms + DISPATCH_DEADLINE_MS,
        coordinator_pubkey: [0u8; 32],
        signature: Vec::new(),
    };
    proof {
        assert(token.coordinator_pubkey@ =~= Seq::new(32, |i: int| 0u8));
    }
    Ok(DispatchDraft { node_url: winner.http_endpoint.clone(), token })
}

} // verus!

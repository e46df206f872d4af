use coordinator::auction::BidRank;
use coordinator::error::AppError;
use coordinator::inference::{
    accepted_or_free, build_request, classify_publish_error, decode_hex_pubkey, draft_dispatch, parse_privacy,
    payout_addresses_of, select_winner, ChatCompletionRequest, ChatMessage, PubkeyError, DISPATCH_DEADLINE_MS,
};
use coordinator::types::{InferenceBid, NanoX, NodePeerId, PrivacyLevel};

const KEY_HEX: &str = "000102030405060708090a0b0c0d0e0f101112131415161718191a1b1c1d1e1f";

fn request(pubkey: &str) -> ChatCompletionRequest {
    ChatCompletionRequest {
        model: "qwen-72b".to_string(),
        messages: vec![ChatMessage { role: "user".to_string(), content: "hello".to_string() }],
        client_pubkey_hex: pubkey.to_string(),
        max_price_nanox: None,
        privacy: None,
        accepted_settlements: vec![],
        client_x25519_pubkey_hex: None,
        messages_encrypted: None,
        messages_nonce: None,
    }
}

fn bid(peer: &str, payout: &str) -> InferenceBid {
    InferenceBid {
        request_id: 7,
        node_peer_id: NodePeerId(peer.to_string()),
        price_per_1k: NanoX(10),
        latency_ms: 100,
        reputation_bits: 0.5f32.to_bits(),
        http_endpoint: format!("http://{peer}.test:5000"),
        payout_address: payout.to_string(),
        node_x25519_pubkey: None,
    }
}

#[test]
fn parse_privacy_is_case_insensitive_and_defaults_to_standard() {
    assert_eq!(parse_privacy(None), PrivacyLevel::Standard);
    assert_eq!(parse_privacy(Some("private")), PrivacyLevel::Private);
    assert_eq!(parse_privacy(Some("PRIVATE")), PrivacyLevel::Private);
    assert_eq!(parse_privacy(Some("Fragmented")), PrivacyLevel::Fragmented);
    assert_eq!(parse_privacy(Some("maximum")), PrivacyLevel::Maximum);
    assert_eq!(parse_privacy(Some("max")), PrivacyLevel::Standard);
    assert_eq!(parse_privacy(Some("")), PrivacyLevel::Standard);
}

#[test]
fn decode_hex_pubkey_accepts_exactly_32_bytes() {
    let k = decode_hex_pubkey(KEY_HEX).unwrap();
    for (i, b) in k.iter().enumerate() {
        assert_eq!(*b as usize, i);
    }
    assert_eq!(decode_hex_pubkey("nothex"), Err(PubkeyError::NotHex));
    assert_eq!(decode_hex_pubkey("abc"), Err(PubkeyError::NotHex));
    assert_eq!(decode_hex_pubkey("abcd"), Err(PubkeyError::WrongLength));
    assert_eq!(decode_hex_pubkey(""), Err(PubkeyError::WrongLength));
}

#[test]
fn accepted_settlements_default_to_free() {
    assert_eq!(accepted_or_free(&vec![]), vec!["free".to_string()]);
    let given = vec!["receipt".to_string(), "free".to_string()];
    assert_eq!(accepted_or_free(&given), given);
}

#[test]
fn build_request_carries_the_request_fields() {
    let mut req = request(KEY_HEX);
    req.privacy = Some("Private".to_string());
    let r = build_request(11, 22, &req);
    assert_eq!(r.request_id, 11);
    assert_eq!(r.session_id, 22);
    assert_eq!(r.model, "qwen-72b");
    assert_eq!(r.privacy, PrivacyLevel::Private);
    assert_eq!(r.accepted_settlements, vec!["free".to_string()]);
}

#[test]
fn payout_addresses_skip_empty_and_keep_last() {
    let bids = vec![bid("A", "0xa1"), bid("B", ""), bid("A", "0xa2"), bid("C", "0xc")];
    let m = payout_addresses_of(&bids);
    assert_eq!(m.get("A").unwrap(), "0xa2");
    assert!(m.get("B").is_none());
    assert_eq!(m.get("C").unwrap(), "0xc");
}

#[test]
fn empty_auction_is_no_nodes() {
    match select_winner(&[]) {
        Err(AppError::NoNodes(m)) => assert_eq!(m, "no bids matched the requested settlement"),
        _ => panic!("expected NoNodes"),
    }
    let ranks = vec![
        BidRank { score_bits: 1.0f32.to_bits(), price_per_1k: 5, latency_ms: 5 },
        BidRank { score_bits: 2.0f32.to_bits(), price_per_1k: 5, latency_ms: 5 },
    ];
    assert!(matches!(select_winner(&ranks), Ok(1)));
}

#[test]
fn publish_errors_are_classified() {
    match classify_publish_error("gossipsub: NoPeersSubscribed") {
        AppError::NoNodes(m) => assert_eq!(m, "no GPU nodes subscribed to this model topic"),
        _ => panic!("expected NoNodes"),
    }
    assert!(matches!(classify_publish_error("InsufficientPeers"), AppError::NoNodes(_)));
    match classify_publish_error("boom") {
        AppError::Internal(m) => assert_eq!(m, "mesh publish: boom"),
        _ => panic!("expected Internal"),
    }
}

#[test]
fn bad_client_pubkey_hex_returns_bad_request() {
    let w = bid("N", "0xn");
    match draft_dispatch(1, &request("nothex"), &w, 1_000) {
        Err(AppError::BadRequest(m)) => assert_eq!(m, "client_pubkey_hex must be hex"),
        _ => panic!("expected BadRequest"),
    }
    match draft_dispatch(1, &request("abcd"), &w, 1_000) {
        Err(AppError::BadRequest(m)) => assert_eq!(m, "client_pubkey_hex must be 32 bytes"),
        _ => panic!("expected BadRequest"),
    }
}

#[test]
fn draft_dispatch_names_the_winner() {
    let w = bid("enc-test-node", "0xn");
    let mut req = request(KEY_HEX);
    req.max_price_nanox = Some(10_000);
    let d = draft_dispatch(42, &req, &w, 1_700_000_000_000).ok().unwrap();
    assert_eq!(d.node_url, "http://enc-test-node.test:5000");
    assert_eq!(d.token.request_id, 42);
    assert_eq!(d.token.primary_peer_id.0, "enc-test-node");
    assert_eq!(d.token.settlement_id, "free");
    assert_eq!(d.token.max_price_nanox, NanoX(10_000));
    assert_eq!(d.token.issued_at_ms, 1_700_000_000_000);
    assert_eq!(d.token.deadline_ms, 1_700_000_000_000 + DISPATCH_DEADLINE_MS);
    assert_eq!(d.token.client_pubkey[31], 31);
    assert!(d.token.signature.is_empty());

    let d = draft_dispatch(42, &request(KEY_HEX), &w, 0).ok().unwrap();
    assert_eq!(d.token.max_price_nanox, NanoX(u64::MAX));
    assert_eq!(d.token.deadline_ms, 60_000);
}

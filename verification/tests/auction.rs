use coordinator::auction::{
    compare_bids, compare_scores, pick_winner, warmth_for_tier, warmth_map_from_rows, warmth_of,
    BidRank, Relation, WarmthMap,
};
use coordinator::inference::{build_request, draft_dispatch, rank_of, select_winner, ChatCompletionRequest, ChatMessage};
use coordinator::mesh::{InMemoryMesh, InferenceDispatch};
use coordinator::text_map::TextMap;
use coordinator::types::{InferenceBid, NanoX, NodePeerId};

fn bid(peer: &str, price: u64, latency: u32, reputation: f32) -> InferenceBid {
    InferenceBid {
        request_id: 0,
        node_peer_id: NodePeerId(peer.to_string()),
        price_per_1k: NanoX(price),
        latency_ms: latency,
        reputation_bits: reputation.to_bits(),
        http_endpoint: format!("http://node-{peer}.test"),
        payout_address: format!("0x{:0>62}", peer),
        node_x25519_pubkey: None,
    }
}

/// The warmth-aware composite score: 0.35 / price + 0.25 / latency +
/// 0.25 reputation + 0.15 warmth.
fn score(b: &InferenceBid, warmth: f32) -> f32 {
    let price = b.price_per_1k.0 as f32;
    let latency = b.latency_ms as f32;
    let inv_price = if price > 0.0 { 1.0 / price } else { 0.0 };
    let inv_latency = if latency > 0.0 { 1.0 / latency } else { 0.0 };
    0.35 * inv_price + 0.25 * inv_latency + 0.25 * f32::from_bits(b.reputation_bits) + 0.15 * warmth.clamp(0.0, 1.0)
}

fn pick_winner_with_warmth<'a>(bids: &'a [InferenceBid], warm: &WarmthMap) -> Option<&'a InferenceBid> {
    let ranks: Vec<BidRank> = bids
        .iter()
        .map(|b| {
            let w = warmth_of(warm, &b.node_peer_id.0) as f32 / 100.0;
            rank_of(b, score(b, w).to_bits())
        })
        .collect();
    pick_winner(&ranks).map(|i| &bids[i])
}

fn winner(bids: &[InferenceBid]) -> Option<&InferenceBid> {
    pick_winner_with_warmth(bids, &TextMap::new())
}

fn rank(score: f32, price: u64, latency: u32) -> BidRank {
    BidRank { score_bits: score.to_bits(), price_per_1k: price, latency_ms: latency }
}

#[test]
fn cheaper_faster_higher_rep_wins() {
    let bids = vec![bid("A", 100, 500, 0.5), bid("B", 50, 300, 0.9), bid("C", 80, 400, 0.7)];
    let w = winner(&bids).unwrap();
    assert_eq!(w.node_peer_id.0, "B");
}

#[test]
fn empty_returns_none() {
    let bids: Vec<InferenceBid> = vec![];
    assert!(winner(&bids).is_none());
}

#[test]
fn tie_breaks_on_lower_price() {
    let a = bid("A", 100, 500, 0.5);
    let b = bid("B", 50, 500, 0.5);
    let bids = vec![a, b];
    let w = winner(&bids).unwrap();
    assert_eq!(w.node_peer_id.0, "B");
}

#[test]
fn warm_node_beats_marginally_cheaper_cold_node() {
    let bids = vec![bid("A", 100, 300, 0.9), bid("B", 90, 300, 0.9)];
    let cold = WarmthMap::new();
    assert_eq!(pick_winner_with_warmth(&bids, &cold).unwrap().node_peer_id.0, "B");
    let mut warm = WarmthMap::new();
    warm.insert("A".to_string(), warmth_for_tier("gpu"));
    assert_eq!(pick_winner_with_warmth(&bids, &warm).unwrap().node_peer_id.0, "A");
}

#[test]
fn aggressively_cheap_node_still_beats_warm() {
    let bids = vec![bid("A", 10_000, 300, 0.9), bid("B", 1, 300, 0.9)];
    let mut warm = WarmthMap::new();
    warm.insert("A".to_string(), warmth_for_tier("gpu"));
    assert_eq!(pick_winner_with_warmth(&bids, &warm).unwrap().node_peer_id.0, "B");
}

#[test]
fn warmth_tiers_are_ordered() {
    assert!(warmth_for_tier("gpu") > warmth_for_tier("cpu"));
    assert!(warmth_for_tier("cpu") > warmth_for_tier("disk"));
    assert!(warmth_for_tier("disk") > warmth_for_tier("missing"));
    assert_eq!(warmth_for_tier("missing"), 0);
}

#[test]
fn warmth_tier_values_in_hundredths() {
    assert_eq!(warmth_for_tier("gpu"), 100);
    assert_eq!(warmth_for_tier("cpu"), 70);
    assert_eq!(warmth_for_tier("disk"), 40);
    assert_eq!(warmth_for_tier("GPU"), 0);
    assert_eq!(warmth_for_tier(""), 0);
}

#[test]
fn equal_score_and_price_prefers_lower_latency() {
    let ranks = vec![rank(1.0, 10, 300), rank(1.0, 10, 200), rank(1.0, 10, 250)];
    assert_eq!(pick_winner(&ranks), Some(1));
}

#[test]
fn fully_tied_bids_pick_the_last() {
    let ranks = vec![rank(0.5, 10, 100), rank(0.5, 10, 100), rank(0.5, 10, 100)];
    assert_eq!(pick_winner(&ranks), Some(2));
}

#[test]
fn winner_outranks_every_other_bid() {
    let ranks = vec![rank(0.2, 5, 9), rank(0.9, 50, 9), rank(0.9, 40, 9), rank(0.1, 1, 1), rank(0.9, 40, 10)];
    let w = pick_winner(&ranks).unwrap();
    assert_eq!(w, 2);
    for (j, r) in ranks.iter().enumerate() {
        if j != w {
            assert_ne!(compare_bids(&ranks[w], r), Relation::Less);
        }
    }
}

#[test]
fn nan_scores_compare_equal() {
    let nan = f32::NAN.to_bits();
    assert_eq!(compare_scores(nan, 1.0f32.to_bits()), Relation::Equal);
    assert_eq!(compare_scores(1.0f32.to_bits(), nan), Relation::Equal);
    // With a NaN score the tie-breakers decide.
    let ranks = vec![rank(f32::NAN, 10, 5), rank(3.0, 20, 5)];
    assert_eq!(pick_winner(&ranks), Some(0));
}

#[test]
fn scores_compare_numerically() {
    assert_eq!(compare_scores((-1.0f32).to_bits(), 0.5f32.to_bits()), Relation::Less);
    assert_eq!(compare_scores((-2.0f32).to_bits(), (-1.0f32).to_bits()), Relation::Less);
    assert_eq!(compare_scores(0.0f32.to_bits(), (-0.0f32).to_bits()), Relation::Equal);
    assert_eq!(compare_scores(2.5f32.to_bits(), 2.25f32.to_bits()), Relation::Greater);
    assert_eq!(compare_scores(f32::INFINITY.to_bits(), f32::MAX.to_bits()), Relation::Greater);
}

#[test]
fn compare_bids_breaks_ties_on_price_then_latency() {
    assert_eq!(compare_bids(&rank(1.0, 10, 5), &rank(1.0, 20, 5)), Relation::Greater);
    assert_eq!(compare_bids(&rank(1.0, 20, 5), &rank(1.0, 10, 5)), Relation::Less);
    assert_eq!(compare_bids(&rank(1.0, 10, 5), &rank(1.0, 10, 6)), Relation::Greater);
    assert_eq!(compare_bids(&rank(1.0, 10, 5), &rank(1.0, 10, 5)), Relation::Equal);
    assert_eq!(compare_bids(&rank(2.0, 99, 99), &rank(1.0, 1, 1)), Relation::Greater);
}

#[test]
fn warmth_map_later_row_replaces_earlier() {
    let rows = vec![
        ("A".to_string(), "disk".to_string()),
        ("B".to_string(), "cpu".to_string()),
        ("A".to_string(), "gpu".to_string()),
    ];
    let m = warmth_map_from_rows(rows);
    assert_eq!(warmth_of(&m, "A"), 100);
    assert_eq!(warmth_of(&m, "B"), 70);
    assert_eq!(warmth_of(&m, "C"), 0);
}

#[test]
fn auction_winner_is_dispatched_and_replies() {
    let mut mesh = InMemoryMesh::new();
    mesh.seed_bids(vec![bid("peer-a", 200, 800, 0.4), bid("peer-b", 50, 300, 0.9), bid("peer-c", 100, 500, 0.6)]);
    let req = ChatCompletionRequest {
        model: "qwen-72b".to_string(),
        messages: vec![ChatMessage { role: "user".to_string(), content: "hello".to_string() }],
        client_pubkey_hex: "00".repeat(32),
        max_price_nanox: Some(10_000),
        privacy: None,
        accepted_settlements: vec![],
        client_x25519_pubkey_hex: None,
        messages_encrypted: None,
        messages_nonce: None,
    };
    let request = build_request(11, 22, &req);
    let bids = mesh.publish_request(&request);
    assert!(bids.iter().all(|b| b.request_id == 11));
    let ranks: Vec<BidRank> = bids.iter().map(|b| rank_of(b, score(b, 0.0).to_bits())).collect();
    let winner = &bids[select_winner(&ranks).ok().unwrap()];
    let draft = draft_dispatch(11, &req, winner, 1_000).ok().unwrap();
    let dispatch = InferenceDispatch { dispatch_token: draft.token, session_id: 22, messages: req.messages };
    let reply = mesh.dispatch_inference(&winner.node_peer_id.0, &dispatch);
    assert_eq!(reply.content, "mock-reply-from-peer-b");
    assert_eq!(reply.request_id, 11);
    assert_eq!(reply.session_id, 22);
    assert_eq!((reply.input_tokens, reply.output_tokens, reply.latency_ms), (10, 20, 5));
    assert!(reply.error.is_none());
}

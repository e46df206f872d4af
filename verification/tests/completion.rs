use coordinator::completion::{assemble_receipt, completion_step, warm_peers, CompletionReply, InFlightMeta, InFlightTable};
use coordinator::mesh::{InMemoryMesh, NoopMesh};
use coordinator::payments::compute_payouts;
use coordinator::protocol::{CompletionAck, ProofOfInference, RoutingReceipt};
use coordinator::receipts::InMemoryReceiptArchive;
use coordinator::text_map::TextMap;
use coordinator::types::{InferenceBid, InferenceRequest, NanoX, NodePeerId, PrivacyLevel};

fn proof_by(peer: &str, price: u64) -> ProofOfInference {
    ProofOfInference {
        request_id: 77,
        session_id: 1,
        node_peer_id: NodePeerId(peer.to_string()),
        client_address: "client".to_string(),
        model_id: "qwen-72b".to_string(),
        input_tokens: 10,
        output_tokens: 20,
        latency_ms: 30,
        price_paid_nanox: NanoX(price),
        timestamp: 1_700_000_000_000,
        input_hash: [1u8; 32],
        output_hash: [2u8; 32],
        settlement_id: "free".to_string(),
        escrow_tx_id: None,
        node_pubkey: [3u8; 32],
        signature: vec![],
    }
}

fn ack(proofs: Vec<ProofOfInference>) -> CompletionAck {
    CompletionAck { request_id: 77, proofs, aggregated_output_hash: [9u8; 32] }
}

fn addresses() -> TextMap<String> {
    let mut m = TextMap::new();
    m.insert("12D3KooWPrimary".to_string(), "0xprimary".to_string());
    m.insert("12D3KooWHelper".to_string(), "0xhelper".to_string());
    m
}

#[test]
fn payouts_follow_proofs_with_known_addresses() {
    let a = ack(vec![proof_by("12D3KooWPrimary", 500), proof_by("12D3KooWUnknown", 7), proof_by("12D3KooWHelper", 200)]);
    let lines = compute_payouts(&a, &addresses());
    assert_eq!(lines.len(), 2);
    assert_eq!(lines[0].peer_id, "12D3KooWPrimary");
    assert_eq!(lines[0].sui_address, "0xprimary");
    assert_eq!(lines[0].amount_nanox, 500);
    assert_eq!(lines[1].peer_id, "12D3KooWHelper");
    assert_eq!(lines[1].amount_nanox, 200);
    let total: u64 = lines.iter().map(|l| l.amount_nanox).sum();
    assert!(total <= 707);
}

#[test]
fn in_flight_table_lifecycle() {
    let mut t = InFlightTable::new();
    t.publish(77, 1);
    t.set_payout_addresses(77, addresses());
    t.set_payout_addresses(99, TextMap::new());
    let m = t.take(77).unwrap();
    assert_eq!(m.session_id, 1);
    assert_eq!(m.client_id, "");
    assert_eq!(m.bid_set_hash, [0u8; 32]);
    assert_eq!(m.payout_addresses.get("12D3KooWHelper").unwrap(), "0xhelper");
    assert!(t.take(77).is_none());
    assert!(t.take(99).is_none());
}

#[test]
fn receipt_names_primary_and_helpers() {
    let meta = InFlightMeta {
        client_id: "test-client".to_string(),
        bid_set_hash: [4u8; 32],
        payout_addresses: addresses(),
        session_id: 5,
    };
    let a = ack(vec![proof_by("12D3KooWPrimary", 500), proof_by("12D3KooWHelper", 200)]);
    let done = assemble_receipt(&a, Some(meta), "12D3KooWSender", vec![[8u8; 32], [6u8; 32]], 1_700_000_000_000);
    let r = &done.receipt;
    assert_eq!(r.request_id, 77);
    assert_eq!(r.client_id, "test-client");
    assert_eq!(r.bid_set_hash, [4u8; 32]);
    assert_eq!(r.primary_peer_id.0, "12D3KooWPrimary");
    assert_eq!(r.helper_peer_ids.len(), 1);
    assert_eq!(r.helper_peer_ids[0].0, "12D3KooWHelper");
    assert_eq!(r.proof_ids, vec![[8u8; 32], [6u8; 32]]);
    assert_eq!(r.aggregated_output_hash, [9u8; 32]);
    assert_eq!(r.payouts.len(), 2);
    assert_eq!(r.payouts[0].sui_address, "0xprimary");
    assert_eq!(r.payouts[0].amount_nanox, 500);
    assert_eq!(r.timestamp_ms, 1_700_000_000_000);
    assert_eq!(r.coordinator_pubkey, [0u8; 32]);
    assert!(r.signature.is_empty());
    assert_eq!(done.session_id, Some(5));
    assert_eq!(warm_peers(r), vec!["12D3KooWPrimary".to_string(), "12D3KooWHelper".to_string()]);
}

#[test]
fn receipt_without_meta_or_proofs_falls_back_to_sender() {
    let done = assemble_receipt(&ack(vec![]), None, "12D3KooWSender", vec![], 5);
    assert_eq!(done.receipt.primary_peer_id.0, "12D3KooWSender");
    assert_eq!(done.receipt.client_id, "");
    assert_eq!(done.receipt.bid_set_hash, [0u8; 32]);
    assert!(done.receipt.helper_peer_ids.is_empty());
    assert!(done.receipt.payouts.is_empty());
    assert!(done.payout_lines.is_empty());
    assert_eq!(done.session_id, None);
}

fn receipt(request_id: u128, client: &str) -> RoutingReceipt {
    RoutingReceipt {
        request_id,
        client_id: client.to_string(),
        primary_peer_id: NodePeerId("12D3KooWPrimary".to_string()),
        helper_peer_ids: vec![NodePeerId("12D3KooWHelper".to_string())],
        bid_set_hash: [1u8; 32],
        proof_ids: vec![[2u8; 32]],
        aggregated_output_hash: [3u8; 32],
        payouts: vec![],
        timestamp_ms: 1_700_000_000_000,
        coordinator_pubkey: [4u8; 32],
        signature: vec![5u8; 64],
    }
}

#[test]
fn archive_get_returns_what_put_stored() {
    let mut a = InMemoryReceiptArchive::new();
    assert!(a.get(1).is_none());
    a.put(receipt(1, "integration-test-client"));
    a.put(receipt(2, "other"));
    a.put(receipt(1, "replaced"));
    assert_eq!(a.len(), 2);
    let r = a.get(1).unwrap();
    assert_eq!(r.client_id, "replaced");
    assert_eq!(r.primary_peer_id.0, "12D3KooWPrimary");
    assert_eq!(r.signature, vec![5u8; 64]);
    assert!(a.get(3).is_none());
}

#[test]
fn receipt_duplicate_is_equal() {
    let r = receipt(9, "c");
    let d = r.duplicate();
    assert_eq!(d.request_id, 9);
    assert_eq!(d.client_id, "c");
    assert_eq!(d.helper_peer_ids[0].0, "12D3KooWHelper");
    assert_eq!(d.signature, r.signature);
}

fn request(id: u128) -> InferenceRequest {
    InferenceRequest {
        request_id: id,
        session_id: 0,
        model: "qwen-72b".to_string(),
        privacy: PrivacyLevel::Standard,
        accepted_settlements: vec!["free".to_string()],
    }
}

#[test]
fn meshes_deliver_seeded_bids_for_the_request() {
    assert!(NoopMesh.publish_request(&request(1)).is_empty());
    let mut mesh = InMemoryMesh::new();
    assert!(mesh.publish_request(&request(1)).is_empty());
    let seeded = InferenceBid {
        request_id: 0,
        node_peer_id: NodePeerId("enc-test-node".to_string()),
        price_per_1k: NanoX(50),
        latency_ms: 300,
        reputation_bits: 0.9f32.to_bits(),
        http_endpoint: "http://enc-node.test:5000".to_string(),
        payout_address: String::new(),
        node_x25519_pubkey: Some("ab".to_string()),
    };
    mesh.seed_bids(vec![seeded]);
    let bids = mesh.publish_request(&request(42));
    assert_eq!(bids.len(), 1);
    assert_eq!(bids[0].request_id, 42);
    assert_eq!(bids[0].node_peer_id.0, "enc-test-node");
    assert_eq!(bids[0].price_per_1k, NanoX(50));
    assert_eq!(bids[0].node_x25519_pubkey.as_deref(), Some("ab"));
}

fn reason(r: &CompletionReply) -> Option<String> {
    match r {
        CompletionReply::Rejected(m) => Some(m.clone()),
        CompletionReply::Accepted => None,
    }
}

#[test]
fn completion_rejects_in_order() {
    let a = completion_step(Err("bad sig".into()), Err("bad proof".into()), true, true, true, false, true, true);
    assert_eq!(reason(&a.reply).unwrap(), "primary signature invalid: bad sig");
    assert!(!a.archive && !a.mark_warm && !a.insert_payments && !a.enqueue_settlement);
    let a = completion_step(Ok(()), Err("bad proof".into()), true, true, true, false, true, true);
    assert_eq!(reason(&a.reply).unwrap(), "proof invalid: bad proof");
    assert!(!a.archive);
    let a = completion_step(Ok(()), Ok(()), false, true, true, false, true, true);
    assert_eq!(reason(&a.reply).unwrap(), "storage error");
    assert!(a.archive && !a.mark_warm && !a.insert_payments && !a.enqueue_settlement);
}

#[test]
fn completion_accepts_and_settles_only_after_insert() {
    let a = completion_step(Ok(()), Ok(()), true, true, true, false, true, true);
    assert!(reason(&a.reply).is_none());
    assert!(a.archive && a.mark_warm && a.insert_payments && a.enqueue_settlement);
    let a = completion_step(Ok(()), Ok(()), true, true, true, false, false, true);
    assert!(a.insert_payments && !a.enqueue_settlement);
    let a = completion_step(Ok(()), Ok(()), true, true, false, true, true, true);
    assert!(!a.mark_warm && !a.insert_payments && !a.enqueue_settlement);
    let a = completion_step(Ok(()), Ok(()), true, false, true, false, true, true);
    assert!(reason(&a.reply).is_none());
    assert!(!a.mark_warm && !a.insert_payments && !a.enqueue_settlement);
    let a = completion_step(Ok(()), Ok(()), true, true, true, false, true, false);
    assert!(a.insert_payments && !a.enqueue_settlement);
}

use coordinator::clock::now_ms;
use sha2::Digest;
use coordinator::config::{Config, ConfigError};
use coordinator::health::{enclave_health, uptime_ms};
use coordinator::models::{baseline_pricing, list_models};
use coordinator::nodes::list_nodes;
use coordinator::onchain::{
    after_failed_attempt, next_backoff_secs, registration_from_reply, registration_step, settle_request, sidecar_settings,
    RegisteredEnclave, RegistrationStep, RetryStep, SidecarConfigError, INITIAL_BACKOFF_SECS, MAX_BACKOFF_SECS,
};
use coordinator::pem::cert_fingerprint_from_pem;
use coordinator::protocol::{Payout, RoutingReceipt};
use coordinator::registry::PeerRegistry;
use coordinator::settlement::{EscrowParams, FreeSettlement, ReceiptSettlement, SettlementAdapter};
use coordinator::tls::{generate_self_signed_tls, san_ips_from, self_signed_sans, tls_from_generated, TlsError};
use coordinator::types::{NanoX, NodeCapabilities, NodePeerId};

#[test]
fn config_defaults_and_required_urls() {
    let c = Config::from_values(None, None, Some("postgres://db".into()), Some("redis://r".into()), None, None).unwrap();
    assert_eq!(c.bind_addr, "127.0.0.1:4000");
    assert_eq!(c.libp2p_listen, "/ip4/0.0.0.0/tcp/0");
    assert_eq!(c.database_url, "postgres://db");
    assert_eq!(c.redis_url, "redis://r");
    assert!(!c.has_tls_certs());
    let c = Config::from_values(
        Some("0.0.0.0:443".into()),
        Some("/ip4/0.0.0.0/tcp/4001".into()),
        Some("d".into()),
        Some("r".into()),
        Some("CERT".into()),
        Some("KEY".into()),
    )
    .unwrap();
    assert_eq!(c.bind_addr, "0.0.0.0:443");
    assert!(c.has_tls_certs());
    let half = Config::from_values(None, None, Some("d".into()), Some("r".into()), Some("CERT".into()), None).unwrap();
    assert!(!half.has_tls_certs());
    assert_eq!(
        Config::from_values(None, None, None, Some("r".into()), None, None).err(),
        Some(ConfigError::MissingDatabaseUrl)
    );
    assert_eq!(
        Config::from_values(None, None, Some("d".into()), None, None, None).err(),
        Some(ConfigError::MissingRedisUrl)
    );
}

#[test]
fn enclave_health_returns_pubkey_and_uptime() {
    let mut pk = [0u8; 32];
    pk[0] = 0xab;
    pk[31] = 0x01;
    let x = [0xffu8; 32];
    let reg = RegisteredEnclave { tx_digest: "TX".into(), enclave_object_id: "0xobj".into() };
    let h = enclave_health(&pk, &x, Some("12D3KooWSelf".into()), uptime_ms(1_500, 1_000), Some(&reg));
    assert_eq!(h.public_key_hex.len(), 64);
    assert_eq!(&h.public_key_hex[..2], "ab");
    assert_eq!(&h.public_key_hex[62..], "01");
    assert_eq!(h.x25519_pubkey_hex, "ff".repeat(32));
    assert_eq!(h.uptime_ms, 500);
    assert_eq!(h.peer_id.as_deref(), Some("12D3KooWSelf"));
    assert_eq!(h.enclave_object_id.as_deref(), Some("0xobj"));
    assert_eq!(h.sui_tx_digest.as_deref(), Some("TX"));
    let h = enclave_health(&pk, &x, None, 0, None);
    assert!(h.enclave_object_id.is_none());
    assert!(h.sui_tx_digest.is_none());
    assert_eq!(uptime_ms(5, 10), 0);
}

#[test]
fn baseline_pricing_tiers() {
    let p = baseline_pricing("qwen-72b");
    assert_eq!((p.input_per_1m_tokens_nanox, p.output_per_1m_tokens_nanox), (50_000, 150_000));
    let p = baseline_pricing("Qwen2.5-72B-Instruct");
    assert_eq!((p.input_per_1m_tokens_nanox, p.output_per_1m_tokens_nanox), (50_000, 150_000));
    let p = baseline_pricing("qwen-32b");
    assert_eq!((p.input_per_1m_tokens_nanox, p.output_per_1m_tokens_nanox), (20_000, 60_000));
    let p = baseline_pricing("llama-8b");
    assert_eq!((p.input_per_1m_tokens_nanox, p.output_per_1m_tokens_nanox), (5_000, 15_000));
}

fn caps(peer: &str, models: &[&str]) -> NodeCapabilities {
    NodeCapabilities {
        peer_id: NodePeerId(peer.into()),
        models: models.iter().map(|m| m.to_string()).collect(),
        max_concurrent_jobs: 2,
    }
}

#[test]
fn models_are_counted_sorted_and_priced() {
    let mut reg = PeerRegistry::new(60_000);
    reg.upsert_at("p1".into(), caps("p1", &["qwen-72b", "llama-8b"]), vec![], 1);
    reg.upsert_at("p2".into(), caps("p2", &["qwen-72b"]), vec![], 2);
    let list = list_models(&reg);
    assert_eq!(list.object, "list");
    assert_eq!(list.data.len(), 2);
    assert_eq!(list.data[0].id, "llama-8b");
    assert_eq!(list.data[0].nodes_available, 1);
    assert_eq!(list.data[0].pricing.input_per_1m_tokens_nanox, 5_000);
    assert_eq!(list.data[1].id, "qwen-72b");
    assert_eq!(list.data[1].nodes_available, 2);
    assert_eq!(list.data[1].object, "model");
    assert_eq!(list.data[1].owned_by, "pinaivu");
    assert!(list_models(&PeerRegistry::new(1)).data.is_empty());
}

#[test]
fn nodes_listing_mirrors_registry() {
    let mut reg = PeerRegistry::new(60_000);
    reg.upsert_at("p1".into(), caps("p1", &["m"]), vec!["/ip4/1.2.3.4/tcp/1".into()], 7);
    let nodes = list_nodes(&reg);
    assert_eq!(nodes.len(), 1);
    assert_eq!(nodes[0].peer_id, "p1");
    assert_eq!(nodes[0].models, vec!["m".to_string()]);
    assert_eq!(nodes[0].max_concurrent_jobs, 2);
    assert_eq!(nodes[0].multiaddrs, vec!["/ip4/1.2.3.4/tcp/1".to_string()]);
    assert_eq!(nodes[0].last_seen_ms, 7);
}

#[test]
fn registration_reply_handling() {
    let (r, forward) = registration_from_reply("TX".into(), Some("0xobj".into()));
    assert_eq!(r.enclave_object_id, "0xobj");
    assert_eq!(r.tx_digest, "TX");
    assert!(forward);
    let (r, forward) = registration_from_reply("TX".into(), None);
    assert_eq!(r.enclave_object_id, "<missing>");
    assert!(!forward);
}

#[test]
fn registration_retries_with_capped_backoff() {
    assert_eq!(after_failed_attempt(1, 60), RetryStep::Retry);
    assert_eq!(after_failed_attempt(60, 60), RetryStep::GiveUp);
    let mut b = INITIAL_BACKOFF_SECS;
    let mut seen = vec![b];
    for _ in 0..6 {
        b = next_backoff_secs(b);
        seen.push(b);
    }
    assert_eq!(seen, vec![2, 4, 8, 16, 32, 60, 60]);
    assert!(seen.iter().all(|s| *s <= MAX_BACKOFF_SECS));
}

#[test]
fn sidecar_settings_need_a_secret() {
    assert!(matches!(sidecar_settings(Some("http://x".into()), None), Err(SidecarConfigError::MissingSecret)));
    let s = sidecar_settings(None, Some("sec".into())).ok().unwrap();
    assert_eq!(s.base_url, "http://127.0.0.1:8200");
    assert_eq!(s.secret, "sec");
    let s = sidecar_settings(Some("http://sidecar:9".into()), Some("sec".into())).ok().unwrap();
    assert_eq!(s.base_url, "http://sidecar:9");
}

#[test]
fn settle_request_encodes_receipt_fields() {
    let receipt = RoutingReceipt {
        request_id: 0x0123_4567_89ab_cdef_0123_4567_89ab_cdef,
        client_id: "c".into(),
        primary_peer_id: NodePeerId("p".into()),
        helper_peer_ids: vec![],
        bid_set_hash: [0u8; 32],
        proof_ids: vec![],
        aggregated_output_hash: [0xabu8; 32],
        payouts: vec![Payout { sui_address: "0xpay".into(), amount_nanox: 12 }],
        timestamp_ms: 99,
        coordinator_pubkey: [0u8; 32],
        signature: vec![0x01, 0xfe],
    };
    let req = settle_request(&receipt, "0xpayee", 12);
    assert_eq!(req.request_id, "01234567-89ab-cdef-0123-456789abcdef");
    assert_eq!(req.payee_sui_address, "0xpayee");
    assert_eq!(req.amount_nanox, 12);
    assert_eq!(req.timestamp_ms, 99);
    assert_eq!(req.aggregated_output_hash, "ab".repeat(32));
    assert_eq!(req.signature, "01fe");
    assert_eq!(req.payouts.len(), 1);
    assert_eq!(req.payouts[0].sui_address, "0xpay");
    assert_eq!(req.payouts[0].amount_nanox, 12);
}

#[test]
fn settlement_adapters_issue_offchain_handles() {
    let params = || EscrowParams {
        request_id: 3,
        amount_nanox: NanoX(10),
        client_address: "c".into(),
        node_address: "n".into(),
        token_id: None,
    };
    let h = FreeSettlement.lock_funds(params()).ok().unwrap();
    assert_eq!(FreeSettlement.id(), "free");
    assert_eq!(h.settlement_id, "free");
    assert_eq!(h.request_id, 3);
    assert_eq!(h.amount_nanox, NanoX(10));
    assert_eq!(h.payload_json, "{}");
    assert!(FreeSettlement.refund_funds(&h).is_ok());
    let h = ReceiptSettlement.lock_funds(params()).ok().unwrap();
    assert_eq!(ReceiptSettlement.id(), "receipt");
    assert_eq!(h.settlement_id, "receipt");
    assert!(h.chain_tx_id.is_none());
}

const PEM: &str = "-----BEGIN CERTIFICATE-----\naGVsbG8gZGVy\n-----END CERTIFICATE-----\n";

#[test]
fn fingerprint_is_sha256_of_der() {
    assert_eq!(
        cert_fingerprint_from_pem(PEM.as_bytes()).unwrap(),
        "02bfa9e25620bbb46912d0e916bb4bc1aa5001e93652bbbb3b70d335be1347b9"
    );
}

#[test]
fn fingerprint_joins_body_lines_and_skips_preamble() {
    let pem = "subject=CN\r\n-----BEGIN CERTIFICATE-----\r\naGVsbG8g\r\nZGVyIHdvcmxk\r\n-----END CERTIFICATE-----\r\n-----BEGIN CERTIFICATE-----\r\nAAAA\r\n";
    assert_eq!(
        cert_fingerprint_from_pem(pem.as_bytes()).unwrap(),
        "f329dae8c00ca0363c7f935640bd4233669a119de4d6541dc9924a5d0035dc80"
    );
}

#[test]
fn fingerprint_failures_and_empty_body() {
    assert_eq!(cert_fingerprint_from_pem(&[0xff, 0xfe, 0x00]), None);
    let bad = "-----BEGIN CERTIFICATE-----\n!!!not-base64!!!\n-----END CERTIFICATE-----\n";
    assert_eq!(cert_fingerprint_from_pem(bad.as_bytes()), None);
    // No certificate block: the empty body decodes to no bytes.
    assert_eq!(
        cert_fingerprint_from_pem(b"nothing here"),
        Some("e3b0c44298fc1c149afbf4c8996fb92427ae41e4649b934ca495991b7852b855".to_string())
    );
}

#[test]
fn san_ips_drop_empty_fields() {
    assert_eq!(san_ips_from(""), Vec::<String>::new());
    assert_eq!(san_ips_from("10.0.0.1"), vec!["10.0.0.1".to_string()]);
    assert_eq!(
        san_ips_from(",10.0.0.1,,192.168.1.2,"),
        vec!["10.0.0.1".to_string(), "192.168.1.2".to_string()]
    );
    assert_eq!(san_ips_from(" a , b"), vec![" a ".to_string(), " b".to_string()]);
}

#[test]
fn self_signed_names_start_with_localhost() {
    assert_eq!(self_signed_sans(&vec![]), vec!["localhost".to_string()]);
    assert_eq!(
        self_signed_sans(&san_ips_from("10.0.0.1,10.0.0.2")),
        vec!["localhost".to_string(), "10.0.0.1".to_string(), "10.0.0.2".to_string()]
    );
}

#[test]
fn clock_reads_after_2020() {
    assert!(now_ms() > 1_577_836_800_000);
}

#[test]
fn self_signed_certificate_fingerprint_matches_its_der_and_pem() {
    let t = generate_self_signed_tls(&san_ips_from("10.0.0.1,127.0.0.1")).ok().unwrap();
    assert_eq!(t.fingerprint, hex::encode(sha2::Sha256::digest(&t.cert_der)));
    assert_eq!(t.fingerprint.len(), 64);
    assert!(t.cert_pem.contains("-----BEGIN CERTIFICATE-----"));
    assert!(t.key_pem.contains("PRIVATE KEY"));
    assert_eq!(cert_fingerprint_from_pem(t.cert_pem.as_bytes()), Some(t.fingerprint.clone()));
    let other = generate_self_signed_tls(&vec![]).ok().unwrap();
    assert_ne!(other.fingerprint, t.fingerprint);
}

#[test]
fn self_signed_certificate_refuses_non_ascii_names() {
    assert_eq!(generate_self_signed_tls(&vec!["bücher.example".to_string()]).err(), Some(TlsError::Generation));
}

#[test]
fn generated_material_is_kept_and_fingerprinted() {
    let t = tls_from_generated(Ok(("CERT".to_string(), "KEY".to_string(), b"hello der".to_vec()))).ok().unwrap();
    assert_eq!(t.cert_pem, "CERT");
    assert_eq!(t.key_pem, "KEY");
    assert_eq!(t.cert_der, b"hello der".to_vec());
    assert_eq!(t.fingerprint, "02bfa9e25620bbb46912d0e916bb4bc1aa5001e93652bbbb3b70d335be1347b9");
    assert_eq!(tls_from_generated(Err(rcgen::Error::KeyGenerationUnavailable)).err(), Some(TlsError::Generation));
}

#[test]
fn registration_retries_until_it_lands() {
    let mut backoff = INITIAL_BACKOFF_SECS;
    let mut waits = vec![];
    for _ in 0..8 {
        match registration_step(None, backoff) {
            RegistrationStep::RetryAfter { wait_secs, next_backoff_secs } => {
                waits.push(wait_secs);
                backoff = next_backoff_secs;
            }
            RegistrationStep::Record(_) => panic!("a failure must retry"),
        }
    }
    assert_eq!(waits, vec![2, 4, 8, 16, 32, 60, 60, 60]);
    let reg = RegisteredEnclave { tx_digest: "TX".into(), enclave_object_id: "0xobj".into() };
    match registration_step(Some(reg), backoff) {
        RegistrationStep::Record(g) => {
            assert_eq!(g.tx_digest, "TX");
            assert_eq!(g.enclave_object_id, "0xobj");
        }
        RegistrationStep::RetryAfter { .. } => panic!("a success must be recorded"),
    }
}

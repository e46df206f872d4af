use coordinator::error::AppError;
use coordinator::keys::{
    account_id_param, bearer_token, generate_api_key, hash_api_key, key_limits, revoke_response, summarize_usage,
    usage_days, within_rpm, CreateKeyRequest, UsageQuery, UsageRecord,
};

#[test]
fn hash_is_sha256_hex() {
    assert_eq!(hash_api_key("abc"), "ba7816bf8f01cfea414140de5dae2223b00361a396177a9cb410ff61f20015ad");
    assert_eq!(hash_api_key("sk-pnv-test"), "55eb30bf9498681d2a81cac528125c47a70f82a28cd42b95e820c66c2083e371");
    assert_eq!(hash_api_key(""), "e3b0c44298fc1c149afbf4c8996fb92427ae41e4649b934ca495991b7852b855");
}

#[test]
fn generated_key_has_the_documented_format() {
    let k = generate_api_key();
    assert_eq!(k.raw.len(), 55);
    assert!(k.raw.starts_with("sk-pnv-"));
    assert!(k.raw[7..].chars().all(|c| c.is_ascii_alphanumeric()));
    assert_eq!(k.prefix, k.raw[..16].to_string());
    assert_eq!(k.hash, hash_api_key(&k.raw));
    let other = generate_api_key();
    assert_ne!(k.raw, other.raw);
}

#[test]
fn bearer_token_extraction() {
    assert_eq!(bearer_token(Some("Bearer sk-pnv-abc")), Some("sk-pnv-abc".to_string()));
    assert_eq!(bearer_token(Some("Bearer   sk-pnv-abc  ")), Some("sk-pnv-abc".to_string()));
    assert_eq!(bearer_token(Some("Bearer    ")), None);
    assert_eq!(bearer_token(Some("bearer sk-pnv-abc")), None);
    assert_eq!(bearer_token(Some("Basic abc")), None);
    assert_eq!(bearer_token(None), None);
}

#[test]
fn account_id_must_be_a_uuid() {
    assert!(matches!(
        account_id_param(Some("00000000-0000-0000-0000-00000000002a")),
        Ok(0x2a)
    ));
    match account_id_param(Some("nope")) {
        Err(AppError::BadRequest(m)) => assert_eq!(m, "account_id query param required"),
        _ => panic!("expected BadRequest"),
    }
    assert!(matches!(account_id_param(None), Err(AppError::BadRequest(_))));
}

#[test]
fn rpm_window_admits_up_to_the_limit() {
    assert!(within_rpm(1, 10));
    assert!(within_rpm(10, 10));
    assert!(!within_rpm(11, 10));
    assert!(!within_rpm(1, 0));
}

#[test]
fn key_limits_default_to_ten_and_hundred() {
    let req = CreateKeyRequest { account_id: 1, name: None, rpm_limit: None, daily_limit: None };
    assert_eq!(key_limits(&req), (10, 100));
    let req = CreateKeyRequest { account_id: 1, name: Some("ci".into()), rpm_limit: Some(5), daily_limit: Some(7) };
    assert_eq!(key_limits(&req), (5, 7));
}

#[test]
fn revoke_reports_whether_a_row_changed() {
    assert!(revoke_response(1).revoked);
    assert!(!revoke_response(0).revoked);
}

#[test]
fn usage_days_are_clamped() {
    assert_eq!(usage_days(&UsageQuery { days: None }), 30);
    assert_eq!(usage_days(&UsageQuery { days: Some(7) }), 7);
    assert_eq!(usage_days(&UsageQuery { days: Some(0) }), 1);
    assert_eq!(usage_days(&UsageQuery { days: Some(-5) }), 1);
    assert_eq!(usage_days(&UsageQuery { days: Some(365) }), 90);
    assert_eq!(usage_days(&UsageQuery { days: Some(90) }), 90);
}

fn record(input: i32, output: i32, cost: i64) -> UsageRecord {
    UsageRecord {
        request_id: None,
        model: "qwen-72b".to_string(),
        input_tokens: input,
        output_tokens: output,
        cost_nanox: cost,
        latency_ms: Some(10),
        created_at: "2024-01-01T00:00:00Z".to_string(),
    }
}

#[test]
fn usage_summary_totals() {
    let s = summarize_usage(vec![record(10, 20, 300), record(1, 2, 3), record(0, 0, 0)]);
    assert_eq!(s.total_requests, 3);
    assert_eq!(s.total_input_tokens, 11);
    assert_eq!(s.total_output_tokens, 22);
    assert_eq!(s.total_cost_nanox, 303);
    assert_eq!(s.records.len(), 3);
    let empty = summarize_usage(vec![]);
    assert_eq!(empty.total_requests, 0);
    assert_eq!(empty.total_cost_nanox, 0);
}

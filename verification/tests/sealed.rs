use aes_gcm::aead::{Aead, KeyInit};
use base64::Engine;
use coordinator::error::AppError;
use coordinator::inference::{ChatCompletionRequest, ChatMessage};
use coordinator::sealed::open_sealed_messages;
use sha2::Digest;

const ENCLAVE_SECRET: [u8; 32] = [7u8; 32];

fn b64(bytes: &[u8]) -> String {
    base64::engine::general_purpose::STANDARD.encode(bytes)
}

fn enclave_public() -> [u8; 32] {
    x25519_dalek::PublicKey::from(&x25519_dalek::StaticSecret::from(ENCLAVE_SECRET)).to_bytes()
}

/// What a client does: ECDH with the enclave key, SHA-256 under the
/// label, AES-256-GCM. Returns (client public hex, ciphertext, nonce).
fn seal(enclave_pub: [u8; 32], client_secret: [u8; 32], nonce: [u8; 12], plaintext: &[u8]) -> (String, Vec<u8>, [u8; 12]) {
    let client = x25519_dalek::StaticSecret::from(client_secret);
    let client_pub = x25519_dalek::PublicKey::from(&client);
    let shared = client.diffie_hellman(&x25519_dalek::PublicKey::from(enclave_pub)).to_bytes();
    let mut h = sha2::Sha256::new();
    h.update(b"pinaivu-aes-key-v1");
    h.update(shared);
    let key: [u8; 32] = h.finalize().into();
    let cipher = aes_gcm::Aes256Gcm::new(aes_gcm::Key::<aes_gcm::Aes256Gcm>::from_slice(&key));
    let ct = cipher.encrypt(aes_gcm::Nonce::from_slice(&nonce), plaintext).unwrap();
    (hex::encode(client_pub.as_bytes()), ct, nonce)
}

fn request(key: Option<String>, ct: Option<String>, nonce: Option<String>) -> ChatCompletionRequest {
    ChatCompletionRequest {
        model: "qwen-72b".to_string(),
        messages: vec![ChatMessage { role: "user".to_string(), content: "hello".to_string() }],
        client_pubkey_hex: "00".repeat(32),
        max_price_nanox: None,
        privacy: None,
        accepted_settlements: vec![],
        client_x25519_pubkey_hex: key,
        messages_encrypted: ct,
        messages_nonce: nonce,
    }
}

fn refusal(r: Result<Option<Vec<u8>>, AppError>) -> String {
    match r {
        Err(AppError::BadRequest(m)) => m,
        _ => panic!("expected a bad request"),
    }
}

const PLAIN: &[u8] = br#"[{"role":"user","content":"what is 2 + 2?"}]"#;

#[test]
fn plaintext_request_still_works() {
    assert!(matches!(open_sealed_messages(&ENCLAVE_SECRET, &request(None, None, None)), Ok(None)));
}

#[test]
fn encrypted_request_opens() {
    let (k, ct, n) = seal(enclave_public(), [9u8; 32], [1u8; 12], PLAIN);
    let r = open_sealed_messages(&ENCLAVE_SECRET, &request(Some(k), Some(b64(&ct)), Some(b64(&n))));
    assert_eq!(r.ok().unwrap().unwrap(), PLAIN.to_vec());
}

#[test]
fn partial_encrypted_fields_rejected() {
    let r = open_sealed_messages(&ENCLAVE_SECRET, &request(Some("ab".repeat(32)), None, None));
    assert_eq!(refusal(r), "client_x25519_pubkey_hex, messages_encrypted and messages_nonce go together");
    let r = open_sealed_messages(&ENCLAVE_SECRET, &request(None, Some("AAAA".into()), Some("AAAA".into())));
    assert_eq!(refusal(r), "client_x25519_pubkey_hex, messages_encrypted and messages_nonce go together");
}

#[test]
fn corrupted_ciphertext_rejected() {
    let (k, mut ct, n) = seal(enclave_public(), [9u8; 32], [2u8; 12], PLAIN);
    *ct.last_mut().unwrap() ^= 0xff;
    let r = open_sealed_messages(&ENCLAVE_SECRET, &request(Some(k), Some(b64(&ct)), Some(b64(&n))));
    assert_eq!(refusal(r), "messages could not be decrypted");
}

#[test]
fn wrong_key_ciphertext_rejected() {
    let (k, _, n) = seal(enclave_public(), [9u8; 32], [3u8; 12], PLAIN);
    let (_, wrong_ct, _) = seal([0xde_u8; 32], [9u8; 32], [3u8; 12], PLAIN);
    let r = open_sealed_messages(&ENCLAVE_SECRET, &request(Some(k), Some(b64(&wrong_ct)), Some(b64(&n))));
    assert_eq!(refusal(r), "messages could not be decrypted");
}

#[test]
fn invalid_nonce_base64_rejected() {
    let (k, ct, _) = seal(enclave_public(), [9u8; 32], [4u8; 12], PLAIN);
    let r = open_sealed_messages(&ENCLAVE_SECRET, &request(Some(k.clone()), Some(b64(&ct)), Some("!!!not-base64!!!".into())));
    assert_eq!(refusal(r), "messages_nonce must be 12 bytes of base64");
    let r = open_sealed_messages(&ENCLAVE_SECRET, &request(Some(k), Some(b64(&ct)), Some(b64(&[0u8; 8]))));
    assert_eq!(refusal(r), "messages_nonce must be 12 bytes of base64");
}

#[test]
fn bad_client_key_and_ciphertext_encoding_rejected() {
    let r = open_sealed_messages(&ENCLAVE_SECRET, &request(Some("zz".into()), Some("AAAA".into()), Some(b64(&[0u8; 12]))));
    assert_eq!(refusal(r), "client_x25519_pubkey_hex must be 32 bytes of hex");
    let r = open_sealed_messages(&ENCLAVE_SECRET, &request(Some("ab".repeat(32)), Some("***".into()), Some(b64(&[0u8; 12]))));
    assert_eq!(refusal(r), "messages_encrypted must be base64");
}

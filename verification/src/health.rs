//! Liveness and attestation replies.

use vstd::prelude::*;

use crate::codec::{hex_encode, hex_encoded};
use crate::onchain::RegisteredEnclave;

verus! {

/// Reply of `GET /enclave_health`.
pub struct EnclaveHealthResponse {
    pub public_key_hex: String,
    /// X25519 public key derived from the same enclave seed, in hex.
    pub x25519_pubkey_hex: String,
    pub peer_id: Option<String>,
    pub uptime_ms: u64,
    /// Set once the registration task completes.
    pub enclave_object_id: Option<String>,
    pub sui_tx_digest: Option<String>,
}

/// Milliseconds since start, zero if the clock reads earlier than the
/// start.
pub fn uptime_ms(now_ms: u64, started_at_ms: u64) -> (r: u64)
    ensures
        r == (if now_ms >= started_at_ms { now_ms - started_at_ms } else { 0 }),
{
    if now_ms >= started_at_ms { now_ms - started_at_ms } else { 0 }
}

/// Build the health reply from the enclave's Ed25519 and X25519 public
/// keys, its libp2p peer id (when derivable), its uptime and its
/// on-chain registration (when done).
pub fn enclave_health(
    public_key: &[u8; 32],
    x25519_public_key: &[u8; 32],
    peer_id: Option<String>,
    uptime_ms: u64,
    registration: Option<&RegisteredEnclave>,
) -> (r: EnclaveHealthResponse)
    ensures
        r.public_key_hex@ == hex_encoded(public_key@),
        r.x25519_pubkey_hex@ == hex_encoded(x25519_public_key@),
        r.peer_id == peer_id,
        r.uptime_ms == uptime_ms,
        r.enclave_object_id is Some <==> registration is Some,
        r.sui_tx_digest is Some <==> registration is Some,
        registration matches Some(g) ==> r.enclave_object_id->0@ == g.enclave_object_id@
            && r.sui_tx_digest->0@ == g.tx_digest@,
{
    let (enclave_object_id, sui_tx_digest) = match registration {
        Some(g) => (Some(g.enclave_object_id.clone()), Some(g.tx_digest.clone())),
        None => (None, None),
    };
    EnclaveHealthResponse {
        public_key_hex: hex_encode(public_key),
        x25519_pubkey_hex: hex_encode(x25519_public_key),
        peer_id,
        uptime_ms,
        enclave_object_id,
        sui_tx_digest,
    }
}

} // verus!

//! Signed protocol artefacts that travel between client, coordinator
//! and GPU nodes, held as plain values.
//!
//! This library cannot sign or verify them: their canonical encoding,
//! proof ids and Ed25519 signatures belong to the marketplace protocol
//! crate and the enclave key, neither of which this library links. The
//! artefacts it builds leave the signature empty and the signer's key
//! zero.

use vstd::prelude::*;

use crate::types::{NanoX, NodePeerId, RequestId, SessionId};

verus! {

/// Errors returned when a signed artefact fails to verify.
#[derive(Clone, Copy, PartialEq, Eq, Structural, Debug)]
pub enum VerifyError {
    /// The public key bytes are not a valid Ed25519 verifying key.
    InvalidPublicKey,
    /// The signature bytes are not a well-formed Ed25519 signature.
    InvalidSignatureBytes,
    /// The signature does not verify against the embedded public key.
    SignatureMismatch,
}

/// A node-signed execution receipt.
pub struct ProofOfInference {
    pub request_id: RequestId,
    pub session_id: SessionId,
    pub node_peer_id: NodePeerId,
    pub client_address: String,
    pub model_id: String,
    pub input_tokens: u32,
    pub output_tokens: u32,
    pub latency_ms: u32,
    pub price_paid_nanox: NanoX,
    pub timestamp: u64,
    pub input_hash: [u8; 32],
    pub output_hash: [u8; 32],
    pub settlement_id: String,
    pub escrow_tx_id: Option<String>,
    pub node_pubkey: [u8; 32],
    pub signature: Vec<u8>,
}

/// Signed dispatch token issued to a client after the auction.
pub struct DispatchToken {
    pub request_id: RequestId,
    pub client_pubkey: [u8; 32],
    pub primary_peer_id: NodePeerId,
    pub settlement_id: String,
    pub max_price_nanox: NanoX,
    pub issued_at_ms: u64,
    pub deadline_ms: u64,
    pub coordinator_pubkey: [u8; 32],
    pub signature: Vec<u8>,
}

/// One node's share of a settled request.
pub struct Payout {
    pub sui_address: String,
    pub amount_nanox: u64,
}

/// The post-completion audit artefact for a request.
pub struct RoutingReceipt {
    pub request_id: RequestId,
    pub client_id: String,
    pub primary_peer_id: NodePeerId,
    pub helper_peer_ids: Vec<NodePeerId>,
    pub bid_set_hash: [u8; 32],
    pub proof_ids: Vec<[u8; 32]>,
    pub aggregated_output_hash: [u8; 32],
    pub payouts: Vec<Payout>,
    pub timestamp_ms: u64,
    pub coordinator_pubkey: [u8; 32],
    pub signature: Vec<u8>,
}

/// A copy of a byte vector.
pub fn copy_bytes(v: &Vec<u8>) -> (r: Vec<u8>)
    ensures
        r@ == v@,
{
    let mut r: Vec<u8> = Vec::new();
    let mut i: usize = 0;
    while i < v.len()
        invariant
            i <= v@.len(),
            r@ == v@.take(i as int),
        decreases v@.len() - i,
    {
        r.push(v[i]);
        proof {
            assert(r@ =~= v@.take(i + 1));
        }
        i = i + 1;
    }
    proof {
        assert(v@.take(v@.len() as int) =~= v@);
    }
    r
}

/// A copy of a vector of 32-byte hashes.
pub fn copy_hashes(v: &Vec<[u8; 32]>) -> (r: Vec<[u8; 32]>)
    ensures
        r@ == v@,
{
    let mut r: Vec<[u8; 32]> = Vec::new();
    let mut i: usize = 0;
    while i < v.len()
        invariant
            i <= v@.len(),
            r@ == v@.take(i as int),
        decreases v@.len() - i,
    {
        r.push(v[i]);
        proof {
            assert(r@ =~= v@.take(i + 1));
        }
        i = i + 1;
    }
    proof {
        assert(v@.take(v@.len() as int) =~= v@);
    }
    r
}

/// Field-wise equality of two receipts.
pub open spec fn same_receipt(a: RoutingReceipt, b: RoutingReceipt) -> bool {
    &&& a.request_id == b.request_id
    &&& a.client_id@ == b.client_id@
    &&& a.primary_peer_id.0@ == b.primary_peer_id.0@
    &&& a.helper_peer_ids@.len() == b.helper_peer_ids@.len()
    &&& (forall|i: int| 0 <= i < a.helper_peer_ids@.len() ==> (#[trigger] a.helper_peer_ids@[i]).0@ == b.helper_peer_ids@[i].0@)
    &&& a.bid_set_hash == b.bid_set_hash
    &&& a.proof_ids@ == b.proof_ids@
    &&& a.aggregated_output_hash == b.aggregated_output_hash
    &&& a.payouts@.len() == b.payouts@.len()
    &&& (forall|i: int| 0 <= i < a.payouts@.len() ==> (#[trigger] a.payouts@[i]).sui_address@ == b.payouts@[i].sui_address@
        && a.payouts@[i].amount_nanox == b.payouts@[i].amount_nanox)
    &&& a.timestamp_ms == b.timestamp_ms
    &&& a.coordinator_pubkey == b.coordinator_pubkey
    &&& a.signature@ == b.signature@
}

impl RoutingReceipt {
    /// A copy of the receipt.
    pub fn duplicate(&self) -> (r: RoutingReceipt)
        ensures
            same_receipt(r, *self),
    {
        let mut helpers: Vec<NodePeerId> = Vec::new();
        let mut i: usize = 0;
        while i < self.helper_peer_ids.len()
            invariant
                i <= self.helper_peer_ids@.len(),
                helpers@.len() == i,
                forall|k: int| 0 <= k < i ==> (#[trigger] helpers@[k]).0@ == self.helper_peer_ids@[k].0@,
            decreases self.helper_peer_ids@.len() - i,
        {
            helpers.push(self.helper_peer_ids[i].duplicate());
            i = i + 1;
        }
        let mut payouts: Vec<Payout> = Vec::new();
        let mut j: usize = 0;
        while j < self.payouts.len()
            invariant
                j <= self.payouts@.len(),
                payouts@.len() == j,
                forall|k: int| 0 <= k < j ==> (#[trigger] payouts@[k]).sui_address@ == self.payouts@[k].sui_address@
                    && payouts@[k].amount_nanox == self.payouts@[k].amount_nanox,
            decreases self.payouts@.len() - j,
        {
            payouts.push(Payout {
                sui_address: self.payouts[j].sui_address.clone(),
                amount_nanox: self.payouts[j].amount_nanox,
            });
            j = j + 1;
        }
        RoutingReceipt {
            request_id: self.request_id,
            client_id: self.client_id.clone(),
            primary_peer_id: self.primary_peer_id.duplicate(),
            helper_peer_ids: helpers,
            bid_set_hash: self.bid_set_hash,
            proof_ids: copy_hashes(&self.proof_ids),
            aggregated_output_hash: self.aggregated_output_hash,
            payouts,
            timestamp_ms: self.timestamp_ms,
            coordinator_pubkey: self.coordinator_pubkey,
            signature: copy_bytes(&self.signature),
        }
    }
}

/// What the primary node reports once a request is served.
pub struct CompletionAck {
    pub request_id: RequestId,
    /// The primary node's proof first, then its helpers' proofs.
    pub proofs: Vec<ProofOfInference>,
    pub aggregated_output_hash: [u8; 32],
}

} // verus!

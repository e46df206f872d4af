//! Wire-format values shared between the coordinator, GPU nodes and
//! clients, held as plain values. Request and session identifiers are
//! the 128-bit values of their UUIDs.

use vstd::prelude::*;

verus! {

/// Identifier of a request (the 128-bit value of its UUID).
pub type RequestId = u128;

/// Identifier of a chat session (the 128-bit value of its UUID).
pub type SessionId = u128;

/// Identifier of a marketplace peer, in its textual form.
pub struct NodePeerId(pub String);

impl NodePeerId {
    /// A copy of the identifier.
    pub fn duplicate(&self) -> (r: NodePeerId)
        ensures
            r.0@ == self.0@,
    {
        NodePeerId(self.0.clone())
    }
}

/// Amount denominated in NanoX (1 X = 10^9 NanoX).
#[derive(Clone, Copy, PartialEq, Eq, Structural, Debug)]
pub struct NanoX(pub u64);

/// Privacy level a client asks for.
#[derive(Clone, Copy, PartialEq, Eq, Structural, Debug)]
pub enum PrivacyLevel {
    Standard,
    Private,
    Fragmented,
    /// Routes through the attested coordinator and fragments across two
    /// or more nodes; it does not require a TEE on the GPU node.
    Maximum,
}

/// What a node announces about itself.
pub struct NodeCapabilities {
    pub peer_id: NodePeerId,
    pub models: Vec<String>,
    pub max_concurrent_jobs: u32,
}

/// The value of a capability announcement.
pub struct CapabilitiesView {
    pub peer_id: Seq<char>,
    pub models: Seq<Seq<char>>,
    pub max_concurrent_jobs: u32,
}

/// Textual values of a sequence of strings.
pub open spec fn texts(v: Seq<String>) -> Seq<Seq<char>> {
    v.map_values(|s: String| s@)
}

/// A copy of a vector of strings.
pub fn copy_texts(v: &Vec<String>) -> (r: Vec<String>)
    ensures
        texts(r@) == texts(v@),
{
    let mut r: Vec<String> = Vec::new();
    let mut i: usize = 0;
    while i < v.len()
        invariant
            i <= v@.len(),
            r@.len() == i,
            forall|k: int| 0 <= k < i ==> (#[trigger] r@[k])@ == v@[k]@,
        decreases v@.len() - i,
    {
        let c = v[i].clone();
        r.push(c);
        i = i + 1;
    }
    proof {
        assert(texts(r@) =~= texts(v@));
    }
    r
}

impl NodeCapabilities {
    /// The announced values.
    pub open spec fn view(&self) -> CapabilitiesView {
        CapabilitiesView {
            peer_id: self.peer_id.0@,
            models: texts(self.models@),
            max_concurrent_jobs: self.max_concurrent_jobs,
        }
    }

    /// A copy of the announcement.
    pub fn duplicate(&self) -> (r: NodeCapabilities)
        ensures
            r.view() == self.view(),
    {
        NodeCapabilities {
            peer_id: self.peer_id.duplicate(),
            models: copy_texts(&self.models),
            max_concurrent_jobs: self.max_concurrent_jobs,
        }
    }
}

/// A request published to the marketplace.
pub struct InferenceRequest {
    pub request_id: RequestId,
    pub session_id: SessionId,
    pub model: String,
    pub privacy: PrivacyLevel,
    /// Settlement ids the client accepts, in preference order.
    pub accepted_settlements: Vec<String>,
}

/// A node's sealed bid for a request.
pub struct InferenceBid {
    pub request_id: RequestId,
    pub node_peer_id: NodePeerId,
    pub price_per_1k: NanoX,
    pub latency_ms: u32,
    /// Bit pattern of the node's binary32 reputation score.
    pub reputation_bits: u32,
    /// The node's own HTTP endpoint.
    pub http_endpoint: String,
    /// Sui address the node is paid at; empty when it declared none.
    pub payout_address: String,
    /// Hex X25519 public key of the node, when it accepts encrypted prompts.
    pub node_x25519_pubkey: Option<String>,
}

impl InferenceBid {
    /// A copy of the bid.
    pub fn duplicate(&self) -> (r: InferenceBid)
        ensures
            r.request_id == self.request_id,
            r.node_peer_id.0@ == self.node_peer_id.0@,
            r.price_per_1k == self.price_per_1k,
            r.latency_ms == self.latency_ms,
            r.reputation_bits == self.reputation_bits,
            r.http_endpoint@ == self.http_endpoint@,
            r.payout_address@ == self.payout_address@,
            r.node_x25519_pubkey is Some <==> self.node_x25519_pubkey is Some,
            r.node_x25519_pubkey matches Some(k) ==> k@ == self.node_x25519_pubkey->0@,
    {
        InferenceBid {
            request_id: self.request_id,
            node_peer_id: self.node_peer_id.duplicate(),
            price_per_1k: self.price_per_1k,
            latency_ms: self.latency_ms,
            reputation_bits: self.reputation_bits,
            http_endpoint: self.http_endpoint.clone(),
            payout_address: self.payout_address.clone(),
            node_x25519_pubkey: match &self.node_x25519_pubkey {
                Some(k) => Some(k.clone()),
                None => None,
            },
        }
    }
}

} // verus!

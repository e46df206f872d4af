//! The auction's view of the marketplace network when no live swarm is
//! attached: a mesh that never produces bids, and an in-memory mesh
//! that replays pre-seeded bids.

use vstd::prelude::*;
use vstd::string::StringExecFns;

use crate::inference::ChatMessage;
use crate::protocol::DispatchToken;
use crate::types::{InferenceBid, InferenceRequest, SessionId};

verus! {

/// A mesh that never produces bids.
pub struct NoopMesh;

impl NoopMesh {
    /// Publish a request: no bid ever arrives.
    pub fn publish_request(&self, request: &InferenceRequest) -> (r: Vec<InferenceBid>)
        ensures
            r@.len() == 0,
    {
        Vec::new()
    }
}

/// A bid as a mesh delivers it for `request_id`: the seeded bid with its
/// request id rewritten, every other field as seeded.
pub open spec fn delivered_as(d: InferenceBid, seeded: InferenceBid, request_id: u128) -> bool {
    &&& d.request_id == request_id
    &&& d.node_peer_id.0@ == seeded.node_peer_id.0@
    &&& d.price_per_1k == seeded.price_per_1k
    &&& d.latency_ms == seeded.latency_ms
    &&& d.reputation_bits == seeded.reputation_bits
    &&& d.http_endpoint@ == seeded.http_endpoint@
    &&& d.payout_address@ == seeded.payout_address@
    &&& (d.node_x25519_pubkey is Some <==> seeded.node_x25519_pubkey is Some)
    &&& (d.node_x25519_pubkey matches Some(k) ==> k@ == seeded.node_x25519_pubkey->0@)
}

/// The inference job sent to the winning node: its dispatch token, the
/// session it belongs to and the chat messages.
pub struct InferenceDispatch {
    pub dispatch_token: DispatchToken,
    pub session_id: SessionId,
    pub messages: Vec<ChatMessage>,
}

/// A node's reply to an inference job.
pub struct InferenceReply {
    pub request_id: u128,
    pub session_id: SessionId,
    pub content: String,
    pub input_tokens: u32,
    pub output_tokens: u32,
    pub latency_ms: u32,
    /// Set when the node failed the job.
    pub error: Option<String>,
}

/// A mesh that delivers a pre-seeded list of bids for every request.
pub struct InMemoryMesh {
    seeded: Vec<InferenceBid>,
}

impl InMemoryMesh {
    /// The bids that will be delivered next.
    pub closed spec fn seeded(&self) -> Seq<InferenceBid> {
        self.seeded@
    }

    /// A mesh with no seeded bid.
    pub fn new() -> (m: Self)
        ensures
            m.seeded().len() == 0,
    {
        InMemoryMesh { seeded: Vec::new() }
    }

    /// Replace the bids delivered for the next published request.
    pub fn seed_bids(&mut self, bids: Vec<InferenceBid>)
        ensures
            final(self).seeded() == bids@,
    {
        self.seeded = bids;
    }

    /// Publish a request: every seeded bid, in order, rewritten to carry
    /// the request's id.
    pub fn publish_request(&self, request: &InferenceRequest) -> (r: Vec<InferenceBid>)
        ensures
            r@.len() == self.seeded().len(),
            forall|i: int| 0 <= i < r@.len() ==> delivered_as(#[trigger] r@[i], self.seeded()[i], request.request_id),
    {
        let mut r: Vec<InferenceBid> = Vec::new();
        let mut i: usize = 0;
        while i < self.seeded.len()
            invariant
                i <= self.seeded@.len(),
                r@.len() == i,
                forall|k: int| 0 <= k < i ==> delivered_as(#[trigger] r@[k], self.seeded@[k], request.request_id),
            decreases self.seeded@.len() - i,
        {
            let mut bid = self.seeded[i].duplicate();
            bid.request_id = request.request_id;
            r.push(bid);
            i = i + 1;
        }
        r
    }
    /// Send an inference job to `peer`. There is no real node behind
    /// this mesh: the reply is a canned one naming the peer it was sent
    /// to, for the job's request and session, with 10 input tokens, 20
    /// output tokens, 5 ms latency and no error.
    pub fn dispatch_inference(&self, peer: &str, dispatch: &InferenceDispatch) -> (r: InferenceReply)
        ensures
            r.request_id == dispatch.dispatch_token.request_id,
            r.session_id == dispatch.session_id,
            r.content@ == "mock-reply-from-"@ + peer@,
            r.input_tokens == 10,
            r.output_tokens == 20,
            r.latency_ms == 5,
            r.error is None,
    {
        InferenceReply {
            request_id: dispatch.dispatch_token.request_id,
            session_id: dispatch.session_id,
            content: "mock-reply-from-".to_string().concat(peer),
            input_tokens: 10,
            output_tokens: 20,
            latency_ms: 5,
            error: None,
        }
    }
}

} // verus!

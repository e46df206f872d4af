//! Completion of a dispatched request: the per-request metadata the
//! mesh keeps while a request is in flight, and the routing receipt
//! assembled from a verified completion ack.

use vstd::prelude::*;
use vstd::string::StringExecFns;

use std::collections::HashMap;

use crate::payments::{compute_payouts, line_views, payout_lines, PayoutLine};
use crate::protocol::{CompletionAck, Payout, ProofOfInference, RoutingReceipt};
use crate::text_map::TextMap;
use crate::types::{NodePeerId, RequestId, SessionId};

verus! {

broadcast use vstd::std_specs::hash::group_hash_axioms;

/// Thirty-two zero bytes.
pub open spec fn zero_hash() -> Seq<u8> {
    Seq::new(32, |i: int| 0u8)
}

/// What the mesh remembers about a request between publishing it and
/// receiving its completion ack.
pub struct InFlightMeta {
    pub client_id: String,
    pub bid_set_hash: [u8; 32],
    /// Peer id to Sui payout address, from the bids the auction saw.
    pub payout_addresses: TextMap<String>,
    /// Session the request belongs to.
    pub session_id: SessionId,
}

/// Requests in flight, keyed by request id.
pub struct InFlightTable {
    pub table: HashMap<RequestId, InFlightMeta>,
}

impl InFlightTable {
    pub open spec fn view(&self) -> Map<RequestId, InFlightMeta> {
        self.table@
    }

    /// No request in flight.
    pub fn new() -> (t: Self)
        ensures
            t.view() == Map::<RequestId, InFlightMeta>::empty(),
    {
        InFlightTable { table: HashMap::new() }
    }

    /// Record a freshly published request: no client id, a zero bid-set
    /// hash, no payout addresses yet. Replaces any earlier record for the
    /// same id.
    pub fn publish(&mut self, request_id: RequestId, session_id: SessionId)
        ensures
            final(self).view().dom() == old(self).view().dom().insert(request_id),
            forall|k: RequestId| k != request_id && old(self).view().contains_key(k)
                ==> #[trigger] final(self).view()[k] == old(self).view()[k],
            final(self).view()[request_id].client_id@.len() == 0,
            final(self).view()[request_id].bid_set_hash@ == zero_hash(),
            final(self).view()[request_id].payout_addresses.view() == Map::<Seq<char>, String>::empty(),
            final(self).view()[request_id].session_id == session_id,
    {
        let meta = InFlightMeta {
            client_id: String::new(),
            bid_set_hash: [0u8; 32],
            payout_addresses: TextMap::new(),
            session_id,
        };
        self.table.insert(request_id, meta);
        proof {
            assert(final(self).view()[request_id].bid_set_hash@ =~= zero_hash());
            assert(final(self).view().dom() =~= old(self).view().dom().insert(request_id));
        }
    }

    /// Record the payout addresses the auction saw for a request still in
    /// flight; a request not in flight is left alone.
    pub fn set_payout_addresses(&mut self, request_id: RequestId, addresses: TextMap<String>)
        ensures
            final(self).view().dom() == old(self).view().dom(),
            forall|k: RequestId| k != request_id && old(self).view().contains_key(k)
                ==> #[trigger] final(self).view()[k] == old(self).view()[k],
            old(self).view().contains_key(request_id) ==> {
                let m = final(self).view()[request_id];
                &&& m.payout_addresses == addresses
                &&& m.client_id == old(self).view()[request_id].client_id
                &&& m.bid_set_hash == old(self).view()[request_id].bid_set_hash
                &&& m.session_id == old(self).view()[request_id].session_id
            },
    {
        match self.table.remove(&request_id) {
            Some(meta) => {
                let updated = InFlightMeta {
                    client_id: meta.client_id,
                    bid_set_hash: meta.bid_set_hash,
                    payout_addresses: addresses,
                    session_id: meta.session_id,
                };
                self.table.insert(request_id, updated);
                proof {
                    assert(final(self).view().dom() =~= old(self).view().dom());
                }
            },
            None => {},
        }
    }

    /// Remove and return the record of a request.
    pub fn take(&mut self, request_id: RequestId) -> (r: Option<InFlightMeta>)
        ensures
            final(self).view() == old(self).view().remove(request_id),
            r is Some <==> old(self).view().contains_key(request_id),
            r matches Some(m) ==> m == old(self).view()[request_id],
    {
        self.table.remove(&request_id)
    }
}

/// Peer ids of a sequence of proofs.
pub open spec fn proof_peers(proofs: Seq<ProofOfInference>) -> Seq<Seq<char>> {
    proofs.map_values(|p: ProofOfInference| p.node_peer_id.0@)
}

/// Peer ids of every proof after the first: the helper nodes.
pub open spec fn helper_peers(proofs: Seq<ProofOfInference>) -> Seq<Seq<char>> {
    if proofs.len() == 0 { Seq::empty() } else { proof_peers(proofs).skip(1) }
}

/// Textual values of a sequence of peer ids.
pub open spec fn peer_texts(v: Seq<NodePeerId>) -> Seq<Seq<char>> {
    v.map_values(|p: NodePeerId| p.0@)
}

/// The primary peer of a completion: the node of the first proof, or the
/// sender of the ack when it carries no proof.
pub open spec fn primary_of(proofs: Seq<ProofOfInference>, sender: Seq<char>) -> Seq<char> {
    if proofs.len() > 0 { proofs[0].node_peer_id.0@ } else { sender }
}

/// Everything the completion handler derives from a verified ack.
pub struct CompletedRequest {
    /// The routing receipt, not yet signed (zero coordinator key, empty
    /// signature).
    pub receipt: RoutingReceipt,
    /// Payment rows to record.
    pub payout_lines: Vec<PayoutLine>,
    /// Session of the request, when it was in flight.
    pub session_id: Option<SessionId>,
}

/// Assemble the routing receipt of a verified completion ack from the
/// in-flight record of its request (if any), the id of the sending peer,
/// the ids of the ack's proofs and the current time.
pub fn assemble_receipt(
    ack: &CompletionAck,
    meta: Option<InFlightMeta>,
    sender: &str,
    proof_ids: Vec<[u8; 32]>,
    now_ms: u64,
) -> (r: CompletedRequest)
    ensures
        r.receipt.request_id == ack.request_id,
        r.receipt.client_id@ == (match meta { Some(m) => m.client_id@, None => Seq::<char>::empty() }),
        r.receipt.bid_set_hash@ == (match meta { Some(m) => m.bid_set_hash@, None => zero_hash() }),
        r.receipt.primary_peer_id.0@ == primary_of(ack.proofs@, sender@),
        peer_texts(r.receipt.helper_peer_ids@) == helper_peers(ack.proofs@),
        r.receipt.proof_ids@ == proof_ids@,
        r.receipt.aggregated_output_hash == ack.aggregated_output_hash,
        r.receipt.payouts@.len() == r.payout_lines@.len(),
        forall|i: int| 0 <= i < r.payout_lines@.len() ==> (#[trigger] r.receipt.payouts@[i]).sui_address@
            == r.payout_lines@[i].sui_address@ && r.receipt.payouts@[i].amount_nanox == r.payout_lines@[i].amount_nanox,
        r.receipt.timestamp_ms == now_ms,
        r.receipt.coordinator_pubkey@ == zero_hash(),
        r.receipt.signature@.len() == 0,
        line_views(r.payout_lines@) == payout_lines(
            ack.proofs@,
            match meta { Some(m) => m.payout_addresses.view(), None => Map::<Seq<char>, String>::empty() },
        ),
        r.session_id == (match meta { Some(m) => Some(m.session_id), None => None::<SessionId> }),
{
    let (client_id, bid_set_hash, session_id, addresses) = match meta {
        Some(m) => (m.client_id, m.bid_set_hash, Some(m.session_id), m.payout_addresses),
        None => (String::new(), [0u8; 32], None, TextMap::new()),
    };
    let mut helpers: Vec<NodePeerId> = Vec::new();
    let mut i: usize = 1;
    while i < ack.proofs.len()
        invariant
            1 <= i <= ack.proofs@.len() || (i == 1 && ack.proofs@.len() == 0),
            helpers@.len() == i - 1,
            forall|k: int| 0 <= k < i - 1 ==> (#[trigger] helpers@[k]).0@ == ack.proofs@[k + 1].node_peer_id.0@,
        decreases ack.proofs@.len() - i,
    {
        helpers.push(ack.proofs[i].node_peer_id.duplicate());
        i = i + 1;
    }
    proof {
        assert(peer_texts(helpers@) =~= helper_peers(ack.proofs@));
    }
    let primary = if ack.proofs.len() > 0 {
        ack.proofs[0].node_peer_id.duplicate()
    } else {
        NodePeerId(sender.to_string())
    };
    let lines = compute_payouts(ack, &addresses);
    let mut payouts: Vec<Payout> = Vec::new();
    let mut j: usize = 0;
    while j < lines.len()
        invariant
            j <= lines@.len(),
            payouts@.len() == j,
            forall|k: int| 0 <= k < j ==> (#[trigger] payouts@[k]).sui_address@ == lines@[k].sui_address@
                && payouts@[k].amount_nanox == lines@[k].amount_nanox,
        decreases lines@.len() - j,
    {
        payouts.push(Payout { sui_address: lines[j].sui_address.clone(), amount_nanox: lines[j].amount_nanox });
        j = j + 1;
    }
    let receipt = RoutingReceipt {
        request_id: ack.request_id,
        client_id,
        primary_peer_id: primary,
        helper_peer_ids: helpers,
        bid_set_hash,
        proof_ids,
        aggregated_output_hash: ack.aggregated_output_hash,
        payouts,
        timestamp_ms: now_ms,
        coordinator_pubkey: [0u8; 32],
        signature: Vec::new(),
    };
    proof {
        assert(receipt.coordinator_pubkey@ =~= zero_hash());
        if meta is None {
            assert(receipt.bid_set_hash@ =~= zero_hash());
        }
    }
    CompletedRequest { receipt, payout_lines: lines, session_id }
}

/// Every peer that contributed to a receipt, primary first: the peers
/// to mark warm for the request's session.
pub fn warm_peers(receipt: &RoutingReceipt) -> (r: Vec<String>)
    ensures
        r@.len() == receipt.helper_peer_ids@.len() + 1,
        r@[0]@ == receipt.primary_peer_id.0@,
        forall|k: int| 1 <= k < r@.len() ==> (#[trigger] r@[k])@ == receipt.helper_peer_ids@[k - 1].0@,
{
    let mut r: Vec<String> = Vec::new();
    r.push(receipt.primary_peer_id.0.clone());
    let mut i: usize = 0;
    while i < receipt.helper_peer_ids.len()
        invariant
            i <= receipt.helper_peer_ids@.len(),
            r@.len() == i + 1,
            r@[0]@ == receipt.primary_peer_id.0@,
            forall|k: int| 1 <= k < i + 1 ==> (#[trigger] r@[k])@ == receipt.helper_peer_ids@[k - 1].0@,
        decreases receipt.helper_peer_ids@.len() - i,
    {
        r.push(receipt.helper_peer_ids[i].0.clone());
        i = i + 1;
    }
    r
}

/// How a completion ack is answered.
pub enum CompletionReply {
    /// Refused, with the reason sent back to the node.
    Rejected(String),
    /// Accepted: the signed receipt goes back to the node.
    Accepted,
}

/// Everything the completion handler does for an ack, decided from the
/// outcomes of its checks and writes.
pub struct CompletionAction {
    pub reply: CompletionReply,
    /// Store the routing receipt in the archive.
    pub archive: bool,
    /// Mark every contributing node warm for the request's session.
    pub mark_warm: bool,
    /// Insert the pending payment rows.
    pub insert_payments: bool,
    /// Hand a settlement job to the settlement worker.
    pub enqueue_settlement: bool,
}

/// Decide the completion handler's course. `verify_primary` and
/// `verify_proofs` are the outcomes of the primary node's signature
/// check and of the embedded proofs' checks; `archived` whether storing
/// the receipt succeeded; `has_pool` whether a database is attached;
/// `has_session` whether the request was in flight with a session;
/// `lines_empty` whether there is no payout line; `inserted` whether
/// inserting the payment rows succeeded; `has_tx` whether a settlement
/// worker listens.
///
/// A bad primary signature is refused first, then a bad proof; a failed
/// archive write is refused as a storage error. Otherwise the ack is
/// accepted: contributing nodes are marked warm when a database and a
/// session are known, payment rows are inserted when a database is
/// attached and there are payout lines, and a settlement job follows
/// only a successful insert with a worker listening.
pub fn completion_step(
    verify_primary: Result<(), String>,
    verify_proofs: Result<(), String>,
    archived: bool,
    has_pool: bool,
    has_session: bool,
    lines_empty: bool,
    inserted: bool,
    has_tx: bool,
) -> (r: CompletionAction)
    ensures
        verify_primary matches Err(e) ==> {
            &&& r.reply matches CompletionReply::Rejected(m) && m@ == "primary signature invalid: "@ + e@
            &&& !r.archive && !r.mark_warm && !r.insert_payments && !r.enqueue_settlement
        },
        verify_primary is Ok ==> (verify_proofs matches Err(e) ==> {
            &&& r.reply matches CompletionReply::Rejected(m) && m@ == "proof invalid: "@ + e@
            &&& !r.archive && !r.mark_warm && !r.insert_payments && !r.enqueue_settlement
        }),
        verify_primary is Ok && verify_proofs is Ok ==> r.archive,
        verify_primary is Ok && verify_proofs is Ok && !archived ==> {
            &&& r.reply matches CompletionReply::Rejected(m) && m@ == "storage error"@
            &&& !r.mark_warm && !r.insert_payments && !r.enqueue_settlement
        },
        verify_primary is Ok && verify_proofs is Ok && archived ==> {
            &&& r.reply is Accepted
            &&& r.mark_warm == (has_pool && has_session)
            &&& r.insert_payments == (has_pool && !lines_empty)
            &&& r.enqueue_settlement == (has_pool && !lines_empty && inserted && has_tx)
        },
{
    match verify_primary {
        Err(e) => {
            return CompletionAction {
                reply: CompletionReply::Rejected("primary signature invalid: ".to_string().concat(e.as_str())),
                archive: false,
                mark_warm: false,
                insert_payments: false,
                enqueue_settlement: false,
            };
        },
        Ok(()) => {},
    }
    match verify_proofs {
        Err(e) => {
            return CompletionAction {
                reply: CompletionReply::Rejected("proof invalid: ".to_string().concat(e.as_str())),
                archive: false,
                mark_warm: false,
                insert_payments: false,
                enqueue_settlement: false,
            };
        },
        Ok(()) => {},
    }
    if !archived {
        return CompletionAction {
            reply: CompletionReply::Rejected("storage error".to_string()),
            archive: true,
            mark_warm: false,
            insert_payments: false,
            enqueue_settlement: false,
        };
    }
    let insert_payments = has_pool && !lines_empty;
    CompletionAction {
        reply: CompletionReply::Accepted,
        archive: true,
        mark_warm: has_pool && has_session,
        insert_payments,
        enqueue_settlement: insert_payments && inserted && has_tx,
    }
}

} // verus!

//! Per-node payout amounts of a completed request.
//!
//! Each node receives exactly the price it declared in its own proof of
//! inference. A proof from a node with no known payout address yields
//! no payout line.

use vstd::prelude::*;

use crate::protocol::{CompletionAck, ProofOfInference};
use crate::text_map::TextMap;

verus! {

/// One payment row to be settled.
pub struct PayoutLine {
    pub peer_id: String,
    pub sui_address: String,
    pub amount_nanox: u64,
}

/// The value of a payout line.
pub struct PayoutLineView {
    pub peer_id: Seq<char>,
    pub sui_address: Seq<char>,
    pub amount_nanox: u64,
}

impl PayoutLine {
    pub open spec fn view(&self) -> PayoutLineView {
        PayoutLineView { peer_id: self.peer_id@, sui_address: self.sui_address@, amount_nanox: self.amount_nanox }
    }
}

/// Values of a sequence of payout lines.
pub open spec fn line_views(v: Seq<PayoutLine>) -> Seq<PayoutLineView> {
    v.map_values(|l: PayoutLine| l.view())
}

/// The payout lines of a sequence of proofs, in proof order, given the
/// peer-to-address map.
pub open spec fn payout_lines(proofs: Seq<ProofOfInference>, addrs: Map<Seq<char>, String>) -> Seq<PayoutLineView>
    decreases proofs.len(),
{
    if proofs.len() == 0 {
        Seq::empty()
    } else {
        let rest = payout_lines(proofs.drop_last(), addrs);
        let p = proofs.last();
        if addrs.contains_key(p.node_peer_id.0@) {
            rest.push(PayoutLineView {
                peer_id: p.node_peer_id.0@,
                sui_address: addrs[p.node_peer_id.0@]@,
                amount_nanox: p.price_paid_nanox.0,
            })
        } else {
            rest
        }
    }
}

/// Derive the payout lines of a verified completion ack. `payout_addresses`
/// maps peer id to Sui address and comes from the bids the auction saw.
pub fn compute_payouts(ack: &CompletionAck, payout_addresses: &TextMap<String>) -> (r: Vec<PayoutLine>)
    ensures
        line_views(r@) == payout_lines(ack.proofs@, payout_addresses.view()),
        forall|i: int| 0 <= i < r@.len() ==> payout_addresses.view().contains_key((#[trigger] r@[i]).peer_id@)
            && r@[i].sui_address@ == payout_addresses.view()[r@[i].peer_id@]@,
{
    let mut r: Vec<PayoutLine> = Vec::new();
    let mut i: usize = 0;
    while i < ack.proofs.len()
        invariant
            i <= ack.proofs@.len(),
            line_views(r@) == payout_lines(ack.proofs@.take(i as int), payout_addresses.view()),
        decreases ack.proofs@.len() - i,
    {
        let proof = &ack.proofs[i];
        let ghost before = r@;
        match payout_addresses.get(proof.node_peer_id.0.as_str()) {
            Some(addr) => {
                r.push(PayoutLine {
                    peer_id: proof.node_peer_id.0.clone(),
                    sui_address: addr.clone(),
                    amount_nanox: proof.price_paid_nanox.0,
                });
                proof {
                    assert(line_views(r@) =~= line_views(before).push(r@.last().view()));
                }
            },
            None => {},
        }
        proof {
            assert(ack.proofs@.take(i + 1).drop_last() =~= ack.proofs@.take(i as int));
        }
        i = i + 1;
    }
    proof {
        assert(ack.proofs@.take(ack.proofs@.len() as int) =~= ack.proofs@);
        law_payout_lines_pay_own_address(ack.proofs@, payout_addresses.view());
        assert forall|i: int| 0 <= i < r@.len() implies payout_addresses.view().contains_key((#[trigger] r@[i]).peer_id@)
            && r@[i].sui_address@ == payout_addresses.view()[r@[i].peer_id@]@ by {
            assert(line_views(r@)[i] == r@[i].view());
            assert(payout_lines(ack.proofs@, payout_addresses.view())[i] == r@[i].view());
        }
    }
    r
}

/// Total declared price of a sequence of proofs.
pub open spec fn proofs_total(proofs: Seq<ProofOfInference>) -> int
    decreases proofs.len(),
{
    if proofs.len() == 0 { 0 } else { proofs_total(proofs.drop_last()) + proofs.last().price_paid_nanox.0 }
}

/// Total amount of a sequence of payout lines.
pub open spec fn lines_total(lines: Seq<PayoutLineView>) -> int
    decreases lines.len(),
{
    if lines.len() == 0 { 0 } else { lines_total(lines.drop_last()) + lines.last().amount_nanox }
}

/// Law: settlement never pays out more than the nodes declared in their
/// proofs; it pays exactly the declared total when every proving node
/// has a known payout address.
pub proof fn law_payouts_bounded_by_proofs(proofs: Seq<ProofOfInference>, addrs: Map<Seq<char>, String>)
    ensures
        lines_total(payout_lines(proofs, addrs)) <= proofs_total(proofs),
        (forall|i: int| 0 <= i < proofs.len() ==> addrs.contains_key(#[trigger] proofs[i].node_peer_id.0@))
            ==> lines_total(payout_lines(proofs, addrs)) == proofs_total(proofs),
        payout_lines(proofs, addrs).len() <= proofs.len(),
    decreases proofs.len(),
{
    if proofs.len() > 0 {
        let rest = proofs.drop_last();
        law_payouts_bounded_by_proofs(rest, addrs);
        let lines = payout_lines(proofs, addrs);
        let rest_lines = payout_lines(rest, addrs);
        if addrs.contains_key(proofs.last().node_peer_id.0@) {
            assert(lines.drop_last() =~= rest_lines);
        }
        if forall|i: int| 0 <= i < proofs.len() ==> addrs.contains_key(#[trigger] proofs[i].node_peer_id.0@) {
            assert forall|i: int| 0 <= i < rest.len() implies addrs.contains_key(#[trigger] rest[i].node_peer_id.0@) by {
                assert(rest[i] == proofs[i]);
            }
            assert(addrs.contains_key(proofs[proofs.len() - 1].node_peer_id.0@));
        }
    }
}

/// Law: every payout line pays the node of one of the proofs the price
/// that proof declared, at the address the payout map holds for that
/// very node.
pub proof fn law_payout_lines_pay_own_address(proofs: Seq<ProofOfInference>, addrs: Map<Seq<char>, String>)
    ensures
        forall|i: int| 0 <= i < payout_lines(proofs, addrs).len() ==> {
            let l = #[trigger] payout_lines(proofs, addrs)[i];
            &&& addrs.contains_key(l.peer_id)
            &&& l.sui_address == addrs[l.peer_id]@
            &&& exists|j: int| 0 <= j < proofs.len() && (#[trigger] proofs[j]).node_peer_id.0@ == l.peer_id
                && proofs[j].price_paid_nanox.0 == l.amount_nanox
        },
    decreases proofs.len(),
{
    if proofs.len() > 0 {
        let rest = proofs.drop_last();
        law_payout_lines_pay_own_address(rest, addrs);
        let lines = payout_lines(proofs, addrs);
        let rest_lines = payout_lines(rest, addrs);
        assert forall|i: int| 0 <= i < lines.len() implies {
            let l = #[trigger] lines[i];
            &&& addrs.contains_key(l.peer_id)
            &&& l.sui_address == addrs[l.peer_id]@
            &&& exists|j: int| 0 <= j < proofs.len() && (#[trigger] proofs[j]).node_peer_id.0@ == l.peer_id
                && proofs[j].price_paid_nanox.0 == l.amount_nanox
        } by {
            if i < rest_lines.len() {
                assert(lines[i] == rest_lines[i]);
                let l = rest_lines[i];
                let j = choose|j: int| 0 <= j < rest.len() && (#[trigger] rest[j]).node_peer_id.0@ == l.peer_id
                    && rest[j].price_paid_nanox.0 == l.amount_nanox;
                assert(proofs[j] == rest[j]);
            } else {
                let k = proofs.len() - 1;
                assert(proofs[k] == proofs.last());
            }
        }
    }
}

} // verus!

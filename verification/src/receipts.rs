//! Routing-receipt archive: where the coordinator keeps the signed
//! audit artefacts it issues on completion, keyed by request id.

use vstd::prelude::*;

use std::collections::HashMap;

use crate::protocol::{same_receipt, RoutingReceipt};
use crate::types::RequestId;

verus! {

broadcast use vstd::std_specs::hash::group_hash_axioms;

/// In-memory receipt archive. Storing a receipt for a request replaces
/// any receipt stored earlier for it.
pub struct InMemoryReceiptArchive {
    receipts: HashMap<RequestId, RoutingReceipt>,
}

impl InMemoryReceiptArchive {
    /// The stored receipts by request id.
    pub closed spec fn view(&self) -> Map<RequestId, RoutingReceipt> {
        self.receipts@
    }

    /// An empty archive.
    pub fn new() -> (a: Self)
        ensures
            a.view() == Map::<RequestId, RoutingReceipt>::empty(),
    {
        InMemoryReceiptArchive { receipts: HashMap::new() }
    }

    /// Number of stored receipts.
    pub fn len(&self) -> (n: usize)
        ensures
            n == self.view().len(),
    {
        self.receipts.len()
    }

    /// Store a receipt under its request id.
    pub fn put(&mut self, receipt: RoutingReceipt)
        ensures
            final(self).view() == old(self).view().insert(receipt.request_id, receipt),
    {
        let id = receipt.request_id;
        self.receipts.insert(id, receipt);
    }

    /// The receipt stored for `request_id`, if any.
    pub fn get(&self, request_id: RequestId) -> (r: Option<RoutingReceipt>)
        ensures
            r is Some <==> self.view().contains_key(request_id),
            r matches Some(x) ==> same_receipt(x, self.view()[request_id]),
    {
        match self.receipts.get(&request_id) {
            Some(x) => Some(x.duplicate()),
            None => None,
        }
    }
}

/// Law: reading a request id back right after storing a receipt under it
/// gives that receipt, and storing leaves every other request's receipt
/// as it was.
pub proof fn law_put_then_get(
    stored: Map<RequestId, RoutingReceipt>,
    receipt: RoutingReceipt,
    other: RequestId,
)
    ensures
        stored.insert(receipt.request_id, receipt).contains_key(receipt.request_id),
        stored.insert(receipt.request_id, receipt)[receipt.request_id] == receipt,
        other != receipt.request_id ==> stored.insert(receipt.request_id, receipt).contains_key(other)
            == stored.contains_key(other),
        other != receipt.request_id && stored.contains_key(other)
            ==> stored.insert(receipt.request_id, receipt)[other] == stored[other],
{
}

} // verus!

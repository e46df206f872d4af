//! Settlement adapters: backends that move value from client to node
//! after a verified completion. The free and signed-receipt adapters
//! never move value on a chain.

use vstd::prelude::*;

use crate::protocol::ProofOfInference;
use crate::types::{NanoX, RequestId};

verus! {

/// What the client escrows for a request.
pub struct EscrowParams {
    pub request_id: RequestId,
    pub amount_nanox: NanoX,
    pub client_address: String,
    pub node_address: String,
    pub token_id: Option<String>,
}

/// Handle to escrowed funds.
pub struct EscrowHandle {
    pub settlement_id: String,
    pub request_id: RequestId,
    pub amount_nanox: NanoX,
    pub chain_tx_id: Option<String>,
    pub payload_json: String,
}

/// Why a settlement operation failed.
#[derive(Clone, Copy, PartialEq, Eq, Structural, Debug)]
pub enum SettlementError {
    /// The backend refused or could not complete the operation.
    Backend,
}

/// A settlement backend.
pub trait SettlementAdapter {
    /// The adapter's settlement id.
    fn id(&self) -> &'static str;

    /// Escrow the funds of a request.
    fn lock_funds(&self, params: EscrowParams) -> Result<EscrowHandle, SettlementError>;

    /// Pay the node against its proof.
    fn release_funds(&self, handle: &EscrowHandle, proof: &ProofOfInference) -> Result<(), SettlementError>;

    /// Return the funds to the client.
    fn refund_funds(&self, handle: &EscrowHandle) -> Result<(), SettlementError>;
}

/// The handle an adapter without on-chain escrow issues: the adapter's
/// id, the request and amount, no chain transaction, an empty JSON
/// payload.
pub open spec fn offchain_handle(h: EscrowHandle, id: Seq<char>, params: EscrowParams) -> bool {
    &&& h.settlement_id@ == id
    &&& h.request_id == params.request_id
    &&& h.amount_nanox == params.amount_nanox
    &&& h.chain_tx_id is None
    &&& h.payload_json@ == "{}"@
}

/// No-op settlement: every operation succeeds without moving value.
pub struct FreeSettlement;

impl SettlementAdapter for FreeSettlement {
    fn id(&self) -> (r: &'static str)
        ensures
            r@ == "free"@,
    {
        "free"
    }

    fn lock_funds(&self, params: EscrowParams) -> (r: Result<EscrowHandle, SettlementError>)
        ensures
            r matches Ok(h) && offchain_handle(h, "free"@, params),
    {
        Ok(EscrowHandle {
            settlement_id: self.id().to_string(),
            request_id: params.request_id,
            amount_nanox: params.amount_nanox,
            chain_tx_id: None,
            payload_json: "{}".to_string(),
        })
    }

    fn release_funds(&self, handle: &EscrowHandle, proof: &ProofOfInference) -> (r: Result<(), SettlementError>)
        ensures
            r is Ok,
    {
        Ok(())
    }

    fn refund_funds(&self, handle: &EscrowHandle) -> (r: Result<(), SettlementError>)
        ensures
            r is Ok,
    {
        Ok(())
    }
}

/// Signed-receipt settlement: the node serves first and the client pays
/// against the signed proof; nothing is escrowed.
pub struct ReceiptSettlement;

impl SettlementAdapter for ReceiptSettlement {
    fn id(&self) -> (r: &'static str)
        ensures
            r@ == "receipt"@,
    {
        "receipt"
    }

    fn lock_funds(&self, params: EscrowParams) -> (r: Result<EscrowHandle, SettlementError>)
        ensures
            r matches Ok(h) && offchain_handle(h, "receipt"@, params),
    {
        Ok(EscrowHandle {
            settlement_id: self.id().to_string(),
            request_id: params.request_id,
            amount_nanox: params.amount_nanox,
            chain_tx_id: None,
            payload_json: "{}".to_string(),
        })
    }

    fn release_funds(&self, handle: &EscrowHandle, proof: &ProofOfInference) -> (r: Result<(), SettlementError>)
        ensures
            r is Ok,
    {
        Ok(())
    }

    fn refund_funds(&self, handle: &EscrowHandle) -> (r: Result<(), SettlementError>)
        ensures
            r is Ok,
    {
        Ok(())
    }
}

} // verus!

//! On-chain glue: what the sidecar reports about the registered enclave,
//! and the retry schedule of the registration task.

use vstd::prelude::*;

use crate::codec::{hex_encode, hex_encoded};
use crate::ids::{uuid_hyphenated, uuid_text};
use crate::protocol::RoutingReceipt;
use crate::text::str_eq;

verus! {

/// What the sidecar knows about the on-chain enclave object after a
/// successful registration.
pub struct RegisteredEnclave {
    pub tx_digest: String,
    pub enclave_object_id: String,
}

/// The registration the sidecar's reply describes, and whether the
/// sidecar must be told which enclave object to settle with (it must,
/// unless the reply named no object).
pub fn registration_from_reply(tx_digest: String, enclave_object_id: Option<String>) -> (r: (RegisteredEnclave, bool))
    ensures
        r.0.tx_digest == tx_digest,
        r.0.enclave_object_id@ == (match enclave_object_id { Some(id) => id@, None => "<missing>"@ }),
        r.1 == (r.0.enclave_object_id@ != "<missing>"@),
{
    let id = match enclave_object_id {
        Some(id) => id,
        None => "<missing>".to_string(),
    };
    let forward = !str_eq(id.as_str(), "<missing>");
    (RegisteredEnclave { tx_digest, enclave_object_id: id }, forward)
}

/// What the sidecar readiness poll does after a failed probe.
#[derive(Clone, Copy, PartialEq, Eq, Structural, Debug)]
pub enum RetryStep {
    /// Wait and try again.
    Retry,
    /// Stop: the attempt budget is spent.
    GiveUp,
}

/// Decide after failed readiness probe number `attempt` (counted from 1)
/// out of `max_attempts`: the poll waits for the sidecar up to a
/// deadline.
pub fn after_failed_attempt(attempt: u32, max_attempts: u32) -> (r: RetryStep)
    ensures
        r == (if attempt == max_attempts { RetryStep::GiveUp } else { RetryStep::Retry }),
{
    if attempt == max_attempts {
        RetryStep::GiveUp
    } else {
        RetryStep::Retry
    }
}

/// First wait between registration attempts, in seconds.
pub const INITIAL_BACKOFF_SECS: u64 = 2;

/// Longest wait between registration attempts, in seconds.
pub const MAX_BACKOFF_SECS: u64 = 60;

/// The wait after `backoff_secs`: doubled, capped at a minute.
pub fn next_backoff_secs(backoff_secs: u64) -> (r: u64)
    requires
        backoff_secs <= u64::MAX / 2,
    ensures
        r == (if 2 * backoff_secs < MAX_BACKOFF_SECS { 2 * backoff_secs } else { MAX_BACKOFF_SECS as int }),
{
    let doubled = backoff_secs * 2;
    if doubled < MAX_BACKOFF_SECS {
        doubled
    } else {
        MAX_BACKOFF_SECS
    }
}

/// The wait before retry number `n` (after the `n`-th failure).
pub open spec fn backoff_after(n: nat) -> u64
    decreases n,
{
    if n <= 1 {
        INITIAL_BACKOFF_SECS
    } else {
        let b = backoff_after((n - 1) as nat);
        if 2 * b < MAX_BACKOFF_SECS { (2 * b) as u64 } else { MAX_BACKOFF_SECS }
    }
}

/// Law: the registration backoff starts at two seconds, never exceeds a
/// minute, and never shrinks.
pub proof fn law_backoff_bounded_and_growing(n: nat)
    ensures
        INITIAL_BACKOFF_SECS <= backoff_after(n) <= MAX_BACKOFF_SECS,
        backoff_after(n) <= backoff_after(n + 1),
    decreases n,
{
    if n > 1 {
        law_backoff_bounded_and_growing((n - 1) as nat);
    }
}

/// What the registration task does after an attempt.
pub enum RegistrationStep {
    /// The registration landed: cache it, once, and stop.
    Record(RegisteredEnclave),
    /// The attempt failed: wait `wait_secs`, then try again with the
    /// next wait `next_backoff_secs`.
    RetryAfter { wait_secs: u64, next_backoff_secs: u64 },
}

/// The registration task's step after an attempt whose outcome is
/// `outcome` (the registration, or `None` on failure), the current wait
/// being `backoff_secs`. It never gives up: a failure always retries,
/// the wait doubling up to a minute.
pub fn registration_step(outcome: Option<RegisteredEnclave>, backoff_secs: u64) -> (r: RegistrationStep)
    requires
        backoff_secs <= u64::MAX / 2,
    ensures
        match outcome {
            Some(reg) => r matches RegistrationStep::Record(g) && g == reg,
            None => r matches RegistrationStep::RetryAfter { wait_secs, next_backoff_secs }
                && wait_secs == backoff_secs
                && next_backoff_secs == (if 2 * backoff_secs < MAX_BACKOFF_SECS { 2 * backoff_secs } else { MAX_BACKOFF_SECS as int }),
        },
{
    match outcome {
        Some(reg) => RegistrationStep::Record(reg),
        None => RegistrationStep::RetryAfter { wait_secs: backoff_secs, next_backoff_secs: next_backoff_secs(backoff_secs) },
    }
}

/// Law: starting from the initial wait, the `n`-th failed attempt waits
/// `backoff_after(n)` and the task retries after every failure, the
/// wait staying within the initial wait and a minute.
pub proof fn law_registration_retries_forever(n: nat)
    requires
        n >= 1,
    ensures
        backoff_after(n) <= u64::MAX / 2,
        backoff_after(n + 1) == (if 2 * backoff_after(n) < MAX_BACKOFF_SECS { 2 * backoff_after(n) } else { MAX_BACKOFF_SECS as int }),
        INITIAL_BACKOFF_SECS <= backoff_after(n) <= MAX_BACKOFF_SECS,
{
    law_backoff_bounded_and_growing(n);
}

/// Where and how to reach the colocated sidecar.
pub struct SidecarSettings {
    pub base_url: String,
    pub secret: String,
}

/// The sidecar secret is not configured.
#[derive(Clone, Copy, PartialEq, Eq, Structural, Debug)]
pub enum SidecarConfigError {
    MissingSecret,
}

/// Sidecar settings from the values of `SIDECAR_URL` (default
/// `http://127.0.0.1:8200`) and `SIDECAR_SECRET` (required).
pub fn sidecar_settings(url: Option<String>, secret: Option<String>) -> (r: Result<SidecarSettings, SidecarConfigError>)
    ensures
        secret is None ==> r == Err::<SidecarSettings, SidecarConfigError>(SidecarConfigError::MissingSecret),
        secret is Some ==> (r matches Ok(s) && s.secret == secret->0
            && s.base_url@ == (match url { Some(u) => u@, None => "http://127.0.0.1:8200"@ })),
{
    let base_url = match url {
        Some(u) => u,
        None => "http://127.0.0.1:8200".to_string(),
    };
    match secret {
        Some(s) => Ok(SidecarSettings { base_url, secret: s }),
        None => Err(SidecarConfigError::MissingSecret),
    }
}

/// One payout of a receipt, as the sidecar receives it.
pub struct PayoutJson {
    pub sui_address: String,
    pub amount_nanox: u64,
}

/// Body of the sidecar's settle call: everything the on-chain settle
/// function needs, field by field, for one payee of a receipt.
pub struct SettleReq {
    pub request_id: String,
    pub payee_sui_address: String,
    pub amount_nanox: u64,
    pub timestamp_ms: u64,
    pub aggregated_output_hash: String,
    pub payouts: Vec<PayoutJson>,
    pub signature: String,
}

/// Build the settle call for one payee of a signed receipt.
pub fn settle_request(receipt: &RoutingReceipt, payee_sui_address: &str, amount_nanox: u64) -> (r: SettleReq)
    ensures
        r.request_id@ == uuid_hyphenated(receipt.request_id),
        r.payee_sui_address@ == payee_sui_address@,
        r.amount_nanox == amount_nanox,
        r.timestamp_ms == receipt.timestamp_ms,
        r.aggregated_output_hash@ == hex_encoded(receipt.aggregated_output_hash@),
        r.signature@ == hex_encoded(receipt.signature@),
        r.payouts@.len() == receipt.payouts@.len(),
        forall|i: int| 0 <= i < r.payouts@.len() ==> (#[trigger] r.payouts@[i]).sui_address@ == receipt.payouts@[i].sui_address@
            && r.payouts@[i].amount_nanox == receipt.payouts@[i].amount_nanox,
{
    let mut payouts: Vec<PayoutJson> = Vec::new();
    let mut i: usize = 0;
    while i < receipt.payouts.len()
        invariant
            i <= receipt.payouts@.len(),
            payouts@.len() == i,
            forall|k: int| 0 <= k < i ==> (#[trigger] payouts@[k]).sui_address@ == receipt.payouts@[k].sui_address@
                && payouts@[k].amount_nanox == receipt.payouts@[k].amount_nanox,
        decreases receipt.payouts@.len() - i,
    {
        payouts.push(PayoutJson {
            sui_address: receipt.payouts[i].sui_address.clone(),
            amount_nanox: receipt.payouts[i].amount_nanox,
        });
        i = i + 1;
    }
    SettleReq {
        request_id: uuid_text(receipt.request_id),
        payee_sui_address: payee_sui_address.to_string(),
        amount_nanox,
        timestamp_ms: receipt.timestamp_ms,
        aggregated_output_hash: hex_encode(&receipt.aggregated_output_hash),
        payouts,
        signature: hex_encode(receipt.signature.as_slice()),
    }
}

} // verus!

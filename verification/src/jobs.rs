//! Inference-job tracking: one job per accepted request. A job moves
//! `Dispatched → Acked → Completed` on success, or `Dispatched →
//! TimedOut → Refunded` once its deadline passes.

use vstd::prelude::*;

use crate::settlement::EscrowHandle;
use crate::text::str_eq;
use crate::types::{NanoX, NodePeerId, RequestId};

verus! {

/// Lifecycle state of a dispatched job.
#[derive(Clone, Copy, PartialEq, Eq, Structural, Debug)]
pub enum JobStatus {
    Dispatched,
    Acked,
    Completed,
    TimedOut,
    Refunded,
}

/// The name a status is stored under.
pub open spec fn status_name(s: JobStatus) -> Seq<char> {
    match s {
        JobStatus::Dispatched => "Dispatched"@,
        JobStatus::Acked => "Acked"@,
        JobStatus::Completed => "Completed"@,
        JobStatus::TimedOut => "TimedOut"@,
        JobStatus::Refunded => "Refunded"@,
    }
}

/// The status stored under a name, if any.
pub open spec fn status_of_name(name: Seq<char>) -> Option<JobStatus> {
    if name == "Dispatched"@ {
        Some(JobStatus::Dispatched)
    } else if name == "Acked"@ {
        Some(JobStatus::Acked)
    } else if name == "Completed"@ {
        Some(JobStatus::Completed)
    } else if name == "TimedOut"@ {
        Some(JobStatus::TimedOut)
    } else if name == "Refunded"@ {
        Some(JobStatus::Refunded)
    } else {
        None
    }
}

impl JobStatus {
    /// The name the status is stored under.
    pub fn as_str(self) -> (r: &'static str)
        ensures
            r@ == status_name(self),
    {
        match self {
            JobStatus::Dispatched => "Dispatched",
            JobStatus::Acked => "Acked",
            JobStatus::Completed => "Completed",
            JobStatus::TimedOut => "TimedOut",
            JobStatus::Refunded => "Refunded",
        }
    }
}

/// The status a stored name denotes; `None` for any other text.
pub fn parse_job_status(name: &str) -> (r: Option<JobStatus>)
    ensures
        r == status_of_name(name@),
{
    if str_eq(name, "Dispatched") {
        Some(JobStatus::Dispatched)
    } else if str_eq(name, "Acked") {
        Some(JobStatus::Acked)
    } else if str_eq(name, "Completed") {
        Some(JobStatus::Completed)
    } else if str_eq(name, "TimedOut") {
        Some(JobStatus::TimedOut)
    } else if str_eq(name, "Refunded") {
        Some(JobStatus::Refunded)
    } else {
        None
    }
}

/// Law: the stored names are pairwise distinct, so reading back the name
/// of a status gives that status.
pub proof fn law_status_name_roundtrip(s: JobStatus)
    ensures
        status_of_name(status_name(s)) == Some(s),
{
    reveal_strlit("Dispatched");
    reveal_strlit("Acked");
    reveal_strlit("Completed");
    reveal_strlit("TimedOut");
    reveal_strlit("Refunded");
    assert("Dispatched"@[0] != "Acked"@[0]);
    assert("Dispatched"@[0] != "Completed"@[0]);
    assert("Dispatched"@[0] != "TimedOut"@[0]);
    assert("Dispatched"@[0] != "Refunded"@[0]);
    assert("Acked"@[0] != "Completed"@[0]);
    assert("Acked"@[0] != "TimedOut"@[0]);
    assert("Acked"@[0] != "Refunded"@[0]);
    assert("Completed"@[0] != "TimedOut"@[0]);
    assert("Completed"@[0] != "Refunded"@[0]);
    assert("TimedOut"@[0] != "Refunded"@[0]);
}

/// The unit of work tracked per accepted request.
pub struct DispatchJob {
    pub request_id: RequestId,
    pub primary_peer_id: NodePeerId,
    pub dispatched_at_ms: u64,
    pub deadline_ms: u64,
    pub status: JobStatus,
    /// JSON of the escrow handle the request's funds are held under.
    pub escrow_handle_json: String,
}

/// The time a job's deadline check is scheduled at, in whole Unix
/// seconds.
pub fn schedule_at_secs(job: &DispatchJob) -> (r: i64)
    ensures
        r == job.deadline_ms / 1000,
{
    (job.deadline_ms / 1000) as i64
}

/// What the deadline watcher does for a job.
#[derive(Clone, Copy, PartialEq, Eq, Structural, Debug)]
pub enum TimeoutAction {
    /// The deadline has not passed yet.
    NotYetDue,
    /// The job already completed or was already refunded.
    AlreadySettled,
    /// Refund the client and mark the job refunded.
    Refund,
}

/// The watcher's decision for a job whose deadline is `deadline_ms`, at
/// time `now_ms`, given the stored status name of the job (if a row
/// exists).
pub open spec fn timeout_decision(now_ms: u64, deadline_ms: u64, stored: Option<Seq<char>>) -> TimeoutAction {
    if now_ms < deadline_ms {
        TimeoutAction::NotYetDue
    } else if stored matches Some(s) && (s == "Completed"@ || s == "Refunded"@) {
        TimeoutAction::AlreadySettled
    } else {
        TimeoutAction::Refund
    }
}

/// Decide what to do when a job's deadline check fires.
pub fn timeout_action(now_ms: u64, job: &DispatchJob, stored_status: Option<&str>) -> (r: TimeoutAction)
    ensures
        r == timeout_decision(now_ms, job.deadline_ms, match stored_status { Some(s) => Some(s@), None => None }),
{
    if now_ms < job.deadline_ms {
        return TimeoutAction::NotYetDue;
    }
    let already_done = match stored_status {
        Some(s) => str_eq(s, "Completed") || str_eq(s, "Refunded"),
        None => false,
    };
    if already_done {
        TimeoutAction::AlreadySettled
    } else {
        TimeoutAction::Refund
    }
}

/// Law: a job is refunded only once its deadline has passed, and never
/// when it is recorded as completed or refunded.
pub proof fn law_refund_only_when_due(now_ms: u64, deadline_ms: u64, stored: Option<Seq<char>>)
    ensures
        timeout_decision(now_ms, deadline_ms, stored) == TimeoutAction::Refund ==> now_ms >= deadline_ms,
        timeout_decision(now_ms, deadline_ms, Some("Completed"@)) != TimeoutAction::Refund,
        timeout_decision(now_ms, deadline_ms, Some("Refunded"@)) != TimeoutAction::Refund,
{
}

/// The escrow handle the watcher refunds against when a job's stored
/// handle cannot be read: the free adapter, nothing escrowed.
pub fn fallback_escrow_handle(request_id: RequestId) -> (h: EscrowHandle)
    ensures
        h.settlement_id@ == "free"@,
        h.request_id == request_id,
        h.amount_nanox == NanoX(0),
        h.chain_tx_id is None,
        h.payload_json@ == "{}"@,
{
    EscrowHandle {
        settlement_id: "free".to_string(),
        request_id,
        amount_nanox: NanoX(0),
        chain_tx_id: None,
        payload_json: "{}".to_string(),
    }
}

/// What the settlement worker records for one pending payment row.
pub enum PaymentUpdate {
    /// The payment was submitted on chain in the transaction with this
    /// digest.
    Submitted { payment_id: u128, tx_digest: String },
    /// The settle call failed.
    Failed { payment_id: u128 },
}

/// A `u64` reinterpreted as the `i64` with the same bits.
pub open spec fn as_signed(a: u64) -> i64 {
    if a <= i64::MAX { a as i64 } else { (a - 0x1_0000_0000_0000_0000) as i64 }
}

/// An `i64` reinterpreted as the `u64` with the same bits.
pub open spec fn as_unsigned(a: i64) -> u64 {
    if a >= 0 { a as u64 } else { (a + 0x1_0000_0000_0000_0000) as u64 }
}

/// The amount a stored payment row asks the chain to pay: the stored
/// signed amount reinterpreted as unsigned.
pub fn settle_amount(amount_nanox: i64) -> (r: u64)
    ensures
        r == as_unsigned(amount_nanox),
{
    if amount_nanox >= 0 {
        amount_nanox as u64
    } else {
        let magnitude: u64 = (-(amount_nanox as i128)) as u64;
        (u64::MAX - magnitude) + 1
    }
}

/// The signed amount a payout of `amount_nanox` is stored as: the
/// unsigned amount reinterpreted as signed.
pub fn stored_amount(amount_nanox: u64) -> (r: i64)
    ensures
        r == as_signed(amount_nanox),
{
    if amount_nanox <= i64::MAX as u64 {
        amount_nanox as i64
    } else {
        let over: u64 = amount_nanox - (i64::MAX as u64) - 1;
        (over as i64) + i64::MIN
    }
}

/// Law: storing a payout amount and reading it back for settlement gives
/// the amount itself, for every `u64`.
pub proof fn law_amount_roundtrip(amount_nanox: u64, stored: i64)
    ensures
        as_unsigned(as_signed(amount_nanox)) == amount_nanox,
        as_signed(as_unsigned(stored)) == stored,
{
}

/// The update recorded for a payment row after its settle call returned
/// `outcome` (the transaction digest, or `None` on failure).
pub fn payment_update(payment_id: u128, outcome: Option<String>) -> (r: PaymentUpdate)
    ensures
        match outcome {
            Some(d) => r matches PaymentUpdate::Submitted { payment_id: p, tx_digest } && p == payment_id && tx_digest == d,
            None => r matches PaymentUpdate::Failed { payment_id: p } && p == payment_id,
        },
{
    match outcome {
        Some(d) => PaymentUpdate::Submitted { payment_id, tx_digest: d },
        None => PaymentUpdate::Failed { payment_id },
    }
}

} // verus!

use coordinator::jobs::{
    fallback_escrow_handle, parse_job_status, payment_update, schedule_at_secs, settle_amount, stored_amount,
    timeout_action, DispatchJob, JobStatus, PaymentUpdate, TimeoutAction,
};
use coordinator::types::{NanoX, NodePeerId};

fn job(deadline_ms: u64) -> DispatchJob {
    DispatchJob {
        request_id: 5,
        primary_peer_id: NodePeerId("12D3KooWPrimary".to_string()),
        dispatched_at_ms: 0,
        deadline_ms,
        status: JobStatus::Dispatched,
        escrow_handle_json: "{}".to_string(),
    }
}

#[test]
fn status_names_roundtrip() {
    let all = [JobStatus::Dispatched, JobStatus::Acked, JobStatus::Completed, JobStatus::TimedOut, JobStatus::Refunded];
    let names = ["Dispatched", "Acked", "Completed", "TimedOut", "Refunded"];
    for (s, n) in all.iter().zip(names.iter()) {
        assert_eq!(s.as_str(), *n);
        assert_eq!(parse_job_status(n), Some(*s));
    }
    assert_eq!(parse_job_status("completed"), None);
    assert_eq!(parse_job_status(""), None);
}

#[test]
fn job_runs_at_its_deadline_second() {
    assert_eq!(schedule_at_secs(&job(60_000)), 60);
    assert_eq!(schedule_at_secs(&job(61_999)), 61);
    assert_eq!(schedule_at_secs(&job(999)), 0);
}

#[test]
fn timeout_decisions() {
    let j = job(60_000);
    assert_eq!(timeout_action(59_999, &j, None), TimeoutAction::NotYetDue);
    assert_eq!(timeout_action(59_999, &j, Some("Completed")), TimeoutAction::NotYetDue);
    assert_eq!(timeout_action(60_000, &j, Some("Completed")), TimeoutAction::AlreadySettled);
    assert_eq!(timeout_action(70_000, &j, Some("Refunded")), TimeoutAction::AlreadySettled);
    assert_eq!(timeout_action(70_000, &j, Some("Dispatched")), TimeoutAction::Refund);
    assert_eq!(timeout_action(70_000, &j, Some("Acked")), TimeoutAction::Refund);
    assert_eq!(timeout_action(70_000, &j, None), TimeoutAction::Refund);
}

#[test]
fn fallback_handle_is_free_and_empty() {
    let h = fallback_escrow_handle(9);
    assert_eq!(h.settlement_id, "free");
    assert_eq!(h.request_id, 9);
    assert_eq!(h.amount_nanox, NanoX(0));
    assert!(h.chain_tx_id.is_none());
    assert_eq!(h.payload_json, "{}");
}

#[test]
fn amounts_survive_signed_storage() {
    for a in [0u64, 1, 12_345, i64::MAX as u64, i64::MAX as u64 + 1, u64::MAX] {
        assert_eq!(settle_amount(stored_amount(a)), a);
        assert_eq!(stored_amount(a), a as i64);
    }
    assert_eq!(settle_amount(-1), u64::MAX);
    assert_eq!(stored_amount(u64::MAX), -1);
}

#[test]
fn payment_updates() {
    match payment_update(3, Some("0xdigest".to_string())) {
        PaymentUpdate::Submitted { payment_id, tx_digest } => {
            assert_eq!(payment_id, 3);
            assert_eq!(tx_digest, "0xdigest");
        }
        _ => panic!("expected Submitted"),
    }
    assert!(matches!(payment_update(4, None), PaymentUpdate::Failed { payment_id: 4 }));
}

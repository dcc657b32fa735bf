use credence::errors::{CallError, ContractError, Refusal};
use credence::timelock::{is_ready, min_delay_seconds, OperationStatus, TimelockContract, GRACE_PERIOD};

fn setup_env() -> (TimelockContract, u64) {
    let mut c = TimelockContract::new();
    let admin = 1u64;
    c.initialize(admin).unwrap();
    (c, admin)
}

#[test]
fn min_delay_is_one_day() {
    assert_eq!(min_delay_seconds(), 86_400);
}

#[test]
fn ready_when_now_meets_eta() {
    assert!(is_ready(100, 100));
    assert!(is_ready(100, 200));
}

#[test]
fn not_ready_when_before_eta() {
    assert!(!is_ready(100, 50));
}

#[test]
fn test_initialize() {
    let (c, admin) = setup_env();
    assert_eq!(c.get_admin(), Ok(admin));
}

#[test]
fn test_queue_and_execute() {
    let (mut c, admin) = setup_env();
    let op_hash = [0u8; 32];
    let delay = 86_400;

    let op_id = c.queue_operation(admin, op_hash, delay, 0).unwrap();
    assert_eq!(op_id, 0);

    let op = c.get_operation(op_id).unwrap();
    assert_eq!(op.op_hash, op_hash);
    assert_eq!(op.status, OperationStatus::Pending);

    // Before the eta it is refused.
    assert!(c.execute_operation(op_id, op.eta - 1).is_err());

    // At the eta it executes.
    c.execute_operation(op_id, op.eta).unwrap();

    let op = c.get_operation(op_id).unwrap();
    assert_eq!(op.status, OperationStatus::Executed);
    assert!(c.is_operation_executed(&op_hash));
}

#[test]
fn test_execute_boundaries() {
    let (mut c, admin) = setup_env();
    let op_hash = [1u8; 32];
    let op_id = c.queue_operation(admin, op_hash, 86_400, 0).unwrap();
    let op = c.get_operation(op_id).unwrap();
    c.execute_operation(op_id, op.expires_at).unwrap();
}

#[test]
fn test_execute_expired() {
    let (mut c, admin) = setup_env();
    let op_hash = [2u8; 32];
    let op_id = c.queue_operation(admin, op_hash, 86_400, 0).unwrap();
    let op = c.get_operation(op_id).unwrap();
    assert!(c.execute_operation(op_id, op.expires_at + 1).is_err());
}

#[test]
fn test_replay_guard() {
    let (mut c, admin) = setup_env();
    let op_hash = [3u8; 32];
    let op_id = c.queue_operation(admin, op_hash, 86_400, 0).unwrap();
    let op = c.get_operation(op_id).unwrap();
    c.execute_operation(op_id, op.eta).unwrap();
    let res = c.queue_operation(admin, op_hash, 86_400, op.eta);
    assert_eq!(res, Err(CallError::Refused(Refusal::OperationAlreadyExecuted)));
}

#[test]
fn test_cancel() {
    let (mut c, admin) = setup_env();
    let op_hash = [4u8; 32];
    let op_id = c.queue_operation(admin, op_hash, 86_400, 0).unwrap();
    c.cancel_operation(admin, op_id).unwrap();

    let op = c.get_operation(op_id).unwrap();
    assert_eq!(op.status, OperationStatus::Cancelled);
    assert!(c.execute_operation(op_id, op.eta).is_err());
}

#[test]
fn test_delay_too_short() {
    let (mut c, admin) = setup_env();
    let op_hash = [5u8; 32];
    assert!(c.queue_operation(admin, op_hash, 86_399, 0).is_err());
}

#[test]
fn queued_operation_window_is_eta_plus_grace() {
    let (mut c, admin) = setup_env();
    let op_id = c.queue_operation(admin, [6u8; 32], 100_000, 50).unwrap();
    let op = c.get_operation(op_id).unwrap();
    assert_eq!(op.eta, 100_050);
    assert_eq!(op.expires_at, 100_050 + GRACE_PERIOD);
}

#[test]
fn non_admin_cannot_queue_or_cancel() {
    let (mut c, admin) = setup_env();
    assert!(c.queue_operation(admin + 1, [7u8; 32], 86_400, 0).is_err());
    let op_id = c.queue_operation(admin, [7u8; 32], 86_400, 0).unwrap();
    assert!(c.cancel_operation(admin + 1, op_id).is_err());
    assert_eq!(c.get_operation(op_id).unwrap().status, OperationStatus::Pending);
}

#[test]
fn uninitialized_timelock_has_no_admin() {
    let c = TimelockContract::new();
    assert_eq!(c.get_admin(), Err(CallError::Code(ContractError::NotInitialized)));
}

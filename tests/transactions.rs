use js_runtime::lock::{
    LockRetry, RetryStep, LOCK_ATTEMPT_MICROS, LOCK_BACKOFF_MICROS, LOCK_WAIT_CEILING_MICROS,
    MAX_LOCK_ATTEMPTS,
};
use js_runtime::transaction::{plan, TxAction, TxError, TxOp, TxSlot};

#[test]
fn slot_begin_install_and_commit() {
    let mut slot: TxSlot<String> = TxSlot::new();
    assert!(!slot.is_active());
    assert_eq!(slot.check_begin(), Ok(()));
    assert_eq!(slot.install("tx1".to_string()), Ok(()));
    assert!(slot.is_active());

    // A nested begin is refused and the held transaction stays.
    assert_eq!(slot.check_begin(), Err(TxError::AlreadyActive));
    assert_eq!(slot.install("tx2".to_string()), Err("tx2".to_string()));
    assert_eq!(slot.current(), Some(&"tx1".to_string()));

    assert_eq!(slot.run_on_current(|t| t.len()), Some(3));
    assert_eq!(slot.finish_with(|t| format!("COMMIT {t}")), Some("COMMIT tx1".to_string()));
    assert!(!slot.is_active());
    assert_eq!(slot.run_on_current(|t| t.len()), None);
    assert_eq!(slot.finish_with(|t| t), None);
}

#[test]
fn invocation_end_drops_an_open_transaction() {
    let mut slot: TxSlot<u32> = TxSlot::new();
    assert!(!slot.end_invocation());
    slot.install(1).unwrap();
    assert!(slot.end_invocation());
    assert!(!slot.is_active());
    // The next begin on the now empty slot goes ahead.
    assert_eq!(slot.check_begin(), Ok(()));
    assert_eq!(slot.install(2), Ok(()));
}

#[test]
fn transaction_state_machine_table() {
    for held in [false, true] {
        let n = |a| if held { a } else { TxAction::Nothing };
        assert_eq!(plan(held, TxOp::Query), n(TxAction::RunStatement));
        assert_eq!(plan(held, TxOp::Execute), n(TxAction::RunStatement));
        assert_eq!(plan(held, TxOp::Commit), n(TxAction::RunCommit));
        assert_eq!(plan(held, TxOp::Rollback), n(TxAction::RunRollback));
        assert_eq!(plan(held, TxOp::EndInvocation), n(TxAction::DropHeld));
    }
    assert_eq!(plan(false, TxOp::Begin { acquired: true }), TxAction::Install);
    assert_eq!(plan(false, TxOp::Begin { acquired: false }), TxAction::LockUnavailable);
    assert_eq!(plan(true, TxOp::Begin { acquired: true }), TxAction::RejectNested);
    assert_eq!(plan(true, TxOp::Begin { acquired: false }), TxAction::RejectNested);
}

#[test]
fn error_messages() {
    assert_eq!(TxError::LockUnavailable.message(), "Failed to acquire lock");
    assert_eq!(TxError::AlreadyActive.message(), "transaction already active");
}

#[test]
fn retry_acquires_at_first_free_attempt() {
    let mut retry = LockRetry::new();
    assert_eq!(retry.record(true), RetryStep::Acquired);

    let mut retry = LockRetry::new();
    for _ in 0..10 {
        assert_eq!(retry.record(false), RetryStep::Backoff);
    }
    assert_eq!(retry.record(true), RetryStep::Acquired);
}

#[test]
fn retry_gives_up_after_every_attempt_failed() {
    let mut retry = LockRetry::new();
    let mut attempts = 0u32;
    loop {
        attempts += 1;
        match retry.record(false) {
            RetryStep::Backoff => continue,
            RetryStep::GiveUp => break,
            RetryStep::Acquired => panic!("no attempt succeeded"),
        }
    }
    assert_eq!(attempts, 200);
    assert_eq!(attempts, MAX_LOCK_ATTEMPTS);
}

#[test]
fn retry_budget_stays_under_the_ceiling() {
    let worst = MAX_LOCK_ATTEMPTS as u64 * LOCK_ATTEMPT_MICROS
        + (MAX_LOCK_ATTEMPTS as u64 - 1) * LOCK_BACKOFF_MICROS;
    assert_eq!(worst, 89_600);
    assert!(worst <= LOCK_WAIT_CEILING_MICROS);
}

#[test]
fn abandoned_transaction_frees_the_lock_for_another_worker() {
    let write_lock = std::sync::Mutex::new(());
    let mut worker_a = TxSlot::new();
    let mut worker_b = TxSlot::new();

    // Worker A begins and holds the lock.
    let mut retry_a = LockRetry::new();
    let guard = write_lock.try_lock().ok();
    assert_eq!(retry_a.record(guard.is_some()), RetryStep::Acquired);
    assert_eq!(worker_a.install(guard.unwrap()).is_ok(), true);

    // Worker B finds the lock taken and backs off.
    let mut retry_b = LockRetry::new();
    let attempt = write_lock.try_lock().ok();
    assert!(attempt.is_none());
    assert_eq!(retry_b.record(attempt.is_some()), RetryStep::Backoff);

    // A's guest callback threw: its invocation ends with the transaction open.
    assert!(worker_a.end_invocation());

    // B's next attempt takes the lock.
    let attempt = write_lock.try_lock().ok();
    assert_eq!(retry_b.record(attempt.is_some()), RetryStep::Acquired);
    assert!(worker_b.install(attempt.unwrap()).is_ok());
    assert!(!worker_a.is_active());
    assert!(worker_b.is_active());
    assert!(write_lock.try_lock().is_err());

    // B commits: the lock is free again.
    assert_eq!(worker_b.finish_with(drop), Some(()));
    assert!(write_lock.try_lock().is_ok());
}

use crate::transaction::{held_after, tx_action, TxAction, TxOp};
use vstd::prelude::*;

verus! {

/// How many times `transaction_begin` tries to take the write lock.
pub const MAX_LOCK_ATTEMPTS: u32 = 200;

/// How long one attempt waits for the write lock, in microseconds.
pub const LOCK_ATTEMPT_MICROS: u64 = 50;

/// How long to sleep between two attempts, in microseconds.
pub const LOCK_BACKOFF_MICROS: u64 = 400;

/// The longest time a begin may wait for the lock, in microseconds.
pub const LOCK_WAIT_CEILING_MICROS: u64 = 100_000;

/// What to do after an attempt to take the write lock.
#[derive(Clone, Copy, Debug, PartialEq, Eq, Structural)]
pub enum RetryStep {
    /// The lock is ours: begin the transaction.
    Acquired,
    /// Sleep for the backoff, then try again.
    Backoff,
    /// Every attempt failed: fail the begin.
    GiveUp,
}

pub open spec fn retry_step(attempts_before: nat, acquired: bool) -> RetryStep {
    if acquired {
        RetryStep::Acquired
    } else if attempts_before + 1 < MAX_LOCK_ATTEMPTS {
        RetryStep::Backoff
    } else {
        RetryStep::GiveUp
    }
}

/// The longest a begin waits before it gives up: every attempt times out and
/// a backoff sleep separates each two.
pub open spec fn worst_case_wait_micros() -> nat {
    (MAX_LOCK_ATTEMPTS * LOCK_ATTEMPT_MICROS + (MAX_LOCK_ATTEMPTS - 1) * LOCK_BACKOFF_MICROS) as nat
}

/// The bounded retry of one `transaction_begin`: the driver tries the lock
/// with a short timeout, reports the result, and does what comes back.
pub struct LockRetry {
    attempts: u32,
}

impl LockRetry {
    pub closed spec fn attempts(&self) -> nat {
        self.attempts as nat
    }

    pub fn new() -> (r: Self)
        ensures
            r.attempts() == 0,
    {
        LockRetry { attempts: 0 }
    }

    /// Records the result of one attempt.
    pub fn record(&mut self, acquired: bool) -> (s: RetryStep)
        requires
            old(self).attempts() <= MAX_LOCK_ATTEMPTS,
        ensures
            s == retry_step(old(self).attempts(), acquired),
            final(self).attempts() == if old(self).attempts() < MAX_LOCK_ATTEMPTS {
                old(self).attempts() + 1
            } else {
                old(self).attempts()
            },
            final(self).attempts() <= MAX_LOCK_ATTEMPTS,
            s == RetryStep::Backoff ==> final(self).attempts() < MAX_LOCK_ATTEMPTS,
    {
        let before = self.attempts;
        if self.attempts < MAX_LOCK_ATTEMPTS {
            self.attempts = self.attempts + 1;
        }
        if acquired {
            RetryStep::Acquired
        } else if before + 1 < MAX_LOCK_ATTEMPTS {
            RetryStep::Backoff
        } else {
            RetryStep::GiveUp
        }
    }
}

/// No two workers hold a write transaction at once.
pub open spec fn at_most_one_held(holders: Seq<bool>) -> bool {
    forall|i: int, j: int| 0 <= i < holders.len() && 0 <= j < holders.len() && i != j ==> !(
    holders[i] && holders[j])
}

/// The write lock is free when no worker's slot holds a transaction: each
/// held transaction owns the lock, and the lock is released when it goes.
pub open spec fn lock_free(holders: Seq<bool>) -> bool {
    forall|i: int| 0 <= i < holders.len() ==> !holders[i]
}

/// The slots of all workers after worker `w` performs `op`.
pub open spec fn holders_after(holders: Seq<bool>, w: int, op: TxOp) -> Seq<bool> {
    holders.update(w, held_after(holders[w], op))
}

/// Across all workers at most one write transaction holds the database write
/// lock. The lock grants an acquisition only while it is free; from there
/// every operation of every worker keeps at most one slot held.
pub proof fn lemma_write_lock_exclusive(holders: Seq<bool>, w: int, op: TxOp)
    requires
        0 <= w < holders.len(),
        at_most_one_held(holders),
        op matches TxOp::Begin { acquired } && acquired ==> lock_free(holders),
    ensures
        at_most_one_held(holders_after(holders, w, op)),
{
}

/// Once a worker's invocation ends with a transaction left open (its
/// callback threw or omitted commit and rollback), the slot is cleared and
/// the lock is free: the next begin, on any worker, takes the lock at its
/// first attempt and installs its transaction, and a begin that finds the
/// lock taken gives up only after every attempt, within the ceiling.
pub proof fn lemma_lock_released_after_abandoned_transaction(holders: Seq<bool>, w: int, u: int)
    requires
        0 <= w < holders.len(),
        0 <= u < holders.len(),
        at_most_one_held(holders),
        holders[w],
    ensures
        tx_action(holders[w], TxOp::EndInvocation) == TxAction::DropHeld,
        lock_free(holders_after(holders, w, TxOp::EndInvocation)),
        tx_action(
            holders_after(holders, w, TxOp::EndInvocation)[u],
            TxOp::Begin { acquired: true },
        ) == TxAction::Install,
        retry_step(0, true) == RetryStep::Acquired,
        forall|k: nat| k + 1 < MAX_LOCK_ATTEMPTS ==> retry_step(k, false) == RetryStep::Backoff,
        retry_step((MAX_LOCK_ATTEMPTS - 1) as nat, false) == RetryStep::GiveUp,
        worst_case_wait_micros() <= LOCK_WAIT_CEILING_MICROS,
{
}

} // verus!

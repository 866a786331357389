use vstd::prelude::*;

verus! {

/// An operation of the guest bridge on a worker's transaction slot.
#[derive(Clone, Copy, Debug, PartialEq, Eq, Structural)]
pub enum TxOp {
    /// `transaction_begin`, once the write-lock acquisition has ended.
    Begin { acquired: bool },
    /// `transaction_query`.
    Query,
    /// `transaction_execute`.
    Execute,
    /// `transaction_commit`.
    Commit,
    /// `transaction_rollback`.
    Rollback,
    /// The top-level guest invocation returned or threw.
    EndInvocation,
}

/// What the bridge does for an operation, given whether a transaction is held.
#[derive(Clone, Copy, Debug, PartialEq, Eq, Structural)]
pub enum TxAction {
    /// Store the newly acquired transaction in the slot.
    Install,
    /// Begin while a transaction is held: a protocol violation, reported to
    /// the guest as an error.
    RejectNested,
    /// The write lock could not be acquired: the begin promise rejects.
    LockUnavailable,
    /// Run the statement on the held transaction.
    RunStatement,
    /// Execute `COMMIT` on the held transaction and clear the slot.
    RunCommit,
    /// Execute `ROLLBACK` on the held transaction and clear the slot.
    RunRollback,
    /// Drop the held transaction, which releases the lock and rolls back.
    DropHeld,
    /// No transaction is held: the guest gets `null`, nothing else happens.
    Nothing,
}

/// Whether the slot holds a transaction after `op`.
pub open spec fn held_after(held: bool, op: TxOp) -> bool {
    match op {
        TxOp::Begin { acquired } => held || acquired,
        TxOp::Query | TxOp::Execute => held,
        TxOp::Commit | TxOp::Rollback | TxOp::EndInvocation => false,
    }
}

/// The state machine of the slot: what each operation does.
pub open spec fn tx_action(held: bool, op: TxOp) -> TxAction {
    match op {
        TxOp::Begin { acquired } => if held {
            TxAction::RejectNested
        } else if acquired {
            TxAction::Install
        } else {
            TxAction::LockUnavailable
        },
        TxOp::Query | TxOp::Execute => if held {
            TxAction::RunStatement
        } else {
            TxAction::Nothing
        },
        TxOp::Commit => if held {
            TxAction::RunCommit
        } else {
            TxAction::Nothing
        },
        TxOp::Rollback => if held {
            TxAction::RunRollback
        } else {
            TxAction::Nothing
        },
        TxOp::EndInvocation => if held {
            TxAction::DropHeld
        } else {
            TxAction::Nothing
        },
    }
}

/// The action for `op` on a slot that does or does not hold a transaction.
pub fn plan(held: bool, op: TxOp) -> (a: TxAction)
    ensures
        a == tx_action(held, op),
{
    match op {
        TxOp::Begin { acquired } => {
            if held {
                TxAction::RejectNested
            } else if acquired {
                TxAction::Install
            } else {
                TxAction::LockUnavailable
            }
        },
        TxOp::Query | TxOp::Execute => {
            if held {
                TxAction::RunStatement
            } else {
                TxAction::Nothing
            }
        },
        TxOp::Commit => {
            if held {
                TxAction::RunCommit
            } else {
                TxAction::Nothing
            }
        },
        TxOp::Rollback => {
            if held {
                TxAction::RunRollback
            } else {
                TxAction::Nothing
            }
        },
        TxOp::EndInvocation => {
            if held {
                TxAction::DropHeld
            } else {
                TxAction::Nothing
            }
        },
    }
}

/// Errors of the transaction bridge, as the guest sees them.
#[derive(Clone, Copy, Debug, PartialEq, Eq, Structural)]
pub enum TxError {
    /// `transaction_begin` while this worker already holds a transaction.
    AlreadyActive,
    /// The write lock stayed taken through every attempt.
    LockUnavailable,
}

impl TxError {
    pub fn message(&self) -> (r: &'static str)
        ensures
            r@ == (match self {
                TxError::AlreadyActive => "transaction already active",
                TxError::LockUnavailable => "Failed to acquire lock",
            })@,
    {
        match self {
            TxError::AlreadyActive => "transaction already active",
            TxError::LockUnavailable => "Failed to acquire lock",
        }
    }
}

/// The per-worker slot for the one write transaction a guest may hold. The
/// transaction owns the database write lock; dropping it releases the lock.
pub struct TxSlot<T> {
    current: Option<T>,
}

impl<T> View for TxSlot<T> {
    type V = Option<T>;

    closed spec fn view(&self) -> Option<T> {
        self.current
    }
}

impl<T> TxSlot<T> {
    pub fn new() -> (s: Self)
        ensures
            s@ is None,
    {
        TxSlot { current: None }
    }

    pub fn is_active(&self) -> (r: bool)
        ensures
            r == self@ is Some,
    {
        self.current.is_some()
    }

    /// The check `transaction_begin` makes before it waits for the lock.
    pub fn check_begin(&self) -> (r: Result<(), TxError>)
        ensures
            r is Ok <==> self@ is None,
            r is Err ==> r == Err::<(), TxError>(TxError::AlreadyActive),
    {
        if self.current.is_some() {
            Err(TxError::AlreadyActive)
        } else {
            Ok(())
        }
    }

    /// Stores a newly begun transaction. A slot that is already taken keeps
    /// its transaction, and the new one is handed back.
    pub fn install(&mut self, tx: T) -> (r: Result<(), T>)
        ensures
            old(self)@ is None ==> r is Ok && final(self)@ == Some(tx),
            old(self)@ is Some ==> r == Err::<(), T>(tx) && final(self)@ == old(self)@,
            final(self)@.is_some() == held_after(
                old(self)@.is_some(),
                TxOp::Begin { acquired: true },
            ),
    {
        if self.current.is_some() {
            Err(tx)
        } else {
            self.current = Some(tx);
            Ok(())
        }
    }

    /// The held transaction, for `transaction_query` and `transaction_execute`.
    pub fn current(&self) -> (r: Option<&T>)
        ensures
            r == match self@ {
                Some(t) => Some(&t),
                None => None::<&T>,
            },
    {
        match &self.current {
            Some(t) => Some(t),
            None => None,
        }
    }

    /// Runs a statement on the held transaction. With no transaction held
    /// nothing runs and the guest gets `null`.
    pub fn run_on_current<R, F: FnOnce(&T) -> R>(&self, run: F) -> (r: Option<R>)
        requires
            forall|t: &T| run.requires((t,)),
        ensures
            self@ is None ==> r is None,
            self@ matches Some(t) ==> r matches Some(v) && run.ensures((&t,), v),
    {
        match &self.current {
            Some(t) => Some(run(t)),
            None => None,
        }
    }

    /// Ends the held transaction with `finish` (which executes `COMMIT` or
    /// `ROLLBACK` on it); the slot is empty afterwards. With no transaction
    /// held nothing runs.
    pub fn finish_with<R, F: FnOnce(T) -> R>(&mut self, finish: F) -> (r: Option<R>)
        requires
            forall|t: T| finish.requires((t,)),
        ensures
            final(self)@ is None,
            old(self)@ is None ==> r is None,
            old(self)@ matches Some(t) ==> r matches Some(v) && finish.ensures((t,), v),
            final(self)@.is_some() == held_after(old(self)@.is_some(), TxOp::Commit),
            final(self)@.is_some() == held_after(old(self)@.is_some(), TxOp::Rollback),
    {
        match self.current.take() {
            Some(t) => Some(finish(t)),
            None => None,
        }
    }

    /// Called when a top-level guest invocation returns or throws: a
    /// transaction the guest left open is dropped, which releases the write
    /// lock and rolls back. Returns whether one was dropped.
    pub fn end_invocation(&mut self) -> (dropped: bool)
        ensures
            final(self)@ is None,
            dropped == old(self)@ is Some,
            final(self)@.is_some() == held_after(old(self)@.is_some(), TxOp::EndInvocation),
    {
        let held = self.current.take();
        held.is_some()
    }
}

/// How many transactions a slot holds.
pub open spec fn active_count<T>(slot: Option<T>) -> nat {
    if slot is Some {
        1
    } else {
        0
    }
}

/// A worker's slot holds no more than one write transaction at any time: a
/// begin on a held slot is rejected before it waits for the lock, and
/// `install` into a held slot keeps the transaction already there.
pub proof fn lemma_one_transaction_per_worker<T>(slot: Option<T>, acquired: bool)
    ensures
        active_count(slot) <= 1,
        slot is Some ==> tx_action(true, TxOp::Begin { acquired }) == TxAction::RejectNested,
        slot is Some ==> held_after(true, TxOp::Begin { acquired }),
{
}

/// After a top-level guest invocation returns or throws, the worker's slot
/// is empty, whatever the guest did with its transaction.
pub proof fn lemma_invocation_end_empties_slot(held: bool)
    ensures
        !held_after(held, TxOp::EndInvocation),
        held ==> tx_action(held, TxOp::EndInvocation) == TxAction::DropHeld,
{
}

} // verus!

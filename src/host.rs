use vstd::prelude::*;

verus! {

/// The host functions the runtime installs into every isolate.
#[derive(Clone, Copy, Debug, PartialEq, Eq, Structural)]
pub enum HostFn {
    IsolateId,
    Query,
    Execute,
    TransactionBegin,
    TransactionQuery,
    TransactionExecute,
    TransactionCommit,
    TransactionRollback,
}

/// How many arguments each host function takes.
pub open spec fn arity_of(f: HostFn) -> nat {
    match f {
        HostFn::Query | HostFn::Execute | HostFn::TransactionQuery
        | HostFn::TransactionExecute => 2,
        _ => 0,
    }
}

/// The name under which the guest calls each host function.
pub open spec fn name_of(f: HostFn) -> &'static str {
    match f {
        HostFn::IsolateId => "isolate_id",
        HostFn::Query => "query",
        HostFn::Execute => "execute",
        HostFn::TransactionBegin => "transaction_begin",
        HostFn::TransactionQuery => "transaction_query",
        HostFn::TransactionExecute => "transaction_execute",
        HostFn::TransactionCommit => "transaction_commit",
        HostFn::TransactionRollback => "transaction_rollback",
    }
}

/// The host functions that return a promise; the others answer at once.
pub open spec fn async_fn(f: HostFn) -> bool {
    f == HostFn::Query || f == HostFn::Execute || f == HostFn::TransactionBegin
}

/// Why a host function refused its arguments.
#[derive(Clone, Copy, Debug, PartialEq, Eq, Structural)]
pub enum ArgError {
    /// The guest passed `got` arguments where `expected` are taken.
    WrongCount { expected: usize, got: usize },
    /// Argument `index` was asked for, but only `len` were passed.
    OutOfRange { index: usize, len: usize },
}

impl HostFn {
    /// The name under which the guest calls the function.
    pub fn name(&self) -> (r: &'static str)
        ensures
            r@ == name_of(*self)@,
    {
        match self {
            HostFn::IsolateId => "isolate_id",
            HostFn::Query => "query",
            HostFn::Execute => "execute",
            HostFn::TransactionBegin => "transaction_begin",
            HostFn::TransactionQuery => "transaction_query",
            HostFn::TransactionExecute => "transaction_execute",
            HostFn::TransactionCommit => "transaction_commit",
            HostFn::TransactionRollback => "transaction_rollback",
        }
    }

    pub fn arity(&self) -> (r: usize)
        ensures
            r == arity_of(*self),
    {
        match self {
            HostFn::Query | HostFn::Execute | HostFn::TransactionQuery
            | HostFn::TransactionExecute => 2,
            _ => 0,
        }
    }

    pub fn is_async(&self) -> (r: bool)
        ensures
            r == async_fn(*self),
    {
        match self {
            HostFn::Query | HostFn::Execute | HostFn::TransactionBegin => true,
            _ => false,
        }
    }

    /// Checks the number of arguments a guest passed.
    pub fn check_arity(&self, got: usize) -> (r: Result<(), ArgError>)
        ensures
            r is Ok <==> got == arity_of(*self),
            r is Err ==> r == Err::<(), ArgError>(
                ArgError::WrongCount { expected: arity_of(*self) as usize, got },
            ),
    {
        let expected = self.arity();
        if got == expected {
            Ok(())
        } else {
            Err(ArgError::WrongCount { expected, got })
        }
    }
}

/// Argument `i` of a host call, or the error the guest sees when it passed
/// fewer.
pub fn arg_at<T>(args: &[T], i: usize) -> (r: Result<&T, ArgError>)
    ensures
        i < args@.len() ==> r == Ok::<&T, ArgError>(&args@[i as int]),
        i >= args@.len() ==> r == Err::<&T, ArgError>(
            ArgError::OutOfRange { index: i, len: args@.len() as usize },
        ),
{
    if i < args.len() {
        Ok(&args[i])
    } else {
        Err(ArgError::OutOfRange { index: i, len: args.len() })
    }
}

/// The authenticated user handed to guest route handlers.
pub struct JsUser {
    /// Base64 encoded user id.
    pub id: String,
    pub email: String,
    pub csrf: String,
}

} // verus!

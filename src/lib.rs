//! Isolate pool runtime: the decision logic of each worker's event loop, the
//! registry of parked completers, the per-worker transaction slot and the
//! bounded write-lock retry, the host functions exposed to guests, the SQL
//! validators, and the server's command-line types.

pub mod bench;
pub mod cli;
pub mod host;
pub mod lock;
pub mod pool;
pub mod registry;
pub mod transaction;
pub mod validators;
pub mod worker;

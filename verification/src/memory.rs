use vstd::prelude::*;

use crate::errors::DatabaseError;
use crate::guard::{ConnectionGuard, OpenOutcome};
use crate::ports::{DatabaseHealth, DatabasePort};

verus! {

/// A self-contained lifecycle adapter over the verified guard, with no
/// engine behind it: an open always succeeds and stores a unit handle.
///
/// It carries the whole port contract inside the library — a witness that
/// every clause of [`DatabasePort`] is implementable — and serves callers
/// that need the lifecycle without a real engine, the ephemeral in-memory
/// deployment first among them.
pub struct MemoryAdapter {
    guard: ConnectionGuard<()>,
}

impl MemoryAdapter {
    /// A fresh, disconnected adapter keeping the given storage target.
    pub fn new(storage_target: String) -> (a: Self)
        ensures
            !a.connected(),
    {
        MemoryAdapter { guard: ConnectionGuard::new(storage_target) }
    }
}

impl DatabasePort for MemoryAdapter {
    closed spec fn connected(&self) -> bool {
        self.guard.state() is Open
    }

    /// With no engine to refuse, a connect always succeeds and always
    /// leaves the adapter connected — stronger than the port asks.
    fn connect(&mut self) -> (r: Result<(), DatabaseError>)
        ensures
            r is Ok,
            final(self).connected(),
    {
        if self.guard.begin_open() {
            self.guard.commit_open(OpenOutcome::Opened(()))
        } else {
            Ok(())
        }
    }

    fn disconnect(&mut self) -> (r: Result<(), DatabaseError>) {
        self.guard.close()
    }

    fn health_check(&self) -> (r: Result<DatabaseHealth, DatabaseError>) {
        Ok(self.guard.inspect())
    }
}

} // verus!

use vstd::prelude::*;

use crate::errors::DatabaseError;
use crate::ports::{health_message, DatabaseHealth, DatabasePort};

verus! {

/// Thin orchestration layer over a lifecycle port.
///
/// The service is stateless itself — it holds only the adapter it
/// delegates to — and translates nothing: structured errors and health
/// snapshots pass through unchanged, one attempt per call, no retries and
/// no timeouts. The caller decides whether to retry a surfaced failure.
pub struct DatabaseService<P: DatabasePort> {
    database_adapter: P,
}

impl<P: DatabasePort> DatabaseService<P> {
    /// Whether the underlying adapter currently holds an open connection.
    pub closed spec fn connected(&self) -> bool {
        self.database_adapter.connected()
    }

    /// A service over the given adapter.
    pub fn new(database_adapter: P) -> (s: Self)
        ensures
            s.connected() == database_adapter.connected(),
    {
        DatabaseService { database_adapter }
    }

    /// Establish the connection: delegates to the adapter and propagates
    /// its outcome unchanged. Success leaves the service connected; a
    /// failure is a `ConnectionFailed` and leaves it disconnected, exactly
    /// as a failed open found it.
    pub fn connect(&mut self) -> (r: Result<(), DatabaseError>)
        ensures
            old(self).connected() ==> r is Ok,
            r is Ok ==> final(self).connected(),
            r is Err ==> !old(self).connected() && !final(self).connected(),
            r is Err ==> r->Err_0 is ConnectionFailed,
    {
        self.database_adapter.connect()
    }

    /// Tear the connection down: delegates to the adapter. Always a
    /// success, and always leaves the service disconnected.
    pub fn disconnect(&mut self) -> (r: Result<(), DatabaseError>)
        ensures
            r is Ok,
            !final(self).connected(),
    {
        self.database_adapter.disconnect()
    }

    /// Report health: delegates to the adapter and passes the snapshot
    /// through unchanged. Cannot fail; the snapshot's `connected` flag
    /// equals the service's state at the instant of the call, and its
    /// message is the fixed text for that flag.
    pub fn get_health(&self) -> (r: Result<DatabaseHealth, DatabaseError>)
        ensures
            r is Ok,
            r->Ok_0.connected == self.connected(),
            r->Ok_0.message@ == health_message(r->Ok_0.connected),
    {
        self.database_adapter.health_check()
    }
}

} // verus!

use vstd::prelude::*;

use crate::errors::DatabaseError;

verus! {

/// A snapshot of the lifecycle state at the instant of observation.
///
/// The value is recomputed on every call, never cached: `connected` tells
/// whether a handle was held at that instant, `message` carries a human
/// readable description of the same fact.
#[derive(Debug, Clone)]
pub struct DatabaseHealth {
    pub connected: bool,
    pub message: String,
}

/// The health text that describes a connected or a disconnected state.
/// Every health snapshot the library hands out carries exactly this text
/// for its flag, so the message is a function of the connected state and
/// survives every layer's field-for-field copy unchanged.
pub open spec fn health_message(connected: bool) -> Seq<char> {
    if connected {
        "Database connection is healthy"@
    } else {
        "Database is not connected"@
    }
}

/// The lifecycle port that an infrastructure adapter implements and the
/// service layer calls through.
///
/// `connected` is the adapter's abstract state: whether it currently holds
/// an open connection handle. The three operations must keep the contract
/// below; the library's service layer is verified against it, and every
/// adapter — in-process stubs as much as real engine adapters — owes its
/// callers the same behaviour.
pub trait DatabasePort {
    /// Whether the adapter currently holds an open connection handle.
    spec fn connected(&self) -> bool;

    /// Establish the connection. Idempotent: an adapter that is already
    /// connected reports success without creating a second handle. A
    /// failure leaves the adapter disconnected, exactly as it was, and is
    /// reported as `ConnectionFailed`.
    fn connect(&mut self) -> (r: Result<(), DatabaseError>)
        ensures
            old(self).connected() ==> r is Ok,
            r is Ok ==> final(self).connected(),
            r is Err ==> !old(self).connected() && !final(self).connected(),
            r is Err ==> r->Err_0 is ConnectionFailed,
    ;

    /// Tear the connection down. Idempotent and infallible: whatever was
    /// held is released, and disconnecting an already-disconnected adapter
    /// is a no-op success.
    fn disconnect(&mut self) -> (r: Result<(), DatabaseError>)
        ensures
            r is Ok,
            !final(self).connected(),
    ;

    /// Report the current state. Never fails and never mutates: the
    /// returned snapshot's `connected` field equals the adapter's state at
    /// the instant of the call, and its message is the fixed text for that
    /// flag.
    fn health_check(&self) -> (r: Result<DatabaseHealth, DatabaseError>)
        ensures
            r is Ok,
            r->Ok_0.connected == self.connected(),
            r->Ok_0.message@ == health_message(r->Ok_0.connected),
    ;
}

} // verus!

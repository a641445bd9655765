use vstd::prelude::*;

use crate::errors::caller_message;
use crate::errors::DatabaseError;
use crate::ports::health_message;
use crate::ports::DatabaseHealth;
use crate::ports::DatabasePort;
use crate::service::DatabaseService;

verus! {

/// The caller-facing response shape for a health query: a field-for-field
/// copy of [`DatabaseHealth`], with no semantic transformation.
#[derive(Debug, Clone)]
pub struct DatabaseHealthResponse {
    pub connected: bool,
    pub message: String,
}

impl From<DatabaseHealth> for DatabaseHealthResponse {
    /// Copy the snapshot field for field into the response shape.
    fn from(health: DatabaseHealth) -> (r: Self) {
        DatabaseHealthResponse { connected: health.connected, message: health.message }
    }
}

impl vstd::std_specs::convert::FromSpecImpl<DatabaseHealth> for DatabaseHealthResponse {
    open spec fn obeys_from_spec() -> bool {
        true
    }

    open spec fn from_spec(health: DatabaseHealth) -> Self {
        DatabaseHealthResponse { connected: health.connected, message: health.message }
    }
}

/// Establish the connection for an external caller.
///
/// Delegates to the service; a structured failure is flattened to its
/// caller-facing string — the one-way, display-only transformation that is
/// acceptable only at this outermost boundary.
pub fn db_connect<P: DatabasePort>(database_service: &mut DatabaseService<P>) -> (r: Result<
    (),
    String,
>)
    ensures
        old(database_service).connected() ==> r is Ok,
        r is Ok ==> final(database_service).connected(),
        r is Err ==> !old(database_service).connected() && !final(database_service).connected(),
        r matches Err(m) ==> exists|e: DatabaseError|
            e is ConnectionFailed && m@ == #[trigger] caller_message(e),
{
    match database_service.connect() {
        Ok(()) => Ok(()),
        Err(e) => {
            let m = e.message();
            proof {
                assert(e is ConnectionFailed && m@ == caller_message(e));
            }
            Err(m)
        },
    }
}

/// Tear the connection down for an external caller.
///
/// Delegates to the service; cannot fail, and leaves the service
/// disconnected. A structured failure, should a future engine ever
/// produce one, would be flattened to its caller-facing string here.
pub fn db_disconnect<P: DatabasePort>(database_service: &mut DatabaseService<P>) -> (r: Result<
    (),
    String,
>)
    ensures
        r is Ok,
        !final(database_service).connected(),
{
    match database_service.disconnect() {
        Ok(()) => Ok(()),
        Err(e) => Err(e.message()),
    }
}

/// Report health to an external caller.
///
/// Delegates to the service and copies the snapshot field for field into
/// the response shape; cannot fail. The response's `connected` flag equals
/// the service's state and its message is the fixed text for that flag —
/// nothing of the snapshot is transformed or replaced on the way out.
pub fn db_health<P: DatabasePort>(database_service: &DatabaseService<P>) -> (r: Result<
    DatabaseHealthResponse,
    String,
>)
    ensures
        r is Ok,
        r->Ok_0.connected == database_service.connected(),
        r->Ok_0.message@ == health_message(r->Ok_0.connected),
{
    match database_service.get_health() {
        Ok(health) => Ok(DatabaseHealthResponse::from(health)),
        Err(e) => Err(e.message()),
    }
}

} // verus!

use ideanet::commands::db_connect;
use ideanet::commands::db_disconnect;
use ideanet::commands::db_health;
use ideanet::commands::DatabaseHealthResponse;
use ideanet::errors::DatabaseError;
use ideanet::guard::ConnectionGuard;
use ideanet::guard::OpenOutcome;
use ideanet::memory::MemoryAdapter;
use ideanet::ports::DatabaseHealth;
use ideanet::ports::DatabasePort;
use ideanet::service::DatabaseService;

/// A counting stub engine adapter over the verified guard: each engine
/// invocation creates one handle, and the engine can be told to refuse.
struct StubAdapter {
    guard: ConnectionGuard<u32>,
    handles_created: u32,
    engine_ok: bool,
}

impl StubAdapter {
    fn new(engine_ok: bool) -> Self {
        StubAdapter {
            guard: ConnectionGuard::new("memory".to_string()),
            handles_created: 0,
            engine_ok,
        }
    }
}

impl DatabasePort for StubAdapter {
    fn connected(&self) -> bool {
        !self.guard.begin_open()
    }

    fn connect(&mut self) -> Result<(), DatabaseError> {
        if self.guard.begin_open() {
            let outcome = if self.engine_ok {
                self.handles_created += 1;
                OpenOutcome::Opened(self.handles_created)
            } else {
                OpenOutcome::CreationFailed("engine refused".to_string())
            };
            self.guard.commit_open(outcome)
        } else {
            Ok(())
        }
    }

    fn disconnect(&mut self) -> Result<(), DatabaseError> {
        self.guard.close()
    }

    fn health_check(&self) -> Result<DatabaseHealth, DatabaseError> {
        Ok(self.guard.inspect())
    }
}

#[test]
fn connect_twice_succeeds_with_one_handle() {
    let mut service = DatabaseService::new(StubAdapter::new(true));
    assert!(service.connect().is_ok());
    assert!(service.connect().is_ok());
    let health = service.get_health().unwrap();
    assert!(health.connected);
}

#[test]
fn many_connects_still_one_handle() {
    let mut adapter = StubAdapter::new(true);
    for _ in 0..5 {
        assert!(adapter.connect().is_ok());
    }
    assert_eq!(adapter.handles_created, 1);
}

#[test]
fn disconnect_when_never_connected_succeeds() {
    let mut service = DatabaseService::new(StubAdapter::new(true));
    assert!(service.disconnect().is_ok());
    let health = service.get_health().unwrap();
    assert!(!health.connected);
}

#[test]
fn health_reflects_connect_and_disconnect() {
    let mut service = DatabaseService::new(StubAdapter::new(true));
    assert!(!service.get_health().unwrap().connected);
    assert!(service.connect().is_ok());
    assert!(service.get_health().unwrap().connected);
    assert!(service.disconnect().is_ok());
    assert!(!service.get_health().unwrap().connected);
}

#[test]
fn failed_connect_leaves_no_residue_and_allows_retry() {
    let mut service = DatabaseService::new(StubAdapter::new(false));
    match service.connect() {
        Err(DatabaseError::ConnectionFailed(m)) => {
            assert_eq!(m, "Failed to create database connection: engine refused");
        },
        other => panic!("expected ConnectionFailed, got {:?}", other),
    }
    assert!(!service.get_health().unwrap().connected);
    // A later connect attempt is not blocked by residual state.
    let mut service = DatabaseService::new(StubAdapter::new(true));
    assert!(service.connect().is_ok());
    assert!(service.get_health().unwrap().connected);
}

#[test]
fn command_round_trip() {
    let mut service = DatabaseService::new(StubAdapter::new(true));
    assert!(db_connect(&mut service).is_ok());
    let health = db_health(&service).unwrap();
    assert!(health.connected);
    assert_eq!(health.message, "Database connection is healthy");
    assert!(db_disconnect(&mut service).is_ok());
    let health = db_health(&service).unwrap();
    assert!(!health.connected);
    assert_eq!(health.message, "Database is not connected");
    assert!(db_connect(&mut service).is_ok());
    assert!(db_health(&service).unwrap().connected);
}

#[test]
fn command_flattens_connect_failure_to_a_string() {
    let mut service = DatabaseService::new(StubAdapter::new(false));
    let r = db_connect(&mut service);
    assert_eq!(
        r.unwrap_err(),
        "Connection failed: Failed to create database connection: engine refused"
    );
    assert!(!db_health(&service).unwrap().connected);
}

#[test]
fn memory_adapter_reports_never_connected() {
    let service = DatabaseService::new(MemoryAdapter::new("memory".to_string()));
    let health = service.get_health().unwrap();
    assert!(!health.connected);
    assert_eq!(health.message, "Database is not connected");
}

#[test]
fn memory_adapter_disconnect_before_any_connect_succeeds() {
    let mut service = DatabaseService::new(MemoryAdapter::new("memory".to_string()));
    assert!(service.disconnect().is_ok());
    assert!(!service.get_health().unwrap().connected);
}

#[test]
fn memory_adapter_round_trip_through_commands() {
    let mut service = DatabaseService::new(MemoryAdapter::new("memory".to_string()));
    assert!(db_connect(&mut service).is_ok());
    let health = db_health(&service).unwrap();
    assert!(health.connected);
    assert_eq!(health.message, "Database connection is healthy");
    // A second connect is an idempotent no-op success.
    assert!(db_connect(&mut service).is_ok());
    assert!(db_health(&service).unwrap().connected);
    assert!(db_disconnect(&mut service).is_ok());
    let health = db_health(&service).unwrap();
    assert!(!health.connected);
    assert_eq!(health.message, "Database is not connected");
}

#[test]
fn error_messages_carry_their_kind_prefix() {
    let e = DatabaseError::ConnectionFailed("x".to_string());
    assert_eq!(e.message(), "Connection failed: x");
    let e = DatabaseError::OperationFailed("y".to_string());
    assert_eq!(e.message(), "Database operation failed: y");
    let e = DatabaseError::ConfigurationError("z".to_string());
    assert_eq!(e.message(), "Configuration error: z");
}

#[test]
fn response_copies_health_field_for_field() {
    let health = DatabaseHealth {
        connected: true,
        message: "Database connection is healthy".to_string(),
    };
    let response = DatabaseHealthResponse::from(health);
    assert!(response.connected);
    assert_eq!(response.message, "Database connection is healthy");
}

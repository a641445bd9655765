use vstd::prelude::*;
use vstd::string::StringExecFns;

verus! {

/// Structured error taxonomy for the connection lifecycle.
///
/// Internal layers propagate these values unchanged; only the outermost
/// boundary flattens one to a caller-facing string, via [`DatabaseError::message`].
#[derive(Debug, Clone)]
pub enum DatabaseError {
    /// The embedded engine refused to open, or refused to initialize its
    /// namespace/database context. Not retried automatically; the caller may
    /// retry, since a failed open never corrupts the guard state.
    ConnectionFailed(String),
    /// Reserved for engine-level operation errors distinct from connection
    /// setup.
    OperationFailed(String),
    /// The storage-location value could not be resolved; fatal to a connect
    /// attempt until the configuration is fixed.
    ConfigurationError(String),
}

/// The caller-facing text of an error: a fixed prefix naming the kind,
/// followed by the detail the error carries.
pub open spec fn caller_message(e: DatabaseError) -> Seq<char> {
    match e {
        DatabaseError::ConnectionFailed(d) => "Connection failed: "@ + d@,
        DatabaseError::OperationFailed(d) => "Database operation failed: "@ + d@,
        DatabaseError::ConfigurationError(d) => "Configuration error: "@ + d@,
    }
}

impl DatabaseError {
    /// Flatten the structured error to its caller-facing message.
    ///
    /// This is a one-way, display-only transformation: it loses the error
    /// kind and must only be used at the outermost boundary.
    pub fn message(&self) -> (m: String)
        ensures
            m@ == caller_message(*self),
    {
        match self {
            DatabaseError::ConnectionFailed(d) => {
                String::from_str("Connection failed: ").concat(d.as_str())
            },
            DatabaseError::OperationFailed(d) => {
                String::from_str("Database operation failed: ").concat(d.as_str())
            },
            DatabaseError::ConfigurationError(d) => {
                String::from_str("Configuration error: ").concat(d.as_str())
            },
        }
    }
}

} // verus!

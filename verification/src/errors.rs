use vstd::prelude::*;

verus! {

/// The supervisor's error taxonomy.
///
/// `NotFound`: a service name or call identifier is absent.
/// `AlreadyRunning`: a registration clashed with a present entry.
/// `Cancelled`: an in-flight call was stopped by an explicit cancellation.
/// `ServiceError`: an opaque failure surfaced verbatim from the remote
/// connection, annotated with the originating service name.
/// `ShutdownInProgress`: the operation was refused because teardown started.
#[derive(Debug, Clone)]
pub enum McpError {
    NotFound,
    AlreadyRunning,
    Cancelled,
    ServiceError { service: String, message: String },
    ShutdownInProgress,
}

} // verus!

//! Failures that the session's requests report to their callers.

use vstd::prelude::*;

verus! {

/// Why a login or a listing request failed.
#[derive(Debug, Clone, Copy, PartialEq, Eq, Structural)]
pub enum ApiError {
    /// The transport could not complete the request.
    TransportFailure,
    /// The reply lacks a field that the request needs, or it is not JSON.
    MalformedResponse,
    /// The server refused the request (for example wrong credentials).
    Rejected,
    /// The token file could not be written; the session itself stays usable.
    PersistenceFailure,
    /// A request that needs a logged-in session was asked for without one.
    PreconditionViolation,
}

} // verus!

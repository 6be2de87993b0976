//! Errors returned by guarded calls and by the breaker itself.
use vstd::prelude::*;

verus! {

/// Errors of an API call guarded by a circuit breaker.
#[derive(Debug, Clone, PartialEq, Eq)]
pub enum ApiError {
    /// The external service did not answer in time.
    Timeout,
    /// The external service answered with an error (for instance a 5xx status).
    ExternalService(String),
    /// The caller is not authorised.
    Unauthorized,
    /// The requested resource does not exist.
    NotFound(String),
    /// The service is unavailable and the caller should not retry.
    ServiceUnavailable(String),
    /// The circuit breaker of the named service is open and rejected the call.
    CircuitOpen(String),
}

impl ApiError {
    /// Transient errors are temporary failures of the external service:
    /// timeouts and upstream service errors. Only these count towards opening
    /// a closed circuit.
    pub open spec fn spec_is_transient(&self) -> bool {
        ||| *self is Timeout
        ||| *self is ExternalService
    }

    /// Whether the error is transient (see `spec_is_transient`).
    pub fn is_transient(&self) -> (r: bool)
        ensures
            r == self.spec_is_transient(),
    {
        match self {
            ApiError::Timeout => true,
            ApiError::ExternalService(_) => true,
            _ => false,
        }
    }
}

} // verus!

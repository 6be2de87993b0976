//! A circuit breaker that protects calls to an external service.
//!
//! The circuit moves through three states:
//! * **Closed** – normal operation; transient failures are counted.
//! * **Open** – requests are rejected immediately to shed load.
//! * **HalfOpen** – after the recovery timeout a probe request is let through;
//!   its success closes the circuit, its failure opens it again.
pub mod api_error;
pub mod breaker;
pub mod clock;
pub mod config;
pub mod laws;

pub use api_error::ApiError;
pub use breaker::{CallRecord, CircuitBreaker, CircuitModel, CircuitState, FailureEffect};

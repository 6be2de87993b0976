# circuit_breaker

A circuit breaker for calls to an external service, verified with Verus.

* `src/breaker.rs` – the breaker's abstract state (`CircuitModel`), its
  transitions, and the executable `CircuitBreaker` whose operations are proved
  to follow them: `admit_at`, `record_success`, `record_failure_at`, and
  `call`, which runs an operation under the breaker.
* `src/config.rs` – names of the environment variables that override a
  breaker's settings, parsing of their values, and `from_env_values`.
* `src/clock.rs` – the wall clock in milliseconds (trusted calls into `std::time`).
* `src/api_error.rs` – the error type and which errors are transient.
* `src/laws.rs` – properties that span several operations.
* `app/` – a breaker shared behind `Arc<Mutex<_>>` with an `async` `call`,
  metrics (`metrics`), logs (`tracing`), alerts (`sentry`) and the reading of
  environment variables.

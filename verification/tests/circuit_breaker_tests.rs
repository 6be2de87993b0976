use circuit_breaker::clock::now_millis;
use circuit_breaker::{ApiError, CircuitBreaker};
use std::time::Duration;

/// Waits on the wall clock for at least `ms` milliseconds.
fn wait_millis(ms: u64) {
    let start = now_millis();
    while now_millis() < start + ms {}
}

#[test]
fn circuit_starts_closed_and_allows_calls() {
    let mut cb = CircuitBreaker::new("test-service", 3, Duration::from_secs(10));
    let mut invocations = 0;

    let result = cb.call(|| {
        invocations += 1;
        Ok::<_, ApiError>(42)
    });

    assert!(result.is_ok());
    assert_eq!(result.unwrap(), 42);
    assert_eq!(invocations, 1);
}

#[test]
fn circuit_opens_after_threshold_failures() {
    let mut cb = CircuitBreaker::new("test-service", 3, Duration::from_secs(10));

    for i in 0..3 {
        let result = cb.call(|| Err::<(), ApiError>(ApiError::Timeout));
        assert!(result.is_err(), "Attempt {} should fail", i + 1);
        assert_eq!(cb.failure_count(), (i + 1) as u32);
    }

    let result = cb.call(|| -> Result<(), ApiError> { panic!("Circuit should prevent this call") });

    assert!(
        matches!(result, Err(ApiError::CircuitOpen(_))),
        "Circuit should reject call with CircuitOpen error"
    );
}

#[test]
fn non_transient_errors_do_not_increment_failure_count() {
    let mut cb = CircuitBreaker::new("test-service", 3, Duration::from_secs(10));

    let result = cb.call(|| Err::<(), ApiError>(ApiError::Unauthorized));
    assert!(result.is_err());
    assert_eq!(cb.failure_count(), 0, "Non-transient error should not increment count");

    let result = cb.call(|| Err::<(), ApiError>(ApiError::Timeout));
    assert!(result.is_err());
    assert_eq!(cb.failure_count(), 1, "Transient error should increment count");
}

#[test]
fn successful_call_resets_failure_count() {
    let mut cb = CircuitBreaker::new("test-service", 3, Duration::from_secs(10));

    let _ = cb.call(|| Err::<(), ApiError>(ApiError::Timeout));
    assert_eq!(cb.failure_count(), 1);

    let result = cb.call(|| Ok::<_, ApiError>(()));

    assert!(result.is_ok());
    assert_eq!(cb.failure_count(), 0, "Successful call should reset failure count");
}

#[test]
fn circuit_transitions_to_half_open_after_timeout() {
    let mut cb = CircuitBreaker::new("test-service", 2, Duration::from_millis(100));

    for _ in 0..2 {
        let _ = cb.call(|| Err::<(), ApiError>(ApiError::Timeout));
    }

    let result = cb.call(|| -> Result<(), ApiError> { panic!("Should not be called") });
    assert!(matches!(result, Err(ApiError::CircuitOpen(_))));

    wait_millis(150);

    let mut invocations = 0;
    let result = cb.call(|| {
        invocations += 1;
        Ok::<_, ApiError>(42)
    });

    assert!(result.is_ok());
    assert_eq!(invocations, 1, "HalfOpen should allow probe");
    assert_eq!(cb.failure_count(), 0, "Successful probe should reset failure count");
}

#[test]
fn half_open_probe_failure_reopens_circuit() {
    let mut cb = CircuitBreaker::new("test-service", 2, Duration::from_millis(100));

    for _ in 0..2 {
        let _ = cb.call(|| Err::<(), ApiError>(ApiError::Timeout));
    }

    wait_millis(150);

    let result = cb.call(|| Err::<(), ApiError>(ApiError::Timeout));
    assert!(result.is_err());
    assert_eq!(cb.failure_count(), 1, "Failed probe increments failure count");

    let result = cb.call(|| -> Result<(), ApiError> { panic!("Should not be called") });
    assert!(matches!(result, Err(ApiError::CircuitOpen(_))));
}

#[test]
fn half_open_probe_success_closes_circuit() {
    let mut cb = CircuitBreaker::new("test-service", 2, Duration::from_millis(100));

    for _ in 0..2 {
        let _ = cb.call(|| Err::<(), ApiError>(ApiError::Timeout));
    }

    wait_millis(150);

    let result = cb.call(|| Ok::<_, ApiError>(99));
    assert!(result.is_ok());
    assert_eq!(result.unwrap(), 99);
    assert_eq!(cb.failure_count(), 0, "Successful probe resets failure count");

    let result = cb.call(|| Ok::<_, ApiError>(88));
    assert!(result.is_ok());
    assert_eq!(result.unwrap(), 88);
}

#[test]
fn only_transient_errors_increment_failure_count() {
    let mut cb = CircuitBreaker::new("test-service", 5, Duration::from_secs(30));

    let _ = cb.call(|| Err::<(), ApiError>(ApiError::ExternalService("503".to_owned())));
    assert_eq!(cb.failure_count(), 1);

    let _ = cb.call(|| Err::<(), ApiError>(ApiError::NotFound("x".to_owned())));
    assert_eq!(cb.failure_count(), 1);

    let _ = cb.call(|| Err::<(), ApiError>(ApiError::Timeout));
    assert_eq!(cb.failure_count(), 2);

    let _ = cb.call(|| Err::<(), ApiError>(ApiError::Unauthorized));
    assert_eq!(cb.failure_count(), 2);
}

/// The calls of two callers sharing one breaker, in the order in which they
/// reach it: the first caller's two failures, then the second caller's call.
#[test]
fn concurrent_requests_respect_circuit_state() {
    let mut cb = CircuitBreaker::new("test-service", 2, Duration::from_secs(10));

    for _ in 0..2 {
        let _ = cb.call(|| Err::<(), ApiError>(ApiError::Timeout));
    }
    let _ = cb.call(|| Ok::<_, ApiError>(()));

    let result = cb.call(|| -> Result<(), ApiError> { panic!("Should not reach here") });
    assert!(matches!(result, Err(ApiError::CircuitOpen(_))));
}

/// Ten callers making five successful calls each through one breaker.
#[test]
fn concurrent_successful_calls_maintain_closed_state() {
    let mut cb = CircuitBreaker::new("test-service", 10, Duration::from_secs(10));
    let mut invocations = 0;

    for i in 0..10 {
        for _ in 0..5 {
            let _ = cb.call(|| {
                invocations += 1;
                Ok::<_, ApiError>(i)
            });
        }
    }

    assert_eq!(invocations, 50);
    assert_eq!(cb.failure_count(), 0);
}

/// `CB_CUSTOM_TEST_FAILURE_THRESHOLD=7` for the service `custom-test`.
#[test]
fn from_env_respects_failure_threshold_override() {
    let var = circuit_breaker::config::failure_threshold_var("custom-test");
    assert_eq!(var, "CB_CUSTOM_TEST_FAILURE_THRESHOLD");
    let cb = CircuitBreaker::from_env_values("custom-test", Some("7"), None, 5, 30);

    assert_eq!(cb.failure_threshold(), 7);
    assert_eq!(cb.recovery_timeout_secs(), 30);
}

/// `CB_CUSTOM_TEST_2_RECOVERY_TIMEOUT_SECS=120` for the service `custom-test-2`.
#[test]
fn from_env_respects_recovery_timeout_override() {
    let var = circuit_breaker::config::recovery_timeout_var("custom-test-2");
    assert_eq!(var, "CB_CUSTOM_TEST_2_RECOVERY_TIMEOUT_SECS");
    let cb = CircuitBreaker::from_env_values("custom-test-2", None, Some("120"), 5, 30);

    assert_eq!(cb.recovery_timeout_secs(), 120);
}

#[test]
fn from_env_uses_defaults_when_unset() {
    let cb = CircuitBreaker::from_env_values("default-test", None, None, 5, 60);

    assert_eq!(cb.failure_threshold(), 5);
    assert_eq!(cb.recovery_timeout_secs(), 60);
}

#[test]
fn rapid_failures_trigger_circuit() {
    let mut cb = CircuitBreaker::new("test-service", 5, Duration::from_secs(1));
    let mut invocations = 0;

    for _ in 0..5 {
        let result = cb.call(|| Err::<(), ApiError>(ApiError::Timeout));
        assert!(result.is_err());
    }

    let result = cb.call(|| -> Result<(), ApiError> {
        invocations += 1;
        panic!("Should not reach");
    });

    assert!(matches!(result, Err(ApiError::CircuitOpen(_))));
    assert_eq!(invocations, 0, "Circuit should prevent calls");
}

#[test]
fn below_threshold_failures_do_not_open_circuit() {
    let mut cb = CircuitBreaker::new("test-service", 5, Duration::from_secs(30));

    for i in 0..4 {
        let result = cb.call(|| Err::<(), ApiError>(ApiError::Timeout));
        assert!(result.is_err(), "Failure {} should be allowed", i + 1);
    }

    let result = cb.call(|| Ok::<_, ApiError>(42));

    assert!(result.is_ok(), "Circuit should allow calls when below threshold");
    assert_eq!(cb.failure_count(), 0, "Successful call resets counter");
}

#[test]
fn circuit_name_in_error_message() {
    let mut cb = CircuitBreaker::new("payment-gateway", 1, Duration::from_secs(10));

    let _ = cb.call(|| Err::<(), ApiError>(ApiError::Timeout));

    let result = cb.call(|| -> Result<(), ApiError> { panic!("Should not reach") });

    match result {
        Err(ApiError::CircuitOpen(name)) => {
            assert_eq!(name, "payment-gateway");
        }
        _ => panic!("Expected CircuitOpen error with service name"),
    }
}

#[test]
fn separate_circuit_breakers_independent() {
    let mut cb1 = CircuitBreaker::new("service-1", 2, Duration::from_secs(10));
    let mut cb2 = CircuitBreaker::new("service-2", 2, Duration::from_secs(10));

    for _ in 0..2 {
        let _ = cb1.call(|| Err::<(), ApiError>(ApiError::Timeout));
    }

    assert!(cb1
        .call(|| -> Result<(), ApiError> { panic!("Should not reach") })
        .is_err());

    let result = cb2.call(|| Ok::<_, ApiError>(42));
    assert!(result.is_ok());
    assert_eq!(result.unwrap(), 42);
}

//! The circuit breaker: its state, the decisions it takes, and `call`.
use crate::api_error::ApiError;
use crate::clock::{duration_as_millis, duration_millis, is_clock_reading, now_millis};
use std::time::Duration;
use vstd::prelude::*;

verus! {

/// The state of the circuit at a given time.
#[derive(Debug, Clone, Copy, PartialEq, Eq, Structural)]
pub enum CircuitState {
    /// Calls go through; transient failures are counted.
    Closed,
    /// Calls are rejected without being attempted.
    Open,
    /// The recovery timeout has elapsed: the next call is let through as a probe.
    HalfOpen,
}

/// What recording a failed call did to the breaker.
#[derive(Debug, Clone, Copy, PartialEq, Eq, Structural)]
pub enum FailureEffect {
    /// The error was not transient and the call was no probe: nothing changed.
    Ignored,
    /// The failure was counted; the circuit stays as it was.
    Counted,
    /// The failure reached the threshold and opened the closed circuit.
    Tripped,
    /// The probe failed and the circuit is open again.
    Reopened,
}

/// The abstract state of a breaker.
pub struct CircuitModel {
    /// Name of the guarded service, used in errors.
    pub service_name: Seq<char>,
    /// Consecutive transient failures that open a closed circuit.
    pub failure_threshold: u32,
    /// How long (milliseconds) the circuit stays open before a probe is let through.
    pub recovery_timeout_ms: u128,
    /// Failures counted since the last reset.
    pub failure_count: u32,
    /// When (milliseconds since the Unix epoch) the circuit was last opened;
    /// `None` while it is closed.
    pub opened_at: Option<u64>,
    /// Whether a probe has been let through and its outcome not yet recorded.
    pub probe_in_flight: bool,
}

/// The failure count after one more failure, held at `u32::MAX`.
pub open spec fn bumped(count: u32) -> u32 {
    if count < u32::MAX {
        (count + 1) as u32
    } else {
        count
    }
}

/// When a breaker with no failure counted was opened: never (`None`, the
/// circuit is closed), except with a threshold of 0. No failure is tolerated
/// then, so the count is always at the threshold and the circuit counts as
/// opened at the Unix epoch.
pub open spec fn reset_opened_at(failure_threshold: u32) -> Option<u64> {
    if failure_threshold == 0 {
        Some(0)
    } else {
        None
    }
}

impl CircuitModel {
    /// A breaker that has counted no failure: closed, or, for a threshold of 0,
    /// opened at the Unix epoch (see `reset_opened_at`).
    pub open spec fn fresh(service_name: Seq<char>, failure_threshold: u32, recovery_timeout_ms: u128) -> Self {
        CircuitModel {
            service_name,
            failure_threshold,
            recovery_timeout_ms,
            failure_count: 0,
            opened_at: reset_opened_at(failure_threshold),
            probe_in_flight: false,
        }
    }

    /// While the circuit is closed, the failure count stays below the threshold
    /// (so a circuit with a threshold of 0 is never closed), and a probe is only
    /// in flight while the circuit is open.
    pub open spec fn wf(self) -> bool {
        &&& self.opened_at is None ==> self.failure_count < self.failure_threshold
        &&& self.probe_in_flight ==> self.opened_at is Some
    }

    /// Milliseconds the circuit has been open at `now` (zero when closed, or when
    /// the clock reads earlier than the opening time).
    pub open spec fn open_for(self, now: u64) -> u64 {
        match self.opened_at {
            Some(t) => if now >= t { (now - t) as u64 } else { 0 },
            None => 0,
        }
    }

    /// The state of the circuit at time `now`: open while a probe is in flight,
    /// half-open once the recovery timeout has elapsed since it was opened.
    pub open spec fn state_at(self, now: u64) -> CircuitState {
        match self.opened_at {
            None => CircuitState::Closed,
            Some(_) => if !self.probe_in_flight && self.open_for(now) >= self.recovery_timeout_ms {
                CircuitState::HalfOpen
            } else {
                CircuitState::Open
            },
        }
    }

    /// The breaker once a call is admitted at `now`. Admitting a probe marks it
    /// in flight, so that no other call passes until its outcome is recorded.
    pub open spec fn admitted(self, now: u64) -> Self {
        if self.state_at(now) == CircuitState::HalfOpen {
            CircuitModel { probe_in_flight: true, ..self }
        } else {
            self
        }
    }

    /// The breaker after a successful call: no failure counted, and closed
    /// (opened at the epoch for a threshold of 0, see `reset_opened_at`).
    pub open spec fn succeeded(self) -> Self {
        CircuitModel {
            failure_count: 0,
            opened_at: reset_opened_at(self.failure_threshold),
            probe_in_flight: false,
            ..self
        }
    }

    /// The breaker after a failed call recorded at `now`. A failed probe opens
    /// the circuit again from `now` and starts a new count at one failure;
    /// otherwise only transient errors are counted, and the failure that brings
    /// the count of a closed circuit to the threshold opens it.
    pub open spec fn failed(self, probe: bool, transient: bool, now: u64) -> Self {
        if probe {
            CircuitModel { failure_count: 1, opened_at: Some(now), probe_in_flight: false, ..self }
        } else if !transient {
            self
        } else if self.opened_at is None && bumped(self.failure_count) == self.failure_threshold {
            CircuitModel { failure_count: bumped(self.failure_count), opened_at: Some(now), ..self }
        } else {
            CircuitModel { failure_count: bumped(self.failure_count), ..self }
        }
    }

    /// Which of the cases of `failed` applies.
    pub open spec fn failure_effect(self, probe: bool, transient: bool) -> FailureEffect {
        if probe {
            FailureEffect::Reopened
        } else if !transient {
            FailureEffect::Ignored
        } else if self.opened_at is None && bumped(self.failure_count) == self.failure_threshold {
            FailureEffect::Tripped
        } else {
            FailureEffect::Counted
        }
    }

    /// The breaker after a call admitted at `admitted_at` whose operation
    /// succeeded (`failure` is `None`) or failed with an error whose
    /// transience is `failure`, the failure being recorded at `finished_at`.
    pub open spec fn after_call(self, admitted_at: u64, failure: Option<bool>, finished_at: u64) -> Self {
        let running = self.admitted(admitted_at);
        match failure {
            None => running.succeeded(),
            Some(transient) => running.failed(
                self.state_at(admitted_at) == CircuitState::HalfOpen,
                transient,
                finished_at,
            ),
        }
    }
}

/// One call made through a breaker: when it was admitted (or rejected), how
/// its operation ended (`None` for a success, else whether the error is
/// transient), and when a failure was recorded.
pub struct CallRecord {
    pub admitted_at: u64,
    pub failure: Option<bool>,
    pub finished_at: u64,
}

impl CircuitModel {
    /// The breaker after one call: an open circuit rejects the call and stays
    /// as it is; otherwise the call runs (see `after_call`).
    pub open spec fn after_record(self, c: CallRecord) -> Self {
        if self.state_at(c.admitted_at) == CircuitState::Open {
            self
        } else {
            self.after_call(c.admitted_at, c.failure, c.finished_at)
        }
    }
}

/// `None` for a success, else whether the error is transient.
pub open spec fn failure_of<T>(result: Result<T, ApiError>) -> Option<bool> {
    match result {
        Ok(_) => None,
        Err(e) => Some(e.spec_is_transient()),
    }
}

/// Whether `result` is the rejection of an open circuit guarding `service_name`.
pub open spec fn is_rejection<T>(result: Result<T, ApiError>, service_name: Seq<char>) -> bool {
    match result {
        Err(ApiError::CircuitOpen(name)) => name@ == service_name,
        _ => false,
    }
}

/// A circuit breaker that prevents cascading failures.
///
/// ```rust,ignore
/// let mut cb = CircuitBreaker::new("price-feed", 5, Duration::from_secs(60));
/// let result = cb.call(|| fetch_price());
/// ```
pub struct CircuitBreaker {
    service_name: String,
    failure_threshold: u32,
    recovery_timeout_ms: u128,
    failure_count: u32,
    opened_at: Option<u64>,
    probe_in_flight: bool,
}

impl View for CircuitBreaker {
    type V = CircuitModel;

    closed spec fn view(&self) -> CircuitModel {
        CircuitModel {
            service_name: self.service_name@,
            failure_threshold: self.failure_threshold,
            recovery_timeout_ms: self.recovery_timeout_ms,
            failure_count: self.failure_count,
            opened_at: self.opened_at,
            probe_in_flight: self.probe_in_flight,
        }
    }
}

impl CircuitBreaker {
    #[verifier::type_invariant]
    spec fn well_formed(self) -> bool {
        self@.wf()
    }

    /// Creates a circuit breaker whose recovery timeout is given in
    /// milliseconds. It is closed, except with a threshold of 0 (see `reset_opened_at`).
    pub fn with_timeout_millis(service_name: &str, failure_threshold: u32, recovery_timeout_ms: u128) -> (r: Self)
        ensures
            r@ == CircuitModel::fresh(service_name@, failure_threshold, recovery_timeout_ms),
            r@.wf(),
    {
        CircuitBreaker {
            service_name: service_name.to_owned(),
            failure_threshold,
            recovery_timeout_ms,
            failure_count: 0,
            opened_at: if failure_threshold == 0 {
                Some(0)
            } else {
                None
            },
            probe_in_flight: false,
        }
    }

    /// Creates a new circuit breaker.
    ///
    /// * `service_name`      – human-readable name shown in errors.
    /// * `failure_threshold` – consecutive transient failures before the circuit opens.
    /// * `recovery_timeout`  – how long the circuit stays open before a probe is let through.
    pub fn new(service_name: &str, failure_threshold: u32, recovery_timeout: Duration) -> (r: Self)
        ensures
            r@ == CircuitModel::fresh(service_name@, failure_threshold, duration_millis(recovery_timeout)),
            r@.wf(),
    {
        let ms = duration_as_millis(&recovery_timeout);
        Self::with_timeout_millis(service_name, failure_threshold, ms)
    }

    /// The state of the circuit at time `now` (milliseconds since the Unix epoch).
    pub fn state_at(&self, now: u64) -> (r: CircuitState)
        ensures
            r == self@.state_at(now),
    {
        match self.opened_at {
            None => CircuitState::Closed,
            Some(t) => {
                let open_for: u64 = if now >= t { now - t } else { 0 };
                if !self.probe_in_flight && open_for as u128 >= self.recovery_timeout_ms {
                    CircuitState::HalfOpen
                } else {
                    CircuitState::Open
                }
            },
        }
    }

    /// The state of the circuit now, on the wall clock.
    pub fn state(&self) -> (r: CircuitState)
        ensures
            exists|now: u64| is_clock_reading(now) && r == self@.state_at(now),
            self@.opened_at is None ==> r == CircuitState::Closed,
    {
        let now = now_millis();
        self.state_at(now)
    }

    /// Decides whether a call may go through at time `now`. An open circuit
    /// (which includes one whose probe is still in flight) rejects it with
    /// `ApiError::CircuitOpen` and the service's name; otherwise the state in
    /// which it was admitted is returned (`HalfOpen` for a probe, which is then
    /// in flight until `record_success` or `record_failure_at` with `probe`).
    pub fn admit_at(&mut self, now: u64) -> (r: Result<CircuitState, ApiError>)
        ensures
            final(self)@ == old(self)@.admitted(now),
            final(self)@.wf(),
            old(self)@.state_at(now) == CircuitState::Open ==> is_rejection(r, old(self)@.service_name),
            old(self)@.state_at(now) != CircuitState::Open ==> r == Ok::<CircuitState, ApiError>(
                old(self)@.state_at(now),
            ),
    {
        let state = self.state_at(now);
        let r = match state {
            CircuitState::Open => Err(ApiError::CircuitOpen(self.service_name.clone())),
            CircuitState::Closed => Ok(CircuitState::Closed),
            CircuitState::HalfOpen => {
                self.probe_in_flight = true;
                Ok(CircuitState::HalfOpen)
            },
        };
        proof {
            use_type_invariant(&*self);
        }
        r
    }

    /// Records a successful call: the circuit closes (see `succeeded`) and the
    /// failure count is reset. Returns whether the circuit had been open.
    pub fn record_success(&mut self) -> (was_open: bool)
        ensures
            final(self)@ == old(self)@.succeeded(),
            final(self)@.wf(),
            was_open == old(self)@.opened_at is Some,
    {
        proof {
            use_type_invariant(&*self);
        }
        let was_open = self.opened_at.is_some();
        self.probe_in_flight = false;
        self.failure_count = 0;
        self.opened_at = if self.failure_threshold == 0 {
            Some(0)
        } else {
            None
        };
        proof {
            use_type_invariant(&*self);
        }
        was_open
    }

    /// Records a failed call at time `now`; `probe` says whether the call was
    /// admitted as a probe, `transient` whether its error is transient.
    pub fn record_failure_at(&mut self, probe: bool, transient: bool, now: u64) -> (effect: FailureEffect)
        ensures
            final(self)@ == old(self)@.failed(probe, transient, now),
            final(self)@.wf(),
            effect == old(self)@.failure_effect(probe, transient),
    {
        proof {
            use_type_invariant(&*self);
        }
        let count = if self.failure_count < u32::MAX {
            self.failure_count + 1
        } else {
            self.failure_count
        };
        let effect = if probe {
            self.opened_at = Some(now);
            self.failure_count = 1;
            self.probe_in_flight = false;
            FailureEffect::Reopened
        } else if !transient {
            FailureEffect::Ignored
        } else if self.opened_at.is_none() && count == self.failure_threshold {
            self.opened_at = Some(now);
            self.failure_count = count;
            FailureEffect::Tripped
        } else {
            self.failure_count = count;
            FailureEffect::Counted
        };
        proof {
            use_type_invariant(&*self);
        }
        effect
    }

    /// Executes `operation` unless the circuit is open.
    ///
    /// An open circuit returns `Err(ApiError::CircuitOpen(service_name))`
    /// without calling `operation`. A half-open circuit lets the operation
    /// through once as a probe: its success closes the circuit, any failure
    /// opens it again. A closed circuit runs the operation; a success resets
    /// the failure count and a transient error is counted towards the threshold.
    /// The wall clock is read when the call is admitted and again when a
    /// failure is recorded.
    pub fn call<T, F>(&mut self, operation: F) -> (result: Result<T, ApiError>)
        where
            F: FnOnce() -> Result<T, ApiError>,
        requires
            operation.requires(()),
        ensures
            exists|admitted_at: u64, finished_at: u64|
                #![trigger old(self)@.after_call(admitted_at, failure_of(result), finished_at)]
                {
                    &&& is_clock_reading(admitted_at)
                    &&& is_clock_reading(finished_at)
                    &&& final(self)@ == old(self)@.after_record(
                        (CallRecord { admitted_at, failure: failure_of(result), finished_at }),
                    )
                    &&& old(self)@.state_at(admitted_at) == CircuitState::Open ==> is_rejection(
                        result,
                        old(self)@.service_name,
                    )
                    &&& old(self)@.state_at(admitted_at) != CircuitState::Open ==> operation.ensures(
                        (),
                        result,
                    )
                },
            final(self)@.wf(),
    {
        let ghost before = self@;
        let admitted_at = now_millis();
        match self.admit_at(admitted_at) {
            Err(e) => {
                let rejected: Result<T, ApiError> = Err(e);
                assert(before.state_at(admitted_at) == CircuitState::Open);
                assert(is_rejection(rejected, before.service_name));
                assert(self@ == before);
                // a witness for the contract's `exists`: the operation never ran
                let ghost _witness = before.after_call(admitted_at, failure_of(rejected), admitted_at);
                rejected
            },
            Ok(state) => {
                let probe = match state {
                    CircuitState::HalfOpen => true,
                    _ => false,
                };
                let result = operation();
                match &result {
                    Ok(_) => {
                        self.record_success();
                        assert(self@ == before.after_call(admitted_at, failure_of(result), admitted_at));
                    },
                    Err(e) => {
                        let transient = e.is_transient();
                        let finished_at = now_millis();
                        self.record_failure_at(probe, transient, finished_at);
                        assert(self@ == before.after_call(admitted_at, failure_of(result), finished_at));
                    },
                }
                result
            },
        }
    }

    /// Failures counted since the last reset.
    pub fn failure_count(&self) -> (r: u32)
        ensures
            r == self@.failure_count,
    {
        self.failure_count
    }

    /// When (milliseconds since the Unix epoch) the circuit was last opened, or
    /// `0` while it is closed.
    pub fn opened_at(&self) -> (r: u64)
        ensures
            r == match self@.opened_at {
                Some(t) => t,
                None => 0,
            },
    {
        match self.opened_at {
            Some(t) => t,
            None => 0,
        }
    }

    /// Consecutive transient failures that open a closed circuit.
    pub fn failure_threshold(&self) -> (r: u32)
        ensures
            r == self@.failure_threshold,
    {
        self.failure_threshold
    }

    /// How long the circuit stays open before a probe, in milliseconds.
    pub fn recovery_timeout_millis(&self) -> (r: u128)
        ensures
            r == self@.recovery_timeout_ms,
    {
        self.recovery_timeout_ms
    }

    /// How long the circuit stays open before a probe, in whole seconds
    /// (held at `u64::MAX`).
    pub fn recovery_timeout_secs(&self) -> (r: u64)
        ensures
            r as int == if self@.recovery_timeout_ms / 1000 > u64::MAX as u128 {
                u64::MAX as int
            } else {
                (self@.recovery_timeout_ms / 1000) as int
            },
    {
        let secs = self.recovery_timeout_ms / 1000;
        if secs > u64::MAX as u128 {
            u64::MAX
        } else {
            secs as u64
        }
    }

    /// Name of the guarded service.
    pub fn service_name(&self) -> (r: &str)
        ensures
            r@ == self@.service_name,
    {
        self.service_name.as_str()
    }
}

} // verus!

//! Properties of the breaker that span its operations.
use crate::api_error::ApiError;
use crate::breaker::{bumped, reset_opened_at, CallRecord, CircuitModel, CircuitState};
use crate::config::{
    env_char, is_decimal_digit, override_or, spec_parse_bounded, spec_parse_decimal,
    unsigned_digits,
};
use vstd::prelude::*;

verus! {

/// The breaker after a run of transient failures of calls admitted while it
/// was closed, the `k`-th failure being recorded at `times[k]`.
pub open spec fn after_transient_failures(m: CircuitModel, times: Seq<u64>) -> CircuitModel
    decreases times.len(),
{
    if times.len() == 0 {
        m
    } else {
        after_transient_failures(m, times.drop_last()).failed(false, true, times.last())
    }
}

/// Every operation keeps the breaker well formed: while the circuit is closed,
/// its failure count stays below a positive threshold.
pub proof fn lemma_operations_keep_wf(m: CircuitModel, now: u64, probe: bool, transient: bool)
    requires
        m.wf(),
    ensures
        m.admitted(now).wf(),
        m.succeeded().wf(),
        m.failed(probe, transient, now).wf(),
{
}

/// No operation changes the service name, the threshold or the recovery timeout.
pub proof fn lemma_operations_keep_configuration(m: CircuitModel, now: u64, probe: bool, transient: bool)
    ensures
        m.admitted(now).service_name == m.service_name,
        m.admitted(now).failure_threshold == m.failure_threshold,
        m.admitted(now).recovery_timeout_ms == m.recovery_timeout_ms,
        m.succeeded().service_name == m.service_name,
        m.succeeded().failure_threshold == m.failure_threshold,
        m.succeeded().recovery_timeout_ms == m.recovery_timeout_ms,
        m.failed(probe, transient, now).service_name == m.service_name,
        m.failed(probe, transient, now).failure_threshold == m.failure_threshold,
        m.failed(probe, transient, now).recovery_timeout_ms == m.recovery_timeout_ms,
{
}

/// A closed circuit with no failure counted stays closed through fewer than
/// `failure_threshold` consecutive transient failures, counting each, and the
/// failure that reaches the threshold opens it at the time of that failure.
pub proof fn lemma_opens_at_threshold(m: CircuitModel, times: Seq<u64>)
    requires
        m.opened_at is None,
        m.failure_count == 0,
        m.failure_threshold > 0,
        times.len() <= m.failure_threshold,
    ensures
        after_transient_failures(m, times).failure_threshold == m.failure_threshold,
        after_transient_failures(m, times).failure_count == times.len(),
        times.len() < m.failure_threshold ==> after_transient_failures(m, times).opened_at is None,
        times.len() == m.failure_threshold ==> after_transient_failures(m, times).opened_at == Some(
            times.last(),
        ),
    decreases times.len(),
{
    if times.len() > 0 {
        lemma_opens_at_threshold(m, times.drop_last());
    }
}

/// While the circuit is closed, calls are admitted without changing the breaker.
pub proof fn lemma_closed_admits(m: CircuitModel, now: u64)
    requires
        m.opened_at is None,
    ensures
        m.state_at(now) == CircuitState::Closed,
        m.admitted(now) == m,
{
}

/// A non-transient error of a call admitted while the circuit is closed
/// leaves the breaker unchanged.
pub proof fn lemma_non_transient_not_counted(m: CircuitModel, admitted_at: u64, finished_at: u64)
    requires
        m.opened_at is None,
    ensures
        m.after_call(admitted_at, Some(false), finished_at) == m,
{
}

/// A successful call resets the failure count and closes the circuit,
/// whatever state it was admitted in (with a threshold of 0 the circuit counts
/// as opened at the epoch again, see `reset_opened_at`).
pub proof fn lemma_success_closes(m: CircuitModel, admitted_at: u64, later: u64)
    ensures
        m.after_call(admitted_at, None, 0).failure_count == 0,
        !m.after_call(admitted_at, None, 0).probe_in_flight,
        m.after_call(admitted_at, None, 0).opened_at == reset_opened_at(m.failure_threshold),
        m.failure_threshold > 0 ==> m.after_call(admitted_at, None, 0).state_at(later)
            == CircuitState::Closed,
{
}

/// An open circuit stays open until the recovery timeout has elapsed since it
/// was opened, and is half-open from then on unless a probe is in flight.
pub proof fn lemma_open_until_timeout(m: CircuitModel, opened: u64, now: u64)
    requires
        m.opened_at == Some(opened),
        opened <= now,
    ensures
        now - opened < m.recovery_timeout_ms ==> m.state_at(now) == CircuitState::Open,
        now - opened >= m.recovery_timeout_ms && !m.probe_in_flight ==> m.state_at(now)
            == CircuitState::HalfOpen,
{
}

/// A breaker as `CircuitBreaker::new` builds it (for any recovery timeout) and
/// a run of `failure_threshold` transient failures: the last failure opens the
/// circuit, which rejects calls until the recovery timeout has elapsed since
/// that failure and lets a probe through from then on.
pub proof fn lemma_trips_then_recovers(
    name: Seq<char>,
    failure_threshold: u32,
    recovery_timeout_ms: u128,
    times: Seq<u64>,
    now: u64,
)
    requires
        failure_threshold > 0,
        times.len() == failure_threshold,
        times.last() <= now,
    ensures
        ({
            let m = after_transient_failures(
                CircuitModel::fresh(name, failure_threshold, recovery_timeout_ms),
                times,
            );
            &&& m.opened_at == Some(times.last())
            &&& now - times.last() < recovery_timeout_ms ==> m.state_at(now) == CircuitState::Open
            &&& now - times.last() >= recovery_timeout_ms ==> m.state_at(now) == CircuitState::HalfOpen
        }),
{
    let m0 = CircuitModel::fresh(name, failure_threshold, recovery_timeout_ms);
    lemma_opens_at_threshold(m0, times);
    lemma_transient_failures_keep_probe_and_timeout(m0, times);
}

/// Transient failures of calls let through by a closed circuit leave the
/// recovery timeout as it is and let no probe through.
pub proof fn lemma_transient_failures_keep_probe_and_timeout(m: CircuitModel, times: Seq<u64>)
    ensures
        after_transient_failures(m, times).recovery_timeout_ms == m.recovery_timeout_ms,
        after_transient_failures(m, times).probe_in_flight == m.probe_in_flight,
    decreases times.len(),
{
    if times.len() > 0 {
        lemma_transient_failures_keep_probe_and_timeout(m, times.drop_last());
    }
}

/// An open circuit rejects calls without changing the breaker.
pub proof fn lemma_open_rejects_unchanged(m: CircuitModel, now: u64)
    requires
        m.state_at(now) == CircuitState::Open,
    ensures
        m.admitted(now) == m,
{
}

/// Once a probe is let through, the circuit rejects every other call, at any
/// time, until the probe's outcome is recorded.
pub proof fn lemma_one_probe_at_a_time(m: CircuitModel, now: u64, later: u64)
    requires
        m.state_at(now) == CircuitState::HalfOpen,
    ensures
        m.admitted(now).probe_in_flight,
        m.admitted(now).state_at(later) == CircuitState::Open,
        m.admitted(now).admitted(later) == m.admitted(now),
{
}

/// A failed probe, whatever its error, opens the circuit again from the time of
/// the failure, with one failure counted.
pub proof fn lemma_failed_probe_reopens(
    m: CircuitModel,
    admitted_at: u64,
    transient: bool,
    finished_at: u64,
    later: u64,
)
    requires
        m.state_at(admitted_at) == CircuitState::HalfOpen,
        finished_at <= later,
        later - finished_at < m.recovery_timeout_ms,
    ensures
        m.after_call(admitted_at, Some(transient), finished_at).opened_at == Some(finished_at),
        m.after_call(admitted_at, Some(transient), finished_at).failure_count == 1,
        !m.after_call(admitted_at, Some(transient), finished_at).probe_in_flight,
        m.after_call(admitted_at, Some(transient), finished_at).state_at(later) == CircuitState::Open,
{
}

/// The breaker after the first `n` calls of `calls`, made one after another.
pub open spec fn after_calls(m: CircuitModel, calls: Seq<CallRecord>, n: nat) -> CircuitModel
    decreases n,
{
    if n == 0 {
        m
    } else {
        after_calls(m, calls, (n - 1) as nat).after_record(calls[n - 1])
    }
}

/// The state in which the `j`-th call found the circuit.
pub open spec fn state_before(m: CircuitModel, calls: Seq<CallRecord>, j: nat) -> CircuitState {
    after_calls(m, calls, j).state_at(calls[j as int].admitted_at)
}

/// Whether the `j`-th call restarted the failure count: it succeeded, or was
/// let through as a probe (whose failure starts a new count at one).
pub open spec fn restarts_count(m: CircuitModel, calls: Seq<CallRecord>, j: nat) -> bool {
    let st = state_before(m, calls, j);
    st != CircuitState::Open && (calls[j as int].failure is None || st == CircuitState::HalfOpen)
}

/// Whether the `j`-th call's failure was counted: a transient error of a call
/// let through by a closed circuit, or any error of a probe.
pub open spec fn is_counted(m: CircuitModel, calls: Seq<CallRecord>, j: nat) -> bool {
    let st = state_before(m, calls, j);
    match calls[j as int].failure {
        Some(transient) => st == CircuitState::HalfOpen || (st == CircuitState::Closed && transient),
        None => false,
    }
}

/// How many of the calls `lo..hi` had their failure counted.
pub open spec fn num_counted(m: CircuitModel, calls: Seq<CallRecord>, lo: nat, hi: nat) -> nat
    decreases hi,
{
    if hi <= lo {
        0
    } else {
        num_counted(m, calls, lo, (hi - 1) as nat) + if is_counted(m, calls, (hi - 1) as nat) {
            1nat
        } else {
            0nat
        }
    }
}

/// The last of the first `n` calls that restarted the failure count, if any.
pub open spec fn last_restart(m: CircuitModel, calls: Seq<CallRecord>, n: nat) -> Option<nat>
    decreases n,
{
    if n == 0 {
        None
    } else if restarts_count(m, calls, (n - 1) as nat) {
        Some((n - 1) as nat)
    } else {
        last_restart(m, calls, (n - 1) as nat)
    }
}

/// Whether the `j`-th call closed the circuit: it ran, and succeeded.
pub open spec fn closes(m: CircuitModel, calls: Seq<CallRecord>, j: nat) -> bool {
    state_before(m, calls, j) != CircuitState::Open && calls[j as int].failure is None
}

/// Whether the `j`-th call opened the circuit: a failed probe, or the transient
/// failure that brought the count of a closed circuit to the threshold.
pub open spec fn opens(m: CircuitModel, calls: Seq<CallRecord>, j: nat) -> bool {
    let st = state_before(m, calls, j);
    let before = after_calls(m, calls, j);
    match calls[j as int].failure {
        Some(transient) => st == CircuitState::HalfOpen || (st == CircuitState::Closed && transient
            && bumped(before.failure_count) == before.failure_threshold),
        None => false,
    }
}

/// The last of the first `n` calls that opened or closed the circuit, if any.
pub open spec fn last_open_or_close(m: CircuitModel, calls: Seq<CallRecord>, n: nat) -> Option<nat>
    decreases n,
{
    if n == 0 {
        None
    } else if opens(m, calls, (n - 1) as nat) || closes(m, calls, (n - 1) as nat) {
        Some((n - 1) as nat)
    } else {
        last_open_or_close(m, calls, (n - 1) as nat)
    }
}

/// Through any run of calls the breaker stays well formed and keeps its name,
/// threshold and recovery timeout.
pub proof fn lemma_calls_keep_wf_and_configuration(m: CircuitModel, calls: Seq<CallRecord>, n: nat)
    requires
        m.wf(),
        n <= calls.len(),
    ensures
        after_calls(m, calls, n).wf(),
        after_calls(m, calls, n).service_name == m.service_name,
        after_calls(m, calls, n).failure_threshold == m.failure_threshold,
        after_calls(m, calls, n).recovery_timeout_ms == m.recovery_timeout_ms,
    decreases n,
{
    if n > 0 {
        lemma_calls_keep_wf_and_configuration(m, calls, (n - 1) as nat);
    }
}

/// Over a run of calls, the failure count is the number of counted failures
/// since the last call that restarted the count (a success or a probe), or,
/// when no call did, the count at the start plus the counted failures.
pub proof fn lemma_failure_count_over_calls(m: CircuitModel, calls: Seq<CallRecord>, n: nat)
    requires
        m.wf(),
        n <= calls.len(),
        m.failure_count + calls.len() <= u32::MAX,
    ensures
        after_calls(m, calls, n).failure_count == match last_restart(m, calls, n) {
            Some(r) => num_counted(m, calls, r, n) as int,
            None => m.failure_count + num_counted(m, calls, 0, n),
        },
        after_calls(m, calls, n).failure_count <= m.failure_count + n,
    decreases n,
{
    if n > 0 {
        let k = (n - 1) as nat;
        lemma_failure_count_over_calls(m, calls, k);
        lemma_calls_keep_wf_and_configuration(m, calls, k);
        lemma_num_counted_bound(m, calls, 0, k);
        lemma_last_restart_below(m, calls, k);
        match last_restart(m, calls, k) {
            Some(r) => lemma_num_counted_bound(m, calls, r, k),
            None => {},
        }
        let p = after_calls(m, calls, k);
        let c = calls[k as int];
        let st = p.state_at(c.admitted_at);
        assert(state_before(m, calls, k) == st);
        if st == CircuitState::Closed {
            assert(p.opened_at is None);
        }
        assert(num_counted(m, calls, k, k) == 0);
        assert(num_counted(m, calls, k, n) == if is_counted(m, calls, k) { 1nat } else { 0nat });
    }
}

/// The last call that restarted the count is one of the calls looked at.
pub proof fn lemma_last_restart_below(m: CircuitModel, calls: Seq<CallRecord>, n: nat)
    ensures
        last_restart(m, calls, n) matches Some(r) ==> r < n,
    decreases n,
{
    if n > 0 {
        lemma_last_restart_below(m, calls, (n - 1) as nat);
    }
}

/// At most `hi - lo` of the calls `lo..hi` are counted.
pub proof fn lemma_num_counted_bound(m: CircuitModel, calls: Seq<CallRecord>, lo: nat, hi: nat)
    ensures
        num_counted(m, calls, lo, hi) <= if hi >= lo { hi - lo } else { 0 },
    decreases hi,
{
    if hi > lo {
        lemma_num_counted_bound(m, calls, lo, (hi - 1) as nat);
    }
}

/// Over a run of calls, the circuit was last opened when the last call that
/// opened or closed it recorded its failure, if it opened it; a closing call
/// leaves the circuit closed (see `reset_opened_at`); without either, the
/// opening time is the one at the start.
pub proof fn lemma_opening_time_over_calls(m: CircuitModel, calls: Seq<CallRecord>, n: nat)
    requires
        m.wf(),
        n <= calls.len(),
    ensures
        after_calls(m, calls, n).opened_at == match last_open_or_close(m, calls, n) {
            Some(j) => if closes(m, calls, j) {
                reset_opened_at(m.failure_threshold)
            } else {
                Some(calls[j as int].finished_at)
            },
            None => m.opened_at,
        },
    decreases n,
{
    if n > 0 {
        let k = (n - 1) as nat;
        lemma_opening_time_over_calls(m, calls, k);
        lemma_calls_keep_wf_and_configuration(m, calls, k);
    }
}

/// Timeouts and upstream service errors are transient whatever their message;
/// authorisation failures, missing resources, unavailable services and open
/// circuits are not.
pub proof fn lemma_transient_errors(message: String)
    ensures
        ApiError::Timeout.spec_is_transient(),
        ApiError::ExternalService(message).spec_is_transient(),
        !ApiError::Unauthorized.spec_is_transient(),
        !ApiError::NotFound(message).spec_is_transient(),
        !ApiError::ServiceUnavailable(message).spec_is_transient(),
        !ApiError::CircuitOpen(message).spec_is_transient(),
{
}

/// A value that parses replaces the default, whatever the default is; a value
/// that does not parse, or no value, leaves the default.
pub proof fn lemma_override_replaces_default(value: Seq<char>, max: nat, default: nat, other: nat)
    ensures
        spec_parse_bounded(value, max) matches Some(x) ==> override_or(Some(value), max, default) == x,
        spec_parse_bounded(value, max) is Some ==> override_or(Some(value), max, default) == override_or(
            Some(value),
            max,
            other,
        ),
        spec_parse_bounded(value, max) is None ==> override_or(Some(value), max, default) == default,
        override_or(None, max, default) == default,
{
}

/// A parsed value is kept exactly when it is at most the bound.
pub proof fn lemma_bounded_parse(value: Seq<char>, max: nat)
    ensures
        spec_parse_decimal(value) matches Some(x) ==> (x <= max <==> spec_parse_bounded(value, max)
            == Some(x)),
        spec_parse_decimal(value) matches Some(x) ==> (x > max <==> spec_parse_bounded(value, max) is None),
        spec_parse_decimal(value) is None ==> spec_parse_bounded(value, max) is None,
{
}

/// A single ASCII digit parses as its value.
pub proof fn lemma_parse_one_digit(c: char)
    requires
        is_decimal_digit(c),
    ensures
        spec_parse_decimal(seq![c]) == Some(((c as int) - ('0' as int)) as nat),
{
    assert(unsigned_digits(seq![c]) == seq![c]);
    assert(seq![c].drop_last() == Seq::<char>::empty());
    assert(crate::config::digits_value(Seq::<char>::empty()) == 0);
    assert(seq![c].last() == c);
    assert(forall|i: int| 0 <= i < seq![c].len() ==> is_decimal_digit(#[trigger] seq![c][i]));
}

/// Appending a digit to a number that parses multiplies its value by ten and
/// adds the digit.
pub proof fn lemma_parse_push_digit(s: Seq<char>, c: char)
    requires
        spec_parse_decimal(s) is Some,
        is_decimal_digit(c),
    ensures
        spec_parse_decimal(s.push(c)) == Some(
            spec_parse_decimal(s)->0 * 10 + ((c as int) - ('0' as int)) as nat,
        ),
{
    let d = unsigned_digits(s);
    assert(unsigned_digits(s.push(c)) == d.push(c)) by {
        if s.len() > 0 && s[0] == '+' {
            assert(s.push(c).drop_first() == s.drop_first().push(c));
        }
    }
    assert(d.push(c).drop_last() == d);
    assert forall|i: int| 0 <= i < d.push(c).len() implies is_decimal_digit(#[trigger] d.push(c)[i]) by {
        if i < d.len() {
            assert(d.push(c)[i] == d[i]);
        }
    }
}

/// A leading `+` does not change the value of a number.
pub proof fn lemma_parse_plus_sign(s: Seq<char>)
    requires
        s.len() > 0,
        s[0] != '+',
    ensures
        spec_parse_decimal(seq!['+'] + s) == spec_parse_decimal(s),
{
    assert((seq!['+'] + s).drop_first() == s);
}

/// Nothing parses that is empty, a lone `+`, or holds a character other than
/// an ASCII digit after the optional sign.
pub proof fn lemma_parse_rejects(s: Seq<char>, i: int)
    ensures
        spec_parse_decimal(Seq::<char>::empty()) is None,
        spec_parse_decimal(seq!['+']) is None,
        0 <= i < s.len() && !is_decimal_digit(s[i]) && !(i == 0 && s[0] == '+') ==> spec_parse_decimal(
            s,
        ) is None,
{
    assert(seq!['+'].drop_first() == Seq::<char>::empty());
    if 0 <= i < s.len() && !is_decimal_digit(s[i]) && !(i == 0 && s[0] == '+') {
        let d = unsigned_digits(s);
        if s.len() > 0 && s[0] == '+' {
            assert(d[i - 1] == s[i]);
            assert(!is_decimal_digit(d[i - 1]));
        } else {
            assert(!is_decimal_digit(d[i]));
        }
    }
}

/// In an environment variable name, an ASCII lower-case letter becomes its
/// upper-case form, an ASCII upper-case letter or digit stays as it is, and
/// every other character becomes `_`; no lower-case letter remains.
pub proof fn lemma_env_char(c: char)
    ensures
        'a' <= c && c <= 'z' ==> env_char(c) as int == c as int - 32,
        ('A' <= c && c <= 'Z') || ('0' <= c && c <= '9') ==> env_char(c) == c,
        !(('a' <= c && c <= 'z') || ('A' <= c && c <= 'Z') || ('0' <= c && c <= '9')) ==> env_char(c)
            == '_',
        !('a' <= env_char(c) && env_char(c) <= 'z'),
{
}

} // verus!

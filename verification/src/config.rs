//! Configuration of a breaker from environment variables.
//!
//! For a service, `CB_<SERVICE>_FAILURE_THRESHOLD` and
//! `CB_<SERVICE>_RECOVERY_TIMEOUT_SECS` override the defaults, where
//! `<SERVICE>` is the service name upper-cased with every character that is not
//! an ASCII letter or digit replaced by `_`. Reading the variables is left to the
//! caller; this module names them, parses their values, and builds the breaker.
use crate::breaker::{CircuitBreaker, CircuitModel};
use vstd::prelude::*;
use vstd::string::*;

verus! {

/// Whether `c` is an ASCII letter or digit (`char::is_ascii_alphanumeric`).
pub open spec fn is_ascii_alphanumeric(c: char) -> bool {
    ('0' <= c && c <= '9') || ('a' <= c && c <= 'z') || ('A' <= c && c <= 'Z')
}

/// `c` with an ASCII lower-case letter mapped to upper case (`char::to_ascii_uppercase`).
pub open spec fn to_ascii_uppercase(c: char) -> char {
    if 'a' <= c && c <= 'z' {
        ((c as int) - 32) as char
    } else {
        c
    }
}

/// The character that stands for `c` in an environment variable name.
pub open spec fn env_char(c: char) -> char {
    if is_ascii_alphanumeric(c) {
        to_ascii_uppercase(c)
    } else {
        '_'
    }
}

/// The service name as it appears in environment variable names.
pub open spec fn spec_service_env_name(name: Seq<char>) -> Seq<char> {
    Seq::new(name.len(), |i: int| env_char(name[i]))
}

/// Whether `c` is one of the ASCII digits `0` to `9`.
pub open spec fn is_decimal_digit(c: char) -> bool {
    '0' <= c && c <= '9'
}

/// The value of a sequence of decimal digits.
pub open spec fn digits_value(s: Seq<char>) -> nat
    decreases s.len(),
{
    if s.len() == 0 {
        0
    } else {
        digits_value(s.drop_last()) * 10 + ((s.last() as int) - ('0' as int)) as nat
    }
}

/// The digits of an unsigned number: `s` without a leading `+`.
pub open spec fn unsigned_digits(s: Seq<char>) -> Seq<char> {
    if s.len() > 0 && s[0] == '+' {
        s.drop_first()
    } else {
        s
    }
}

/// The value that `str::parse` gives an unsigned integer type of unbounded
/// width: an optional `+` followed by one or more ASCII digits, and nothing else.
pub open spec fn spec_parse_decimal(s: Seq<char>) -> Option<nat> {
    let digits = unsigned_digits(s);
    if digits.len() > 0 && forall|i: int| 0 <= i < digits.len() ==> is_decimal_digit(#[trigger] digits[i]) {
        Some(digits_value(digits))
    } else {
        None
    }
}

/// The parsed value of `s` if it is at most `max`.
pub open spec fn spec_parse_bounded(s: Seq<char>, max: nat) -> Option<nat> {
    match spec_parse_decimal(s) {
        Some(v) => if v <= max {
            Some(v)
        } else {
            None
        },
        None => None,
    }
}

/// Calls `String::push`: appends `c` to `s`.
#[verifier::external_body]
fn push_char(s: &mut String, c: char)
    ensures
        final(s)@ == old(s)@.push(c),
{
    s.push(c)
}

fn env_char_of(c: char) -> (r: char)
    ensures
        r == env_char(c),
{
    if 'a' <= c && c <= 'z' {
        ((c as u8) - 32) as char
    } else if ('0' <= c && c <= '9') || ('A' <= c && c <= 'Z') {
        c
    } else {
        '_'
    }
}

/// The service name upper-cased, with every character that is not an ASCII
/// letter or digit replaced by `_`.
pub fn service_env_name(service_name: &str) -> (r: String)
    ensures
        r@ == spec_service_env_name(service_name@),
{
    let n = service_name.unicode_len();
    let mut out = String::new();
    let mut i: usize = 0;
    while i < n
        invariant
            n == service_name@.len(),
            i <= n,
            out@ == spec_service_env_name(service_name@).take(i as int),
        decreases n - i,
    {
        let c = service_name.get_char(i);
        push_char(&mut out, env_char_of(c));
        assert(spec_service_env_name(service_name@).take(i + 1) == spec_service_env_name(
            service_name@,
        ).take(i as int).push(env_char(c)));
        i = i + 1;
    }
    assert(spec_service_env_name(service_name@).take(n as int) == spec_service_env_name(
        service_name@,
    ));
    out
}

/// The variable that overrides the failure threshold: `CB_<SERVICE>_FAILURE_THRESHOLD`.
pub fn failure_threshold_var(service_name: &str) -> (r: String)
    ensures
        r@ == "CB_"@ + spec_service_env_name(service_name@) + "_FAILURE_THRESHOLD"@,
{
    let mut var = "CB_".to_owned();
    let env = service_env_name(service_name);
    var.append(env.as_str());
    var.append("_FAILURE_THRESHOLD");
    var
}

/// The variable that overrides the recovery timeout: `CB_<SERVICE>_RECOVERY_TIMEOUT_SECS`.
pub fn recovery_timeout_var(service_name: &str) -> (r: String)
    ensures
        r@ == "CB_"@ + spec_service_env_name(service_name@) + "_RECOVERY_TIMEOUT_SECS"@,
{
    let mut var = "CB_".to_owned();
    let env = service_env_name(service_name);
    var.append(env.as_str());
    var.append("_RECOVERY_TIMEOUT_SECS");
    var
}

/// Parses `s` as `str::parse` parses an unsigned integer, keeping the value
/// only if it is at most `max`.
pub fn parse_bounded(s: &str, max: u64) -> (r: Option<u64>)
    ensures
        r == match spec_parse_bounded(s@, max as nat) {
            Some(v) => Some(v as u64),
            None => None::<u64>,
        },
{
    let n = s.unicode_len();
    let start: usize = if n > 0 && s.get_char(0) == '+' {
        1
    } else {
        0
    };
    let ghost digits = s@.subrange(start as int, n as int);
    assert(digits == unsigned_digits(s@));
    if start == n {
        return None;
    }
    let mut acc: u64 = 0;
    let mut overflow = false;
    let mut i: usize = start;
    while i < n
        invariant
            n == s@.len(),
            start < n,
            start <= i <= n,
            digits == s@.subrange(start as int, n as int),
            digits == unsigned_digits(s@),
            forall|j: int| start <= j < i ==> is_decimal_digit(#[trigger] s@[j]),
            !overflow ==> acc as nat == digits_value(s@.subrange(start as int, i as int)) && acc <= max,
            overflow ==> digits_value(s@.subrange(start as int, i as int)) > max,
        decreases n - i,
    {
        let c = s.get_char(i);
        if !('0' <= c && c <= '9') {
            assert(digits[i - start] == c);
            assert(!is_decimal_digit(digits[i - start]));
            return None;
        }
        let d = (c as u8 - ('0' as u8)) as u64;
        assert(s@.subrange(start as int, i + 1).drop_last() == s@.subrange(start as int, i as int));
        assert(s@.subrange(start as int, i + 1).last() == c);
        if !overflow {
            let next: u128 = (acc as u128) * 10 + (d as u128);
            if next > max as u128 {
                overflow = true;
            } else {
                acc = next as u64;
            }
        }
        i = i + 1;
    }
    assert(s@.subrange(start as int, n as int) == digits);
    assert(forall|j: int| 0 <= j < digits.len() ==> is_decimal_digit(#[trigger] digits[j])) by {
        assert forall|j: int| 0 <= j < digits.len() implies is_decimal_digit(#[trigger] digits[j]) by {
            assert(digits[j] == s@[start + j]);
        }
    }
    if overflow {
        None
    } else {
        Some(acc)
    }
}

/// Parses a failure threshold (`u32`).
pub fn parse_u32(s: &str) -> (r: Option<u32>)
    ensures
        r == match spec_parse_bounded(s@, u32::MAX as nat) {
            Some(v) => Some(v as u32),
            None => None::<u32>,
        },
{
    match parse_bounded(s, u32::MAX as u64) {
        Some(v) => Some(v as u32),
        None => None,
    }
}

/// Parses a recovery timeout in seconds (`u64`).
pub fn parse_u64(s: &str) -> (r: Option<u64>)
    ensures
        r == match spec_parse_bounded(s@, u64::MAX as nat) {
            Some(v) => Some(v as u64),
            None => None::<u64>,
        },
{
    parse_bounded(s, u64::MAX)
}

/// The value of an override: the parsed value if the variable is set and
/// parses within `max`, else the default.
pub open spec fn override_or(value: Option<Seq<char>>, max: nat, default: nat) -> nat {
    match value {
        Some(v) => match spec_parse_bounded(v, max) {
            Some(x) => x,
            None => default,
        },
        None => default,
    }
}

impl CircuitBreaker {
    /// Creates a circuit breaker from the values of its two environment
    /// variables (`None` when unset): each value that parses replaces its
    /// default; an unset or malformed value leaves the default.
    pub fn from_env_values(
        service_name: &str,
        threshold_value: Option<&str>,
        timeout_secs_value: Option<&str>,
        default_failure_threshold: u32,
        default_recovery_timeout_secs: u64,
    ) -> (r: Self)
        ensures
            r@ == CircuitModel::fresh(
                service_name@,
                override_or(
                    match threshold_value {
                        Some(v) => Some(v@),
                        None => None,
                    },
                    u32::MAX as nat,
                    default_failure_threshold as nat,
                ) as u32,
                (override_or(
                    match timeout_secs_value {
                        Some(v) => Some(v@),
                        None => None,
                    },
                    u64::MAX as nat,
                    default_recovery_timeout_secs as nat,
                ) * 1000) as u128,
            ),
            r@.wf(),
    {
        let threshold = match threshold_value {
            Some(v) => match parse_u32(v) {
                Some(t) => t,
                None => default_failure_threshold,
            },
            None => default_failure_threshold,
        };
        let timeout_secs = match timeout_secs_value {
            Some(v) => match parse_u64(v) {
                Some(t) => t,
                None => default_recovery_timeout_secs,
            },
            None => default_recovery_timeout_secs,
        };
        CircuitBreaker::with_timeout_millis(service_name, threshold, (timeout_secs as u128) * 1000)
    }
}

} // verus!

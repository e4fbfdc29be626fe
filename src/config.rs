use vstd::prelude::*;
use vstd::string::*;

use crate::text::{decimal_value, digit_value, is_digit};

verus! {

/// Seconds the poller waits for a deploy when no timeout is given.
pub const DEFAULT_TIMEOUT_SECS: u64 = 600;

/// Seconds after which a single request to the platform is abandoned.
pub const REQUEST_TIMEOUT_SECS: u64 = 30;

/// The settings of one run, fixed at startup and handed to each step.
#[derive(Clone, Debug)]
pub struct Config {
    /// Name of the service to deploy.
    pub name: String,
    /// Commit to deploy; the head of the service's branch when absent.
    pub commit: Option<String>,
    /// Whether to wait for the deploy to settle.
    pub wait: bool,
    pub api_key: String,
    /// How long to wait for the deploy, in seconds.
    pub timeout_secs: u64,
}

/// Why a timeout argument could not be read as a number of seconds.
#[derive(Clone, Copy, Debug, PartialEq, Eq, Structural)]
pub enum ParseDurationError {
    Empty,
    InvalidDigit,
    Overflow,
}

/// The digits of a timeout argument: the text after an optional leading `+`.
pub open spec fn duration_digits(s: Seq<char>) -> Seq<char> {
    if s.len() > 0 && s[0] == '+' {
        s.drop_first()
    } else {
        s
    }
}

pub open spec fn all_digits(s: Seq<char>) -> bool {
    forall|i: int| 0 <= i < s.len() ==> is_digit(#[trigger] s[i])
}

/// What reading a timeout argument as whole seconds gives.
pub open spec fn duration_result(s: Seq<char>) -> Result<u64, ParseDurationError> {
    let digits = duration_digits(s);
    if s.len() == 0 {
        Err(ParseDurationError::Empty)
    } else if digits.len() == 0 || !all_digits(digits) {
        Err(ParseDurationError::InvalidDigit)
    } else if decimal_value(digits) > u64::MAX {
        Err(ParseDurationError::Overflow)
    } else {
        Ok(decimal_value(digits) as u64)
    }
}

/// Reads a timeout argument as a number of whole seconds.
pub fn parse_duration(arg: &str) -> (r: Result<u64, ParseDurationError>)
    ensures
        r == duration_result(arg@),
{
    let n = arg.unicode_len();
    if n == 0 {
        return Err(ParseDurationError::Empty);
    }
    let start: usize = if arg.get_char(0) == '+' { 1 } else { 0 };
    let ghost digits = duration_digits(arg@);
    assert(digits == arg@.subrange(start as int, n as int));
    if start == n {
        return Err(ParseDurationError::InvalidDigit);
    }
    let mut value: u64 = 0;
    let mut overflowed = false;
    let mut i: usize = start;
    while i < n
        invariant
            n == arg@.len(),
            start <= i <= n,
            digits == arg@.subrange(start as int, n as int),
            digits == duration_digits(arg@),
            digits.len() > 0,
            all_digits(digits.subrange(0, i - start)),
            !overflowed ==> value as nat == decimal_value(digits.subrange(0, i - start)),
            overflowed ==> decimal_value(digits.subrange(0, i - start)) > u64::MAX,
        decreases n - i,
    {
        let c = arg.get_char(i);
        let ghost prefix = digits.subrange(0, i - start);
        let ghost next = digits.subrange(0, i - start + 1);
        assert(next.drop_last() == prefix);
        assert(next.last() == c);
        if c < '0' || c > '9' {
            assert(!is_digit(c));
            assert(!all_digits(digits)) by {
                assert(digits[i - start] == c);
                assert(!is_digit(digits[i - start]));
            }
            return Err(ParseDurationError::InvalidDigit);
        }
        let d: u64 = (c as u32 - '0' as u32) as u64;
        assert(d == digit_value(c));
        if !overflowed {
            if value > (u64::MAX - d) / 10 {
                overflowed = true;
                assert(value * 10 + d > u64::MAX) by (nonlinear_arith)
                    requires
                        value > (u64::MAX - d) / 10,
                        d < 10,
                ;
            } else {
                assert(value * 10 + d <= u64::MAX) by (nonlinear_arith)
                    requires
                        value <= (u64::MAX - d) / 10,
                        d < 10,
                ;
                value = value * 10 + d;
            }
        } else {
            assert(decimal_value(prefix) * 10 + d >= decimal_value(prefix)) by (nonlinear_arith);
        }
        assert(all_digits(next)) by {
            assert forall|k: int| 0 <= k < next.len() implies is_digit(#[trigger] next[k]) by {
                if k < prefix.len() {
                    assert(next[k] == prefix[k]);
                }
            }
        }
        i = i + 1;
    }
    assert(digits.subrange(0, n - start) == digits);
    if overflowed {
        Err(ParseDurationError::Overflow)
    } else {
        Ok(value)
    }
}

} // verus!

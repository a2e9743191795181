//! Error recovery: which stream errors are retried, and how long to wait
//! before each retry. Durations are in milliseconds.

use vstd::prelude::*;
use crate::stream_types::StreamError;

verus! {

/// How the wait grows from one retry to the next.
#[derive(Debug, Clone, Copy, PartialEq, Eq, Structural)]
pub enum RetryStrategy {
    /// Retry at once.
    Immediate,
    /// Double the wait on each retry.
    ExponentialBackoff,
    /// Add the base wait on each retry.
    LinearBackoff,
}

/// A retry policy.
#[derive(Debug, Clone, Copy)]
pub struct ErrorRecoveryPolicy {
    /// Retries allowed.
    pub max_retries: u32,
    pub retry_strategy: RetryStrategy,
    /// Base wait (milliseconds).
    pub backoff_base_ms: u64,
    /// Longest wait (milliseconds).
    pub backoff_max_ms: u64,
}

/// The longest duration, in milliseconds, that `std::time::Duration` holds
/// (`u64::MAX` seconds and 999 999 999 nanoseconds, rounded down).
pub const MAX_DURATION_MS: u128 = 18_446_744_073_709_551_615_999;

/// `2^n`.
pub open spec fn pow2(n: nat) -> nat
    decreases n,
{
    if n == 0 {
        1
    } else {
        2 * pow2((n - 1) as nat)
    }
}

/// The wait before the retry numbered `attempt` (from 0), before capping.
pub open spec fn raw_delay_ms(p: ErrorRecoveryPolicy, attempt: u32) -> int {
    match p.retry_strategy {
        RetryStrategy::Immediate => 0,
        RetryStrategy::LinearBackoff => p.backoff_base_ms * (attempt + 1),
        RetryStrategy::ExponentialBackoff => p.backoff_base_ms * pow2(attempt as nat),
    }
}

/// The wait before the retry numbered `attempt`: the raw wait capped at
/// the longest wait (no cap for immediate retries).
pub open spec fn delay_ms(p: ErrorRecoveryPolicy, attempt: u32) -> int {
    match p.retry_strategy {
        RetryStrategy::Immediate => 0,
        _ => if raw_delay_ms(p, attempt) < p.backoff_max_ms {
            raw_delay_ms(p, attempt)
        } else {
            p.backoff_max_ms as int
        },
    }
}

/// The attempts for which the computation stays in range: the attempt
/// counter and the power of two fit in 32 bits and the product fits in a
/// duration.
pub open spec fn delay_defined(p: ErrorRecoveryPolicy, attempt: u32) -> bool {
    match p.retry_strategy {
        RetryStrategy::Immediate => true,
        RetryStrategy::LinearBackoff => attempt < u32::MAX && raw_delay_ms(p, attempt)
            <= MAX_DURATION_MS,
        RetryStrategy::ExponentialBackoff => attempt < 32 && raw_delay_ms(p, attempt)
            <= MAX_DURATION_MS,
    }
}

/// Errors that a retry may cure: lost connections, timeouts, network and
/// file-read errors.
pub open spec fn is_transient(e: StreamError) -> bool {
    match e {
        StreamError::ConnectionLost => true,
        StreamError::TransmissionTimeout => true,
        StreamError::NetworkError(_) => true,
        StreamError::FileReadError(_) => true,
        _ => false,
    }
}

proof fn lemma_pow2_bound(n: nat)
    requires
        n < 32,
    ensures
        1 <= pow2(n) <= 0x8000_0000,
{
    lemma_pow2_monotone(0, n);
    lemma_pow2_monotone(n, 31);
    assert(pow2(31) == 0x8000_0000) by {
        reveal_with_fuel(pow2, 32);
    }
}

proof fn lemma_pow2_monotone(a: nat, b: nat)
    requires
        a <= b,
    ensures
        pow2(a) <= pow2(b),
    decreases b,
{
    if a < b {
        lemma_pow2_monotone(a, (b - 1) as nat);
    }
}

/// `2^n` as a 32-bit number.
fn pow2_u32(n: u32) -> (r: u32)
    requires
        n < 32,
    ensures
        r == pow2(n as nat),
{
    let mut r: u32 = 1;
    let mut i: u32 = 0;
    while i < n
        invariant
            i <= n < 32,
            r == pow2(i as nat),
        decreases n - i,
    {
        proof {
            lemma_pow2_bound(i as nat);
            lemma_pow2_bound((i + 1) as nat);
        }
        r = r * 2;
        i = i + 1;
    }
    r
}

impl Default for ErrorRecoveryPolicy {
    /// Five retries with exponential backoff from 100 ms up to 30 s.
    fn default() -> (p: Self)
        ensures
            p.max_retries == 5,
            p.retry_strategy == RetryStrategy::ExponentialBackoff,
            p.backoff_base_ms == 100,
            p.backoff_max_ms == 30_000,
    {
        ErrorRecoveryPolicy {
            max_retries: 5,
            retry_strategy: RetryStrategy::ExponentialBackoff,
            backoff_base_ms: 100,
            backoff_max_ms: 30_000,
        }
    }
}

impl ErrorRecoveryPolicy {
    /// The wait (milliseconds) before the retry numbered `attempt`, counted
    /// from 0.
    pub fn calculate_delay(&self, attempt: u32) -> (d: u64)
        requires
            delay_defined(*self, attempt),
        ensures
            d == delay_ms(*self, attempt),
    {
        match self.retry_strategy {
            RetryStrategy::Immediate => 0,
            RetryStrategy::LinearBackoff => {
                let delay: u128 = (self.backoff_base_ms as u128) * ((attempt + 1) as u128);
                if delay < self.backoff_max_ms as u128 {
                    delay as u64
                } else {
                    self.backoff_max_ms
                }
            },
            RetryStrategy::ExponentialBackoff => {
                let multiplier = pow2_u32(attempt);
                let delay: u128 = (self.backoff_base_ms as u128) * (multiplier as u128);
                if delay < self.backoff_max_ms as u128 {
                    delay as u64
                } else {
                    self.backoff_max_ms
                }
            },
        }
    }

    /// Whether to retry after `error` on attempt `attempt`: only below the
    /// retry limit and only for transient errors.
    pub fn should_retry(&self, error: &StreamError, attempt: u32) -> (r: bool)
        ensures
            r == (attempt < self.max_retries && is_transient(*error)),
    {
        if attempt >= self.max_retries {
            return false;
        }
        match error {
            StreamError::ConnectionLost => true,
            StreamError::TransmissionTimeout => true,
            StreamError::NetworkError(_) => true,
            StreamError::FileReadError(_) => true,
            _ => false,
        }
    }
}

/// Law: the wait never exceeds the longest wait, except that an immediate
/// retry never waits.
pub proof fn lemma_delay_capped(p: ErrorRecoveryPolicy, attempt: u32)
    ensures
        0 <= delay_ms(p, attempt) <= p.backoff_max_ms || (p.retry_strategy
            == RetryStrategy::Immediate && delay_ms(p, attempt) == 0),
{
}

/// Law: with backoff, a later retry never waits less than an earlier one.
pub proof fn lemma_delay_monotone(p: ErrorRecoveryPolicy, a: u32, b: u32)
    requires
        a <= b,
    ensures
        delay_ms(p, a) <= delay_ms(p, b),
{
    match p.retry_strategy {
        RetryStrategy::Immediate => {},
        RetryStrategy::LinearBackoff => {
            assert(p.backoff_base_ms * (a + 1) <= p.backoff_base_ms * (b + 1)) by (nonlinear_arith)
                requires
                    a <= b,
            ;
        },
        RetryStrategy::ExponentialBackoff => {
            lemma_pow2_monotone(a as nat, b as nat);
            let x = pow2(a as nat);
            let y = pow2(b as nat);
            assert(p.backoff_base_ms * x <= p.backoff_base_ms * y) by (nonlinear_arith)
                requires
                    x <= y,
            ;
        },
    }
}

} // verus!

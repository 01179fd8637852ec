//! How long to wait before the feed is asked again after a failure.

use tokio_retry::strategy::ExponentialBackoff;
use vstd::prelude::*;

verus! {

/// The product of `a` and `b`, or the largest `u64` where it does not fit.
pub open spec fn saturating_product(a: u64, b: u64) -> u64 {
    if a * b > u64::MAX {
        u64::MAX
    } else {
        (a * b) as u64
    }
}

/// The power of `base` that the wait after `past_attempts` failed attempts is
/// made of: `base` itself at first, multiplied by `base` with each attempt,
/// and never beyond the largest `u64`.
pub open spec fn backoff_power(base: u64, past_attempts: nat) -> u64
    decreases past_attempts,
{
    if past_attempts == 0 {
        base
    } else {
        saturating_product(backoff_power(base, (past_attempts - 1) as nat), base)
    }
}

/// The wait in milliseconds after `past_attempts` failed attempts.
pub open spec fn backoff_delay(base: u64, factor: u64, past_attempts: nat) -> u64 {
    saturating_product(backoff_power(base, past_attempts), factor)
}

/// The waits of an exponential back-off, in milliseconds.
///
/// Builds `tokio_retry::strategy::ExponentialBackoff` with `from_millis` and
/// `factor`, and takes its first `attempts` items. The strategy starts with
/// the base as its current value; each item is the current value times the
/// factor, after which the current value is multiplied by the base; both
/// products saturate. No maximum delay is set, so no item is cut short.
#[verifier::external_body]
fn exponential_backoff(base_ms: u64, factor: u64, attempts: usize) -> (delays: Vec<u64>)
    ensures
        delays@.len() == attempts,
        forall|k: int|
            0 <= k < attempts ==> #[trigger] delays@[k] == backoff_delay(base_ms, factor, k as nat),
{
    ExponentialBackoff::from_millis(base_ms)
        .factor(factor)
        .take(attempts)
        .map(|delay| delay.as_millis() as u64)
        .collect()
}

/// An exponential back-off: the base and the factor of its waits, and the
/// number of attempts after which the waits grow no further.
#[derive(Clone, Copy, Debug, PartialEq, Eq, Structural)]
pub struct RetryPolicy {
    pub base_ms: u64,
    pub factor: u64,
    pub max_retries: usize,
}

impl RetryPolicy {
    /// The policy of the feed: three retries, after 500, 2500 and 12500
    /// milliseconds.
    pub fn standard() -> (policy: RetryPolicy)
        ensures
            policy == (RetryPolicy { base_ms: 5, factor: 100, max_retries: 3 }),
    {
        RetryPolicy { base_ms: 5, factor: 100, max_retries: 3 }
    }

    /// The waits of this policy as the contracts see them.
    pub open spec fn spec_delays(self) -> Seq<u64> {
        Seq::new(
            self.max_retries as nat,
            |k: int| backoff_delay(self.base_ms, self.factor, k as nat),
        )
    }

    /// The waits of this policy in milliseconds, one for each retry.
    pub fn delays(&self) -> (delays: Vec<u64>)
        ensures
            delays@ == self.spec_delays(),
    {
        let delays = exponential_backoff(self.base_ms, self.factor, self.max_retries);
        assert(delays@ =~= self.spec_delays());
        delays
    }
}

/// With a base of at least one, a wait is never shorter than the one before.
pub proof fn waits_never_shrink(base: u64, factor: u64, past_attempts: nat)
    requires
        base >= 1,
    ensures
        backoff_delay(base, factor, past_attempts) <= backoff_delay(
            base,
            factor,
            past_attempts + 1,
        ),
{
    let power = backoff_power(base, past_attempts);
    let next = backoff_power(base, past_attempts + 1);
    assert(next == saturating_product(power, base));
    assert(power <= power * base) by (nonlinear_arith)
        requires
            base >= 1,
            power >= 0,
    ;
    assert(power <= next);
    assert(power * factor <= next * factor) by (nonlinear_arith)
        requires
            power <= next,
            factor >= 0,
    ;
}

/// The waits of the feed's policy.
pub proof fn standard_delays()
    ensures
        (RetryPolicy { base_ms: 5, factor: 100, max_retries: 3 }).spec_delays() == seq![
            500u64,
            2500u64,
            12500u64,
        ],
{
    let policy = RetryPolicy { base_ms: 5, factor: 100, max_retries: 3 };
    reveal_with_fuel(backoff_power, 4);
    assert(backoff_delay(5, 100, 0) == 500);
    assert(backoff_delay(5, 100, 1) == 2500);
    assert(backoff_delay(5, 100, 2) == 12500);
    assert(policy.spec_delays() =~= seq![500u64, 2500u64, 12500u64]);
}

} // verus!

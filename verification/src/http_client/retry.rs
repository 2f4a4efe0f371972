//! Retry config, strategy and middleware for using on `HttpClient` side

use std::time::Duration;

use retry_policies::policies::ExponentialBackoff;
use retry_policies::Jitter;
use vstd::prelude::*;

#[allow(unused_imports)]
use crate::time::duration_nanos;

verus! {

/// How jitter is applied to backoff intervals.
#[verifier::external_type_specification]
pub struct ExJitter(Jitter);

/// Exponential backoff with optional jitter.
#[verifier::external_type_specification]
pub struct ExExponentialBackoff(ExponentialBackoff);

/// `ExponentialBackoff::builder` followed by `retry_bounds` and `build_with_max_retries` keeps
/// the bounds and the number of retries, applies full jitter, and doubles the interval on every
/// retry. Bounds that are out of order make it panic.
#[verifier::external_body]
fn backoff(min: Duration, max: Duration, retries: u32) -> (policy: ExponentialBackoff)
    requires
        duration_nanos(min) <= duration_nanos(max),
    ensures
        policy.max_n_retries == Some(retries),
        policy.min_retry_interval == min,
        policy.max_retry_interval == max,
        policy.jitter is Full,
        policy.base == 2,
{
    ExponentialBackoff::builder().retry_bounds(min, max).build_with_max_retries(retries)
}

/// HTTP client retry policy kind (base or exponential)
#[derive(Clone, Debug, PartialEq, Eq)]
pub enum RetryPolicyKind {
    /// Base backoff policy for retry
    FixedInterval(FixedIntervalPolicy),
    /// Exponential backoff policy for retry
    ExponentialBackoff(ExponentialBackoffPolicy),
}

/// HTTP client retry policy with fixed interval between attempts
#[derive(Clone, Copy, Debug, PartialEq, Eq)]
pub struct FixedIntervalPolicy {
    /// Number of attempts to retry failed request
    max_attempts: u32,
    /// Duration between retry attempts
    duration: Duration,
}

/// HTTP client retry policy with exponential backoff
#[derive(Clone, Copy, Debug, PartialEq, Eq)]
pub struct ExponentialBackoffPolicy {
    /// Number of attempts to retry failed request
    max_attempts: u32,
    /// Min backoff duration
    min_backoff_duration: Duration,
    /// Max backoff duration
    max_backoff_duration: Duration,
}

impl FixedIntervalPolicy {
    /// There is at least one attempt to make.
    #[verifier::type_invariant]
    spec fn inv(self) -> bool {
        self.max_attempts > 0
    }

    /// Number of attempts to retry failed request.
    pub closed spec fn attempts(self) -> u32 {
        self.max_attempts
    }

    /// Duration between retry attempts.
    pub closed spec fn interval(self) -> Duration {
        self.duration
    }

    /// Time to wait before the next attempt, unless there were enough of them already.
    pub open spec fn delay(self, past: u32) -> Option<Duration> {
        if past < self.attempts() {
            Some(self.interval())
        } else {
            None
        }
    }

    /// Create new policy.
    ///
    /// Returns [`None`] if there are no attempts to make.
    #[must_use]
    pub fn new(max_attempts: u32, duration: Duration) -> (res: Option<Self>)
        ensures
            res is Some <==> max_attempts > 0,
            res matches Some(policy) ==> policy.attempts() == max_attempts && policy.interval()
                == duration,
    {
        if max_attempts > 0 {
            Some(FixedIntervalPolicy { max_attempts, duration })
        } else {
            None
        }
    }

    /// Time to wait before the next attempt, unless there were enough of them already.
    #[must_use]
    pub fn should_retry(&self, n_past_retries: u32) -> (delay: Option<Duration>)
        ensures
            delay == self.delay(n_past_retries),
            n_past_retries == 0 ==> delay is Some,
    {
        proof {
            use_type_invariant(self);
        }
        if n_past_retries < self.max_attempts {
            return Some(self.duration);
        }
        None
    }
}

impl ExponentialBackoffPolicy {
    /// There is at least one attempt to make.
    #[verifier::type_invariant]
    spec fn inv(self) -> bool {
        self.max_attempts > 0
    }

    /// Number of attempts to retry failed request.
    pub closed spec fn attempts(self) -> u32 {
        self.max_attempts
    }

    /// Min backoff duration.
    pub closed spec fn min_backoff(self) -> Duration {
        self.min_backoff_duration
    }

    /// Max backoff duration.
    pub closed spec fn max_backoff(self) -> Duration {
        self.max_backoff_duration
    }

    /// Create new policy.
    ///
    /// Returns [`None`] if there are no attempts to make.
    #[must_use]
    pub fn new(
        max_attempts: u32,
        min_backoff_duration: Duration,
        max_backoff_duration: Duration,
    ) -> (res: Option<Self>)
        ensures
            res is Some <==> max_attempts > 0,
            res matches Some(policy) ==> policy.attempts() == max_attempts && policy.min_backoff()
                == min_backoff_duration && policy.max_backoff() == max_backoff_duration,
    {
        if max_attempts > 0 {
            Some(
                ExponentialBackoffPolicy {
                    max_attempts,
                    min_backoff_duration,
                    max_backoff_duration,
                },
            )
        } else {
            None
        }
    }

    /// Strategy that follows the policy.
    #[must_use]
    pub fn strategy(&self) -> (strategy: ExponentialBackoff)
        requires
            duration_nanos(self.min_backoff()) <= duration_nanos(self.max_backoff()),
        ensures
            strategy.max_n_retries == Some(self.attempts()),
            self.attempts() > 0,
            strategy.min_retry_interval == self.min_backoff(),
            strategy.max_retry_interval == self.max_backoff(),
            strategy.jitter is Full,
            strategy.base == 2,
    {
        proof {
            use_type_invariant(self);
        }
        backoff(self.min_backoff_duration, self.max_backoff_duration, self.max_attempts)
    }

    /// Strategy that follows the policy, unless its bounds are out of order.
    #[must_use]
    pub fn checked_strategy(&self) -> (res: Option<ExponentialBackoff>)
        ensures
            res is Some <==> duration_nanos(self.min_backoff()) <= duration_nanos(
                self.max_backoff(),
            ),
            res matches Some(strategy) ==> {
                &&& strategy.max_n_retries == Some(self.attempts())
                &&& self.attempts() > 0
                &&& strategy.min_retry_interval == self.min_backoff()
                &&& strategy.max_retry_interval == self.max_backoff()
                &&& strategy.jitter is Full
                &&& strategy.base == 2
            },
    {
        if self.min_backoff_duration.as_nanos() <= self.max_backoff_duration.as_nanos() {
            Some(self.strategy())
        } else {
            None
        }
    }
}

/// Number of retries that follow a number of past ones, of a request that keeps failing.
pub open spec fn retries_left(policy: FixedIntervalPolicy, past: nat) -> nat
    decreases policy.attempts() - past,
{
    if past <= u32::MAX && policy.delay(past as u32) is Some {
        1 + retries_left(policy, past + 1)
    } else {
        0
    }
}

/// A request that keeps failing is retried as many times as the policy has attempts.
pub proof fn lemma_fixed_interval_retries(policy: FixedIntervalPolicy)
    ensures
        retries_left(policy, 0) == policy.attempts(),
{
    lemma_retries_left(policy, 0);
}

proof fn lemma_retries_left(policy: FixedIntervalPolicy, past: nat)
    requires
        past <= policy.attempts(),
    ensures
        retries_left(policy, past) == policy.attempts() - past,
    decreases policy.attempts() - past,
{
    if past < policy.attempts() {
        lemma_retries_left(policy, past + 1);
    }
}

/// A policy with a number of attempts and an interval waits for that interval before each of the
/// attempts, and makes no other one.
pub proof fn lemma_fixed_interval(
    attempts: u32,
    interval: Duration,
    policy: Option<FixedIntervalPolicy>,
    past: u32,
    delay: Option<Duration>,
)
    requires
        call_ensures(FixedIntervalPolicy::new, (attempts, interval), policy),
        policy is Some,
        call_ensures(FixedIntervalPolicy::should_retry, (&policy->0, past), delay),
    ensures
        attempts > 0,
        delay is Some <==> past < attempts,
        delay is Some ==> delay->0 == interval,
{
}

/// A strategy makes as many attempts as the policy was given, within the bounds it was given. There
/// is one if and only if the bounds are in order.
pub proof fn lemma_exponential_backoff(
    attempts: u32,
    min: Duration,
    max: Duration,
    policy: Option<ExponentialBackoffPolicy>,
    strategy: Option<ExponentialBackoff>,
)
    requires
        call_ensures(ExponentialBackoffPolicy::new, (attempts, min, max), policy),
        policy is Some,
        call_ensures(ExponentialBackoffPolicy::checked_strategy, (&policy->0,), strategy),
    ensures
        attempts > 0,
        strategy is Some <==> duration_nanos(min) <= duration_nanos(max),
        strategy is Some ==> {
            &&& strategy->0.max_n_retries == Some(attempts)
            &&& strategy->0.min_retry_interval == min
            &&& strategy->0.max_retry_interval == max
        },
{
}

} // verus!

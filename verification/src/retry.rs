//! The retry executor: bounded retry with a fixed inter-attempt delay.
//!
//! The executor is a state machine over failure counts. The surrounding
//! binary performs the fallible operation; after each failure it asks the
//! executor what to do next, sleeps when told to, and gives up with the last
//! error when told to. An operation is thus attempted at most
//! `max_retries + 1` times, with a delay between attempts and none before
//! the first.

use vstd::prelude::*;

verus! {

/// The retry policy: how many times to retry and how long to wait between
/// attempts.
pub struct RetryPolicy {
    /// Number of retries after the first attempt.
    pub max_retries: u32,
    /// Delay in seconds between attempts.
    pub delay_secs: u64,
}

/// What to do after a failed attempt.
#[derive(Debug, PartialEq, Eq, Structural)]
pub enum RetryDecision {
    /// Sleep this many seconds, then attempt again.
    RetryAfterDelay(u64),
    /// Propagate the last observed error unchanged.
    GiveUp,
}

/// The state of one retried operation: its policy and how many attempts
/// have failed so far.
pub struct RetryExecutor {
    pub policy: RetryPolicy,
    pub failures: u32,
}

impl RetryExecutor {
    /// Starts a fresh execution: no attempt has failed yet.
    pub fn new(policy: RetryPolicy) -> (r: Self)
        ensures
            r.failures == 0,
            r.policy.max_retries == policy.max_retries,
            r.policy.delay_secs == policy.delay_secs,
    {
        RetryExecutor { policy, failures: 0 }
    }

    /// Records one failed attempt and decides what follows: another attempt
    /// after the policy's delay while fewer than `max_retries` attempts had
    /// failed before, giving up otherwise.
    pub fn on_failure(&mut self) -> (d: RetryDecision)
        requires
            old(self).failures <= old(self).policy.max_retries,
            old(self).failures < u32::MAX,
        ensures
            final(self).policy == old(self).policy,
            final(self).failures == old(self).failures + 1,
            d == (if old(self).failures < old(self).policy.max_retries {
                RetryDecision::RetryAfterDelay(old(self).policy.delay_secs)
            } else {
                RetryDecision::GiveUp
            }),
    {
        self.failures = self.failures + 1;
        if self.failures <= self.policy.max_retries {
            RetryDecision::RetryAfterDelay(self.policy.delay_secs)
        } else {
            RetryDecision::GiveUp
        }
    }

    /// The number of delays slept so far: one for every failure that was
    /// answered with another attempt.
    pub fn delays_slept(&self) -> (n: u32)
        ensures
            n == (if self.failures <= self.policy.max_retries {
                self.failures
            } else {
                self.policy.max_retries
            }),
    {
        if self.failures <= self.policy.max_retries {
            self.failures
        } else {
            self.policy.max_retries
        }
    }
}

} // verus!

//! Waiting out the service's rate limit.
//!
//! A sync that the service turns away for the rate limit is tried again
//! after a wait: the interval that the service suggests or the current base
//! delay, whichever is longer, plus a little jitter. The base delay doubles
//! with every retry, up to a cap. After a fixed number of retries the
//! failure is final.

use crate::transport::TransportError;
use vstd::prelude::*;

verus! {

/// How often a sync is tried again.
pub const MAX_RETRIES: u32 = 3;

/// The base delay before the first retry, in seconds.
pub const FIRST_DELAY_SECS: u64 = 1;

/// The longest base delay, in seconds.
pub const MAX_DELAY_SECS: u64 = 60;

/// The most jitter that is added to a wait, in milliseconds.
pub const MAX_JITTER_MS: u64 = 2000;

/// How far the retries of one sync have come.
#[derive(Debug, Clone, Copy, PartialEq, Eq, Structural)]
pub struct RetryState {
    /// How many retries were made.
    pub attempts: u32,
    /// The current base delay, in seconds.
    pub base_delay_secs: u64,
}

/// What to do about a sync that was turned away.
#[derive(Debug, Clone, Copy, PartialEq, Eq, Structural)]
pub enum RetryDecision {
    /// Wait this many milliseconds, then try again.
    Wait { millis: u64 },
    /// Give up: the rate limit is the final error.
    GiveUp,
}

/// The wait before the next retry, in milliseconds: the longer of the
/// suggested interval and the base delay, plus the jitter, which counts up
/// to its maximum. A wait beyond the largest number stops there.
pub open spec fn wait_millis(base_delay_secs: u64, suggested_secs: Option<u64>, jitter_ms: u64) -> u64 {
    let secs = match suggested_secs {
        Some(s) => if s > base_delay_secs {
            s
        } else {
            base_delay_secs
        },
        None => base_delay_secs,
    };
    let jitter = if jitter_ms > MAX_JITTER_MS {
        MAX_JITTER_MS
    } else {
        jitter_ms
    };
    if secs * 1000 + jitter > u64::MAX {
        u64::MAX
    } else {
        (secs * 1000 + jitter) as u64
    }
}

/// The base delay after one more retry: twice the delay, up to the cap.
pub open spec fn next_delay(base_delay_secs: u64) -> u64 {
    if base_delay_secs * 2 > MAX_DELAY_SECS {
        MAX_DELAY_SECS
    } else {
        (base_delay_secs * 2) as u64
    }
}

impl RetryState {
    /// The state before the first retry.
    pub fn new() -> (s: Self)
        ensures
            s == (RetryState { attempts: 0, base_delay_secs: FIRST_DELAY_SECS }),
    {
        RetryState { attempts: 0, base_delay_secs: FIRST_DELAY_SECS }
    }

    /// The decision on a rate-limit failure in state `self`.
    pub open spec fn decision(self, suggested_secs: Option<u64>, jitter_ms: u64) -> RetryDecision {
        if self.attempts >= MAX_RETRIES {
            RetryDecision::GiveUp
        } else {
            RetryDecision::Wait {
                millis: wait_millis(self.base_delay_secs, suggested_secs, jitter_ms),
            }
        }
    }

    /// The state after a rate-limit failure in state `self`.
    pub open spec fn after_failure(self) -> RetryState {
        if self.attempts >= MAX_RETRIES {
            self
        } else {
            RetryState {
                attempts: (self.attempts + 1) as u32,
                base_delay_secs: next_delay(self.base_delay_secs),
            }
        }
    }

    /// Decides what to do about a sync that the service turned away for the
    /// rate limit. `suggested_secs` is the interval that the service
    /// suggested, `jitter_ms` a random number of milliseconds.
    pub fn on_rate_limited(&mut self, suggested_secs: Option<u64>, jitter_ms: u64) -> (d:
        RetryDecision)
        ensures
            d == old(self).decision(suggested_secs, jitter_ms),
            *final(self) == old(self).after_failure(),
    {
        if self.attempts >= MAX_RETRIES {
            return RetryDecision::GiveUp;
        }
        let secs = match suggested_secs {
            Some(s) => if s > self.base_delay_secs {
                s
            } else {
                self.base_delay_secs
            },
            None => self.base_delay_secs,
        };
        let jitter = if jitter_ms > MAX_JITTER_MS {
            MAX_JITTER_MS
        } else {
            jitter_ms
        };
        let millis = if secs > (u64::MAX - jitter) / 1000 {
            u64::MAX
        } else {
            secs * 1000 + jitter
        };
        self.attempts = self.attempts + 1;
        self.base_delay_secs = if self.base_delay_secs > MAX_DELAY_SECS / 2 {
            MAX_DELAY_SECS
        } else {
            self.base_delay_secs * 2
        };
        RetryDecision::Wait { millis }
    }
}

impl RetryState {
    /// Decides what to do about the failure `err` of a sync: the rate limit
    /// is waited out as long as retries are left, and every other failure
    /// is final at once.
    pub fn on_failure(&mut self, err: &TransportError, jitter_ms: u64) -> (d: RetryDecision)
        ensures
            match *err {
                TransportError::RateLimited { retry_after_secs } => d == old(self).decision(
                    retry_after_secs,
                    jitter_ms,
                ) && *final(self) == old(self).after_failure(),
                _ => d == RetryDecision::GiveUp && *final(self) == *old(self),
            },
    {
        match err {
            TransportError::RateLimited { retry_after_secs } => self.on_rate_limited(
                *retry_after_secs,
                jitter_ms,
            ),
            _ => RetryDecision::GiveUp,
        }
    }
}

/// A run of rate-limit failures is waited out at most `MAX_RETRIES` times:
/// from the fresh state, failure number `MAX_RETRIES + 1` is final, and the
/// failures before it are not.
pub proof fn lemma_retries_are_capped(suggested_secs: Option<u64>, jitter_ms: u64)
    ensures
        ({
            let s0 = RetryState { attempts: 0, base_delay_secs: FIRST_DELAY_SECS };
            let s1 = s0.after_failure();
            let s2 = s1.after_failure();
            let s3 = s2.after_failure();
            &&& s0.decision(suggested_secs, jitter_ms) is Wait
            &&& s1.decision(suggested_secs, jitter_ms) is Wait
            &&& s2.decision(suggested_secs, jitter_ms) is Wait
            &&& s3.decision(suggested_secs, jitter_ms) is GiveUp
            &&& s3.after_failure() == s3
        }),
{
}

} // verus!

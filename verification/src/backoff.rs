//! Exponential backoff between retries of a failed download.

use vstd::prelude::*;

verus! {

/// The first wait, in milliseconds.
pub const BACKOFF_BASE_MS: u64 = 1000;

/// Waits never grow beyond this, in milliseconds.
pub const BACKOFF_CAP_MS: u64 = 300000;

/// The wait before retry number `attempts` (counting from zero):
/// the base doubled once per earlier attempt, capped.
pub open spec fn spec_backoff_delay(attempts: nat) -> u64 {
    if attempts >= 32 {
        BACKOFF_CAP_MS
    } else if BACKOFF_BASE_MS * pow2_u64(attempts) > BACKOFF_CAP_MS {
        BACKOFF_CAP_MS
    } else {
        (BACKOFF_BASE_MS * pow2_u64(attempts)) as u64
    }
}

pub open spec fn pow2_u64(n: nat) -> int
    decreases n,
{
    if n == 0 {
        1
    } else {
        2 * pow2_u64((n - 1) as nat)
    }
}

/// Waits double until they reach the cap, and are never zero.
pub proof fn lemma_backoff_monotonic(n: nat)
    ensures
        spec_backoff_delay(n) <= spec_backoff_delay(n + 1),
        0 < spec_backoff_delay(n) <= BACKOFF_CAP_MS,
    decreases n,
{
    lemma_pow2_positive(n);
    lemma_pow2_positive(n + 1);
}

pub proof fn lemma_pow2_positive(n: nat)
    ensures
        pow2_u64(n) >= 1,
        n >= 1 ==> pow2_u64(n) == 2 * pow2_u64((n - 1) as nat),
    decreases n,
{
    if n >= 1 {
        lemma_pow2_positive((n - 1) as nat);
    }
}

/// Doubling-with-cap backoff between download retries.
pub struct ExponentialBackoffStrategy {
    pub attempts: u32,
    pub current_delay_ms: u64,
}

impl ExponentialBackoffStrategy {
    pub open spec fn wf(&self) -> bool {
        self.current_delay_ms == spec_backoff_delay(self.attempts as nat)
    }

    pub fn new() -> (b: ExponentialBackoffStrategy)
        ensures
            b.wf(),
            b.attempts == 0,
            b.current_delay_ms == BACKOFF_BASE_MS,
    {
        proof {
            reveal_with_fuel(pow2_u64, 1);
        }
        ExponentialBackoffStrategy { attempts: 0, current_delay_ms: BACKOFF_BASE_MS }
    }

    /// Hand out the wait for the retry that is due now, and double the
    /// next one (up to the cap).
    pub fn next_delay_ms(&mut self) -> (d: u64)
        requires
            old(self).wf(),
        ensures
            final(self).wf(),
            d == spec_backoff_delay(old(self).attempts as nat),
            final(self).attempts == if old(self).attempts == u32::MAX {
                old(self).attempts as int
            } else {
                old(self).attempts + 1
            },
    {
        let d = self.current_delay_ms;
        if self.attempts < u32::MAX {
            self.attempts = self.attempts + 1;
        } else {
            proof {
                assert(self.attempts >= 32);
            }
            return d;
        }
        if self.attempts >= 32 {
            self.current_delay_ms = BACKOFF_CAP_MS;
        } else if self.current_delay_ms > BACKOFF_CAP_MS / 2 {
            proof {
                lemma_pow2_positive(self.attempts as nat);
                assert(BACKOFF_BASE_MS * pow2_u64(self.attempts as nat) == 2 * (BACKOFF_BASE_MS
                    * pow2_u64((self.attempts - 1) as nat)));
            }
            self.current_delay_ms = BACKOFF_CAP_MS;
        } else {
            proof {
                lemma_pow2_positive(self.attempts as nat);
                assert(BACKOFF_BASE_MS * pow2_u64(self.attempts as nat) == 2 * (BACKOFF_BASE_MS
                    * pow2_u64((self.attempts - 1) as nat)));
            }
            self.current_delay_ms = self.current_delay_ms * 2;
        }
        d
    }
}

} // verus!

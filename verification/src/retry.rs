//! Bounded retry budgets and the backoff schedule for transient failures.
//! A transient error is retried until its budget runs out; what happens then
//! is the caller's rule — the attestation driver escalates, the dispatch
//! driver drops and reports.

use vstd::prelude::*;

verus! {

/// How many more retries a driver may spend on the failure at hand.
#[derive(Clone, Copy, Debug, PartialEq, Eq, Structural)]
pub struct RetryBudget {
    pub remaining: u32,
}

impl RetryBudget {
    /// A fresh budget of `limit` retries.
    pub fn new(limit: u32) -> (r: RetryBudget)
        ensures
            r.remaining == limit,
    {
        RetryBudget { remaining: limit }
    }

    /// Record one transient failure. Returns whether another attempt may be
    /// made; the budget shrinks by one exactly when it does.
    pub fn on_transient_failure(&mut self) -> (retry: bool)
        ensures
            retry == (old(self).remaining > 0),
            retry ==> final(self).remaining == old(self).remaining - 1,
            !retry ==> *final(self) == *old(self),
    {
        if self.remaining > 0 {
            self.remaining = self.remaining - 1;
            true
        } else {
            false
        }
    }
}

/// The delay before retry number `attempt`: doubling from one second,
/// capped at sixty-four seconds.
pub open spec fn backoff_delay_ms(attempt: u32) -> u64 {
    if attempt == 0 {
        1000
    } else if attempt == 1 {
        2000
    } else if attempt == 2 {
        4000
    } else if attempt == 3 {
        8000
    } else if attempt == 4 {
        16000
    } else if attempt == 5 {
        32000
    } else {
        64000
    }
}

/// Compute the backoff delay, in milliseconds, before retry number
/// `attempt`.
pub fn backoff_delay(attempt: u32) -> (r: u64)
    ensures
        r == backoff_delay_ms(attempt),
{
    match attempt {
        0 => 1000,
        1 => 2000,
        2 => 4000,
        3 => 8000,
        4 => 16000,
        5 => 32000,
        _ => 64000,
    }
}

} // verus!

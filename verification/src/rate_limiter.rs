//! The policy that bounds the request rate of each client address, ahead of
//! the login flow and the guard.

use vstd::prelude::*;

verus! {

/// A rate limit per client address: a client may send `burst_size` requests
/// at once, and regains one request every `period_millis` milliseconds.
#[derive(Clone, Copy, Debug, PartialEq, Eq, Structural)]
pub struct RateLimit {
    pub period_millis: u64,
    pub burst_size: u32,
}

impl RateLimit {
    /// A limit is usable when it lets a request through at all and its
    /// bucket refills.
    pub open spec fn wf(self) -> bool {
        self.period_millis > 0 && self.burst_size > 0
    }

    /// How many requests a client regains in a window of `millis`
    /// milliseconds.
    pub open spec fn regained_spec(self, millis: u64) -> int
        recommends
            self.wf(),
    {
        millis as int / self.period_millis as int
    }
}

/// The limit of the authentication routes: one request every 120 seconds,
/// with no burst beyond that one request.
pub fn auth_rate_limiter() -> (r: RateLimit)
    ensures
        r == (RateLimit { period_millis: 120_000, burst_size: 1 }),
        r.wf(),
{
    RateLimit { period_millis: 120_000, burst_size: 1 }
}

/// The limit of all other routes: a hundred requests a second, with a burst
/// of a hundred.
pub fn general_rate_limiter() -> (r: RateLimit)
    ensures
        r == (RateLimit { period_millis: 10, burst_size: 100 }),
        r.wf(),
        r.regained_spec(1000) == 100,
{
    RateLimit { period_millis: 10, burst_size: 100 }
}

} // verus!

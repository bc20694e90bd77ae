//! The send rate limiter. No time window is defined for the configured
//! limit yet, so every send is allowed and nothing is counted.
use vstd::prelude::*;

verus! {

/// Holds the configured number of sends per window.
#[derive(Debug, Clone, Copy, PartialEq, Eq, Structural)]
pub struct RateLimiter {
    pub limit: u32,
}

impl RateLimiter {
    /// A limiter for `limit` sends per window.
    pub fn new(limit: u32) -> (r: RateLimiter)
        ensures
            r.limit == limit,
    {
        RateLimiter { limit }
    }

    /// Whether one more send is allowed now; it always is, and the limiter
    /// is left as it was.
    pub fn check_and_record(&mut self) -> (allowed: bool)
        ensures
            allowed,
            *final(self) == *old(self),
    {
        true
    }
}

} // verus!

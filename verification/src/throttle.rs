//! A minimum-interval rate limiter: at most one accepted tick per window.
//!
//! Time is passed in by the caller as a millisecond timestamp, so the
//! policy itself is a pure function of its state and the given instant.

use vstd::prelude::*;

verus! {

/// Returned by [`Throttle::accept`] when the window has not yet elapsed.
#[derive(Clone, Copy, Debug, PartialEq, Eq, Structural)]
pub struct ThrottleError;

/// Gates how often an expensive operation may run: once accepted, further
/// acceptances are refused until `window_ms` milliseconds have elapsed.
pub struct Throttle {
    /// Minimum interval between two accepted ticks, in milliseconds.
    pub window_ms: u64,
    /// Timestamp of the last accepted tick, if any.
    pub last_accepted: Option<u64>,
}

impl Throttle {
    /// True iff a tick at `now_ms` may be accepted: either nothing was
    /// accepted yet, or at least a full window has elapsed since then.
    pub open spec fn is_available(self, now_ms: u64) -> bool {
        match self.last_accepted {
            None => true,
            Some(t) => now_ms >= t + self.window_ms,
        }
    }

    pub fn new(window_ms: u64) -> (t: Throttle)
        ensures
            t.window_ms == window_ms,
            t.last_accepted is None,
    {
        Throttle { window_ms, last_accepted: None }
    }

    /// Pure query: would a tick at `now_ms` be accepted?
    pub fn available(&self, now_ms: u64) -> (r: bool)
        ensures
            r == self.is_available(now_ms),
    {
        match self.last_accepted {
            None => true,
            Some(t) => now_ms >= t && now_ms - t >= self.window_ms,
        }
    }

    /// Records `now_ms` as the last accepted instant if the window has
    /// elapsed; otherwise refuses and leaves the state unchanged.
    pub fn accept(&mut self, now_ms: u64) -> (r: Result<(), ThrottleError>)
        ensures
            old(self).is_available(now_ms) ==> r is Ok
                && final(self).last_accepted == Some(now_ms)
                && final(self).window_ms == old(self).window_ms,
            !old(self).is_available(now_ms) ==> r is Err && *final(self) == *old(self),
    {
        if self.available(now_ms) {
            self.last_accepted = Some(now_ms);
            Ok(())
        } else {
            Err(ThrottleError)
        }
    }
}

/// After an acceptance at instant 0 with window `w`, a tick at instant `t`
/// is available if and only if `t >= w`: unavailable throughout `[0, w)`,
/// available from `w` on.
pub proof fn lemma_throttle_window(th: Throttle, t: u64)
    requires
        th.last_accepted == Some(0u64),
    ensures
        th.is_available(t) <==> t >= th.window_ms,
{
}

} // verus!

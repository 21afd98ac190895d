//! The input debouncer: a fire latch that records when the last accepted
//! fire action happened and blocks further fire actions until a fixed
//! cooldown window has passed.

use vstd::prelude::*;

verus! {

/// The cooldown window in milliseconds: a latched fire action expires once
/// strictly more than this much time has passed.
pub const TIME_BUFFER_MS: u64 = 100;

/// Process-local debouncer state: the timestamp (milliseconds since start)
/// of the last accepted fire action, if it has not yet expired.
#[derive(Clone, Copy, PartialEq, Eq, Debug)]
pub struct FireLatch {
    pub last_action_ms: Option<u64>,
}

/// The latch contents after time-driven expiry at time `now_ms`: a latched
/// timestamp is cleared exactly when the cooldown window has elapsed.
pub open spec fn ticked(last: Option<u64>, now_ms: u64) -> Option<u64> {
    match last {
        Some(t) => if now_ms - t > TIME_BUFFER_MS {
            None
        } else {
            Some(t)
        },
        None => None,
    }
}

impl FireLatch {
    /// A fresh latch with nothing pending: the state at process start.
    pub fn new() -> (r: FireLatch)
        ensures
            r.last_action_ms is None,
    {
        FireLatch { last_action_ms: None }
    }

    /// Time-driven expiry, run once per tick: clears the latch exactly when
    /// the cooldown window has elapsed, whether or not a fire attempt is
    /// made this tick.  Timestamps come from a monotone clock, so a `now_ms`
    /// earlier than the latched time leaves the latch in place.
    pub fn tick(&mut self, now_ms: u64)
        ensures
            final(self).last_action_ms == ticked(old(self).last_action_ms, now_ms),
    {
        if let Some(t) = self.last_action_ms {
            if now_ms > t && now_ms - t > TIME_BUFFER_MS {
                self.last_action_ms = None;
            }
        }
    }

    /// Attempt to fire at time `now_ms`.  Expires the latch first, then
    /// permits the fire action if and only if no latched action remains;
    /// on success the latch records `now_ms`.
    pub fn try_fire(&mut self, now_ms: u64) -> (fired: bool)
        ensures
            fired == (ticked(old(self).last_action_ms, now_ms) is None),
            final(self).last_action_ms == (if fired {
                Some(now_ms)
            } else {
                ticked(old(self).last_action_ms, now_ms)
            }),
    {
        self.tick(now_ms);
        if self.last_action_ms.is_none() {
            self.last_action_ms = Some(now_ms);
            true
        } else {
            false
        }
    }
}

} // verus!

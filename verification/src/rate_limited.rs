//! Rate limiting for repeated actions, such as log output: a ticket pool
//! topped up at a fixed interval, with a count of what was skipped.

use vstd::prelude::*;

verus! {

/// The default top-up interval, in microseconds.
pub const DEFAULT_REFRESH_INTERVAL_MICROS: u64 = 60_000_000;

/// The default ticket count added per interval.
pub const DEFAULT_REFRESH_COUNT: u64 = 100;

/// A ticket pool: how many actions remain, how many were skipped since the
/// last success, and when tickets were last topped up.
#[derive(Clone, Copy, PartialEq, Eq, Debug)]
pub struct RateLimited {
    pub remaining: u64,
    pub skipped: u64,
    pub last_refresh_us: u64,
}

impl RateLimited {
    /// A fresh pool with no tickets and nothing skipped.
    pub fn new() -> (r: RateLimited)
        ensures
            r.remaining == 0,
            r.skipped == 0,
            r.last_refresh_us == 0,
    {
        RateLimited { remaining: 0, skipped: 0, last_refresh_us: 0 }
    }

    /// Consumes a ticket if one is available, returning the number of
    /// skipped calls, which resets to zero.
    pub fn consume_permit(&mut self) -> (r: Option<u64>)
        ensures
            old(self).remaining > 0 ==> ({
                &&& r == Some(old(self).skipped)
                &&& final(self).remaining == old(self).remaining - 1
                &&& final(self).skipped == 0
                &&& final(self).last_refresh_us == old(self).last_refresh_us
            }),
            old(self).remaining == 0 ==> r is None && *final(self) == *old(self),
    {
        if self.remaining > 0 {
            self.remaining = self.remaining - 1;
            let skipped = self.skipped;
            self.skipped = 0;
            Some(skipped)
        } else {
            None
        }
    }

    /// Checks for a ticket at time `now_us`, topping the pool up by `count`
    /// if at least `per_micros` has passed since the last top-up.  Returns
    /// the skipped count on success; a failure is counted as skipped.
    pub fn acquire(&mut self, count: u64, per_micros: u64, now_us: u64) -> (r: Option<u64>)
        requires
            old(self).skipped < u64::MAX,
        ensures
            count == 0 ==> r is None && *final(self) == *old(self),
            (count > 0 && old(self).remaining > 0) ==> ({
                &&& r == Some(old(self).skipped)
                &&& final(self).remaining == old(self).remaining - 1
                &&& final(self).skipped == 0
                &&& final(self).last_refresh_us == old(self).last_refresh_us
            }),
            (count > 0 && old(self).remaining == 0 && old(self).last_refresh_us + per_micros
                > now_us) ==> ({
                &&& r is None
                &&& final(self).skipped == old(self).skipped + 1
                &&& final(self).remaining == 0
                &&& final(self).last_refresh_us == old(self).last_refresh_us
            }),
            (count > 0 && old(self).remaining == 0 && old(self).last_refresh_us + per_micros
                <= now_us) ==> ({
                &&& r == Some(old(self).skipped)
                &&& final(self).remaining == count - 1
                &&& final(self).skipped == 0
                &&& final(self).last_refresh_us == now_us
            }),
    {
        if count == 0 {
            return None;
        }
        match self.consume_permit() {
            Some(rv) => {
                return Some(rv);
            },
            None => {},
        }
        let due = match self.last_refresh_us.checked_add(per_micros) {
            Some(t) => t <= now_us,
            None => false,
        };
        if !due {
            self.skipped = self.skipped + 1;
            return None;
        }
        self.last_refresh_us = now_us;
        self.remaining = count;
        match self.consume_permit() {
            Some(rv) => Some(rv),
            None => {
                proof {
                    assert(false);
                }
                None
            },
        }
    }
}

} // verus!

//! One-shot deadline gate on a monotonic microsecond clock.
//!
//! The timer is armed with a length in milliseconds and considered running
//! until the clock passes the deadline.  The caller reads the clock and
//! passes the current time into every query, so the timer itself is pure
//! state: it can be driven by the hardware counter in production and by a
//! simulated clock in tests.

use vstd::prelude::*;

verus! {

/// A one-shot countdown keyed off a monotonic microsecond clock.
#[derive(Clone, Copy)]
pub struct StopTimer {
    start: u64,
    end: u64,
    status: bool,
}

impl StopTimer {
    /// Time the timer was last armed at, in microseconds.
    pub closed spec fn spec_start(self) -> u64 {
        self.start
    }

    /// Deadline the timer expires at, in microseconds.
    pub closed spec fn spec_end(self) -> u64 {
        self.end
    }

    /// Whether the timer is armed and has not yet been consumed.
    pub closed spec fn spec_status(self) -> bool {
        self.status
    }

    /// A timer that is not armed.
    pub fn new() -> (r: StopTimer)
        ensures
            r.spec_start() == 0,
            r.spec_end() == 0,
            !r.spec_status(),
    {
        StopTimer { start: 0u64, end: 0u64, status: false }
    }

    /// Arms the timer: the deadline is `length_ms` milliseconds after `now`.
    pub fn start_timer(&mut self, length_ms: u64, now: u64)
        requires
            now + length_ms * 1000 <= u64::MAX,
        ensures
            final(self).spec_start() == now,
            final(self).spec_end() == now + length_ms * 1000,
            final(self).spec_status(),
    {
        self.start = now;
        self.end = now + (length_ms * 1000);
        self.status = true;
    }

    /// Disarms the timer immediately, regardless of remaining time.
    pub fn reset_timer(&mut self)
        ensures
            !final(self).spec_status(),
            final(self).spec_start() == old(self).spec_start(),
            final(self).spec_end() == old(self).spec_end(),
    {
        self.status = false;
    }

    /// Whether the armed timer has reached its deadline; does not disarm it.
    pub fn has_expired_no_rst(&self, now: u64) -> (r: bool)
        ensures
            r == (self.spec_status() && now >= self.spec_end()),
    {
        self.status && now >= self.end
    }

    /// Whether the armed timer has reached its deadline; the first call
    /// that observes expiry also disarms the timer, so expiry is reported
    /// exactly once.
    pub fn has_expired(&mut self, now: u64) -> (r: bool)
        ensures
            r == (old(self).spec_status() && now >= old(self).spec_end()),
            final(self).spec_status() == (old(self).spec_status() && now < old(self).spec_end()),
            final(self).spec_start() == old(self).spec_start(),
            final(self).spec_end() == old(self).spec_end(),
    {
        if self.has_expired_no_rst(now) {
            self.status = false;
            true
        } else {
            false
        }
    }

    /// Whether the timer is armed, whether or not the deadline has passed.
    pub fn status(&self) -> (r: bool)
        ensures
            r == self.spec_status(),
    {
        self.status
    }

    /// Whether the timer is armed and the deadline has not yet passed.
    /// The first call after expiry consumes the expiry and disarms the
    /// timer, so a second immediate call still returns false.
    pub fn is_running(&mut self, now: u64) -> (r: bool)
        ensures
            r == (old(self).spec_status() && now < old(self).spec_end()),
            final(self).spec_status() == r,
            final(self).spec_start() == old(self).spec_start(),
            final(self).spec_end() == old(self).spec_end(),
    {
        self.status && !self.has_expired(now)
    }
}

} // verus!

//! Per-axis speed estimation from raw position deltas, with stall
//! detection.
//!
//! The estimator samples a raw position each tick.  When the position
//! has moved since the last sample, the speed is the position delta
//! divided by the elapsed time; when it has not moved for too long the
//! speed resets to zero.  Speed is reported in millipulses per second
//! so that the arithmetic stays exact and integral.
//!
//! The caller reads the position sensor and the clock and passes both
//! in, so the estimator is pure state and can be driven by a simulated
//! sensor in tests.

use vstd::prelude::*;
use crate::trig::{qdiv, qdiv_s};

verus! {

/// With no position change, the axis counts as stalled once 100 ms
/// pass at a commanded duty of magnitude at most 10, or once 200 ms
/// pass at any duty.
pub open spec fn spec_stalled(duty: int, elapsed: int) -> bool {
    (elapsed > 100_000 && -10 <= duty <= 10) || elapsed > 200_000
}

/// Pulse-counting speed estimator for one axis.
pub struct PulseContedSpeedCalc {
    last_sample_time: u64,
    last_pos: i32,
    speed: i64,
    raw: i32,
}

impl PulseContedSpeedCalc {
    /// Time of the last accepted sample, in microseconds.
    pub closed spec fn spec_last_sample_time(self) -> u64 {
        self.last_sample_time
    }

    /// Position of the last accepted sample, in pulses.
    pub closed spec fn spec_last_pos(self) -> int {
        self.last_pos as int
    }

    /// Estimated speed, in millipulses per second.
    pub closed spec fn spec_speed(self) -> int {
        self.speed as int
    }

    /// The most recently observed raw position, in pulses.
    pub closed spec fn spec_raw(self) -> int {
        self.raw as int
    }

    /// A fresh estimator: at rest at position zero, sampled at `now`.
    pub fn new(now: u64) -> (r: PulseContedSpeedCalc)
        ensures
            r.spec_last_sample_time() == now,
            r.spec_last_pos() == 0,
            r.spec_speed() == 0,
            r.spec_raw() == 0,
    {
        PulseContedSpeedCalc { last_sample_time: now, last_pos: 0, speed: 0, raw: 0 }
    }

    /// What one observation does to the estimator: when the position
    /// moved and time passed, the speed becomes the delta over the
    /// elapsed seconds and the sample point resets; when the position
    /// moved but the clock has not advanced, the sample is deferred to
    /// a later tick; when the position is unchanged for longer than
    /// the stall window, the speed resets to zero.
    pub open spec fn ticked(pre: PulseContedSpeedCalc, post: PulseContedSpeedCalc, duty: int,
        raw: int, now: int) -> bool {
        &&& post.spec_raw() == raw
        &&& raw != pre.spec_last_pos() && now > pre.spec_last_sample_time() ==> {
            &&& post.spec_speed() == qdiv_s(
                (raw - pre.spec_last_pos()) * 1_000_000_000,
                now - pre.spec_last_sample_time(),
            )
            &&& post.spec_last_pos() == raw
            &&& post.spec_last_sample_time() == now
        }
        &&& raw != pre.spec_last_pos() && now == pre.spec_last_sample_time() ==> {
            &&& post.spec_speed() == pre.spec_speed()
            &&& post.spec_last_pos() == pre.spec_last_pos()
            &&& post.spec_last_sample_time() == pre.spec_last_sample_time()
        }
        &&& raw == pre.spec_last_pos() ==> {
            &&& post.spec_speed() == if spec_stalled(duty, now - pre.spec_last_sample_time()) {
                0int
            } else {
                pre.spec_speed()
            }
            &&& post.spec_last_pos() == pre.spec_last_pos()
            &&& post.spec_last_sample_time() == pre.spec_last_sample_time()
        }
    }

    /// Feeds one observation.  `raw_pos` is the sensor's position,
    /// `commanded_duty` the signed duty currently driven on the axis,
    /// `now` the monotonic clock in microseconds.
    pub fn tick(&mut self, commanded_duty: i32, raw_pos: i32, now: u64)
        requires
            now >= old(self).spec_last_sample_time(),
        ensures
            Self::ticked(*old(self), *final(self), commanded_duty as int, raw_pos as int, now as int),
    {
        let elapsed = now - self.last_sample_time;
        if raw_pos != self.last_pos {
            if elapsed > 0 {
                let delta = raw_pos as i128 - self.last_pos as i128;
                let v = qdiv(delta * 1_000_000_000, elapsed as i128);
                self.speed = v as i64;
                self.last_sample_time = now;
                self.last_pos = raw_pos;
            }
        } else {
            let duty_mag = if commanded_duty < 0 {
                -(commanded_duty as i64)
            } else {
                commanded_duty as i64
            };
            if (elapsed > 100_000 && duty_mag <= 10) || elapsed > 200_000 {
                self.speed = 0;
            }
        }
        self.raw = raw_pos;
    }

    /// Estimated speed, in millipulses per second.
    pub fn speed(&self) -> (r: i64)
        ensures
            r == self.spec_speed(),
    {
        self.speed
    }

    /// Time of the last accepted sample, in microseconds.
    pub fn last_sample_time(&self) -> (r: u64)
        ensures
            r == self.spec_last_sample_time(),
    {
        self.last_sample_time
    }

    /// The most recently observed raw position, in pulses.
    pub fn pos(&self) -> (r: i32)
        ensures
            r == self.spec_raw(),
    {
        self.raw
    }
}

} // verus!

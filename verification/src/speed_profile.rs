//! A point of a speed profile: the duty to hold from a given
//! position on.

use vstd::prelude::*;

verus! {

/// One vertex of a piecewise-constant speed profile.
#[derive(Clone, Copy, PartialEq, Eq, Structural, Debug)]
pub struct SpeedVector {
    pos: i32,
    speed: u32,
}

impl SpeedVector {
    /// Position the speed applies from, in pulses.
    pub closed spec fn spec_pos(self) -> int {
        self.pos as int
    }

    /// Duty to hold from that position on.
    pub closed spec fn spec_speed(self) -> int {
        self.speed as int
    }

    /// A profile vertex.
    pub fn new(pos: i32, speed: u32) -> (r: SpeedVector)
        ensures
            r.spec_pos() == pos,
            r.spec_speed() == speed,
    {
        SpeedVector { pos, speed }
    }

    /// Position the speed applies from, in pulses.
    pub fn pos(&self) -> (r: i32)
        ensures
            r == self.spec_pos(),
    {
        self.pos
    }

    /// Duty to hold from that position on.
    pub fn speed(&self) -> (r: u32)
        ensures
            r == self.spec_speed(),
    {
        self.speed
    }
}

} // verus!

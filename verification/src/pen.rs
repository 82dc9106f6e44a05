//! Pen actuator target state.

use vstd::prelude::*;

verus! {

/// Servo angle the pen returns to when no explicit angle is pending.
pub const UP_ANGLE: u8 = 60;

/// Target state of the pen actuator: either the retracted default
/// position or an explicit servo angle.
#[derive(Clone, Copy, PartialEq, Eq, Structural, Debug)]
pub enum PenPosition {
    Default,
    Angle(u8),
}

impl PenPosition {
    /// Servo angle this state drives the pen to.
    pub open spec fn spec_angle(self) -> u8 {
        match self {
            PenPosition::Default => UP_ANGLE,
            PenPosition::Angle(a) => a,
        }
    }

    /// Servo angle this state drives the pen to.
    pub fn angle(self) -> (r: u8)
        ensures
            r == self.spec_angle(),
    {
        match self {
            PenPosition::Default => UP_ANGLE,
            PenPosition::Angle(a) => a,
        }
    }
}

} // verus!

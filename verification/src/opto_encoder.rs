//! The position sensor interface of one axis.

use vstd::prelude::*;

verus! {

/// A free-running axis position sensor.  Implementations live with
/// the hardware: `pos` reads the signed pulse count, `dir` the
/// direction of the last count, and `calibrate` zeroes the sensor's
/// reference point.
pub trait Encoder {
    fn pos(&self) -> i32;

    fn dir(&self) -> bool;

    fn calibrate(&self);
}

} // verus!

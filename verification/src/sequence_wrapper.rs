//! Command translation onto the trajectory queue.
//!
//! The wrapper converts decoded movement commands into queue entries.
//! Coordinates arrive in nanometers, are divided by the per-axis unit
//! length (nanometers per pulse) with rounding to the nearest pulse,
//! and are then shifted by the home offset.  A pending pen angle is
//! attached to every segment appended after it was set.

use vstd::prelude::*;
use crate::interpolator::{clamp_i32, CircularInterpolationDir, Interpolation};
use crate::pen::PenPosition;
use crate::sequence::Sequence;
use crate::sequence::SequenceVector;
use crate::trig::{clamp_s, rdiv, rdiv_s};

verus! {

/// Nanometers of travel per pulse on the x axis.
pub const UNIT_LENGTH_X_NM: u32 = 42000;

/// Nanometers of travel per pulse on the y axis.
pub const UNIT_LENGTH_Y_NM: u32 = 10500;

/// Converts decoded movement commands (coordinates in nanometers)
/// into entries of the trajectory queue it owns.
pub struct SequenceWrapper {
    unit_length_x: u32,
    unit_length_y: u32,
    pub sequence: Sequence,
    pen_pos: PenPosition,
    home_pos: (i32, i32),
}

impl SequenceWrapper {
    /// Nanometers per pulse on the x axis.
    pub closed spec fn spec_unit_x(self) -> int {
        self.unit_length_x as int
    }

    /// Nanometers per pulse on the y axis.
    pub closed spec fn spec_unit_y(self) -> int {
        self.unit_length_y as int
    }

    /// Home offset added to every converted coordinate, in pulses.
    pub closed spec fn spec_home(self) -> (int, int) {
        (self.home_pos.0 as int, self.home_pos.1 as int)
    }

    /// Pen state attached to the next appended segment.
    pub closed spec fn spec_pen(self) -> PenPosition {
        self.pen_pos
    }

    /// The owned queue.
    pub closed spec fn spec_sequence(self) -> Sequence {
        self.sequence
    }

    /// Unit lengths are positive and the queue invariant holds.
    pub open spec fn wf(self) -> bool {
        &&& 1 <= self.spec_unit_x()
        &&& 1 <= self.spec_unit_y()
        &&& self.spec_sequence().wf()
    }

    /// An x coordinate in nanometers converted to pulses: rounded to
    /// the nearest pulse, shifted by the home offset, saturated to the
    /// pulse range.
    pub open spec fn spec_target_x(self, v: int) -> int {
        clamp_s(rdiv_s(v, self.spec_unit_x()) + self.spec_home().0, i32::MIN as int, i32::MAX as int)
    }

    /// A y coordinate in nanometers converted to pulses.
    pub open spec fn spec_target_y(self, v: int) -> int {
        clamp_s(rdiv_s(v, self.spec_unit_y()) + self.spec_home().1, i32::MIN as int, i32::MAX as int)
    }

    /// What appending one segment with end `(ex, ey)`, pen state
    /// `pen` and method `method` does to the wrapper: with room the
    /// queue grew by exactly that segment, full it stayed unchanged;
    /// nothing but the queue contents moves.
    pub open spec fn grew_by(self, post: SequenceWrapper, ex: int, ey: int, pen: PenPosition,
        method: Interpolation) -> bool {
        &&& post.wf()
        &&& post.spec_unit_x() == self.spec_unit_x()
        &&& post.spec_unit_y() == self.spec_unit_y()
        &&& post.spec_home() == self.spec_home()
        &&& post.spec_sequence().spec_cursor() == self.spec_sequence().spec_cursor()
        &&& post.spec_sequence().spec_running() == self.spec_sequence().spec_running()
        &&& self.spec_sequence().spec_list().len() < 1024 ==> {
            let s = post.spec_sequence().spec_list().last();
            &&& post.spec_sequence().spec_list() == self.spec_sequence().spec_list().push(s)
            &&& s.spec_start() == self.spec_sequence().spec_list().last().spec_end()
            &&& s.spec_end() == (ex, ey)
            &&& s.spec_pen() == pen
            &&& s.spec_interp().spec_method() == method
        }
        &&& self.spec_sequence().spec_list().len() >= 1024 ==> post.spec_sequence().spec_list()
            == self.spec_sequence().spec_list()
    }

    /// As `grew_by`, together with the capacity error: the append
    /// succeeds exactly while the queue is below capacity, and the
    /// pending pen state does not move.
    pub open spec fn appended(self, post: SequenceWrapper, r: Result<(), ()>, ex: int, ey: int,
        pen: PenPosition, method: Interpolation) -> bool {
        &&& self.grew_by(post, ex, ey, pen, method)
        &&& post.spec_pen() == self.spec_pen()
        &&& (r is Ok <==> self.spec_sequence().spec_list().len() < 1024)
    }

    /// A fresh translator around a fresh queue: unit lengths fixed,
    /// home at the origin, pen retracted.
    pub fn new() -> (r: SequenceWrapper)
        ensures
            r.wf(),
            r.spec_unit_x() == UNIT_LENGTH_X_NM,
            r.spec_unit_y() == UNIT_LENGTH_Y_NM,
            r.spec_home() == (0int, 0int),
            r.spec_pen() == PenPosition::Default,
            r.spec_sequence().spec_list().len() == 1,
            r.spec_sequence().spec_cursor() == 0,
            !r.spec_sequence().spec_running(),
            r.spec_sequence().spec_list()[0].spec_end() == (0int, 0int),
            r.spec_sequence().spec_list()[0].spec_interp().spec_method() == Interpolation::Linear,
    {
        SequenceWrapper {
            unit_length_x: UNIT_LENGTH_X_NM,
            unit_length_y: UNIT_LENGTH_Y_NM,
            sequence: Sequence::new(),
            pen_pos: PenPosition::Default,
            home_pos: (0, 0),
        }
    }

    /// Sets the pending pen angle, clamped into `[0, 255]`.
    pub fn pen_pos(&mut self, angle: i32)
        ensures
            final(self).spec_pen() == PenPosition::Angle(
                clamp_s(angle as int, 0, 255) as u8,
            ),
            final(self).spec_sequence() == old(self).spec_sequence(),
            final(self).spec_home() == old(self).spec_home(),
            final(self).spec_unit_x() == old(self).spec_unit_x(),
            final(self).spec_unit_y() == old(self).spec_unit_y(),
    {
        let a = if angle < 0 {
            0
        } else if angle > 255 {
            255
        } else {
            angle
        };
        self.pen_pos = PenPosition::Angle(a as u8);
    }

    /// Redefines the home offset from coordinates in nanometers; does
    /// not move segments that are already queued.
    pub fn set_home(&mut self, x: i64, y: i64)
        requires
            old(self).wf(),
        ensures
            final(self).wf(),
            final(self).spec_home() == (
                clamp_s(rdiv_s(x as int, old(self).spec_unit_x()), i32::MIN as int, i32::MAX as int),
                clamp_s(rdiv_s(y as int, old(self).spec_unit_y()), i32::MIN as int, i32::MAX as int),
            ),
            final(self).spec_sequence() == old(self).spec_sequence(),
            final(self).spec_pen() == old(self).spec_pen(),
            final(self).spec_unit_x() == old(self).spec_unit_x(),
            final(self).spec_unit_y() == old(self).spec_unit_y(),
    {
        let hx = clamp_i32(rdiv(x as i128, self.unit_length_x as i128));
        let hy = clamp_i32(rdiv(y as i128, self.unit_length_y as i128));
        self.home_pos = (hx, hy);
    }

    /// Converts an x coordinate in nanometers to pulses, before the
    /// home offset is applied.
    pub fn mm_to_unit_x(&self, value: i64) -> (r: i64)
        requires
            self.wf(),
            -0x4000_0000_0000_0000 <= value <= 0x4000_0000_0000_0000,
        ensures
            r == rdiv_s(value as int, self.spec_unit_x()),
    {
        rdiv(value as i128, self.unit_length_x as i128) as i64
    }

    /// Converts a y coordinate in nanometers to pulses, before the
    /// home offset is applied.
    pub fn mm_to_unit_y(&self, value: i64) -> (r: i64)
        requires
            self.wf(),
            -0x4000_0000_0000_0000 <= value <= 0x4000_0000_0000_0000,
        ensures
            r == rdiv_s(value as int, self.spec_unit_y()),
    {
        rdiv(value as i128, self.unit_length_y as i128) as i64
    }

    fn target_x(&self, value: i64) -> (r: i32)
        requires
            self.wf(),
        ensures
            r as int == self.spec_target_x(value as int),
    {
        let p = rdiv(value as i128, self.unit_length_x as i128);
        clamp_i32(p + self.home_pos.0 as i128)
    }

    fn target_y(&self, value: i64) -> (r: i32)
        requires
            self.wf(),
        ensures
            r as int == self.spec_target_y(value as int),
    {
        let p = rdiv(value as i128, self.unit_length_y as i128);
        clamp_i32(p + self.home_pos.1 as i128)
    }

    /// Appends a linear segment toward `(x, y)` nanometers.
    pub fn pos(&mut self, x: i64, y: i64) -> (r: Result<(), ()>)
        requires
            old(self).wf(),
        ensures
            old(self).appended(
                *final(self),
                r,
                old(self).spec_target_x(x as int),
                old(self).spec_target_y(y as int),
                old(self).spec_pen(),
                Interpolation::Linear,
            ),
    {
        let px = self.target_x(x);
        let py = self.target_y(y);
        self.sequence.add_pos(px, py, self.pen_pos, Interpolation::Linear)
    }

    /// Appends a point (rapid move) segment toward `(x, y)` nanometers.
    pub fn pos_rapid(&mut self, x: i64, y: i64) -> (r: Result<(), ()>)
        requires
            old(self).wf(),
        ensures
            old(self).appended(
                *final(self),
                r,
                old(self).spec_target_x(x as int),
                old(self).spec_target_y(y as int),
                old(self).spec_pen(),
                Interpolation::NoInterpolation,
            ),
    {
        let px = self.target_x(x);
        let py = self.target_y(y);
        self.sequence.add_pos(px, py, self.pen_pos, Interpolation::NoInterpolation)
    }

    /// Appends a linear segment that moves only the x axis; the y end
    /// coordinate is carried over from the last queued segment.
    pub fn pos_x(&mut self, x: i64) -> (r: Result<(), ()>)
        requires
            old(self).wf(),
        ensures
            old(self).appended(
                *final(self),
                r,
                old(self).spec_target_x(x as int),
                old(self).spec_sequence().spec_list().last().spec_end().1,
                old(self).spec_pen(),
                Interpolation::Linear,
            ),
    {
        let px = self.target_x(x);
        let py = self.sequence.last_pos().end_y();
        self.sequence.add_pos(px, py, self.pen_pos, Interpolation::Linear)
    }

    /// Appends a linear segment that moves only the y axis.
    pub fn pos_y(&mut self, y: i64) -> (r: Result<(), ()>)
        requires
            old(self).wf(),
        ensures
            old(self).appended(
                *final(self),
                r,
                old(self).spec_sequence().spec_list().last().spec_end().0,
                old(self).spec_target_y(y as int),
                old(self).spec_pen(),
                Interpolation::Linear,
            ),
    {
        let px = self.sequence.last_pos().end_x();
        let py = self.target_y(y);
        self.sequence.add_pos(px, py, self.pen_pos, Interpolation::Linear)
    }

    /// Appends a point (rapid move) segment that moves only the x axis.
    pub fn pos_x_rapid(&mut self, x: i64) -> (r: Result<(), ()>)
        requires
            old(self).wf(),
        ensures
            old(self).appended(
                *final(self),
                r,
                old(self).spec_target_x(x as int),
                old(self).spec_sequence().spec_list().last().spec_end().1,
                old(self).spec_pen(),
                Interpolation::NoInterpolation,
            ),
    {
        let px = self.target_x(x);
        let py = self.sequence.last_pos().end_y();
        self.sequence.add_pos(px, py, self.pen_pos, Interpolation::NoInterpolation)
    }

    /// Appends a point (rapid move) segment that moves only the y axis.
    pub fn pos_y_rapid(&mut self, y: i64) -> (r: Result<(), ()>)
        requires
            old(self).wf(),
        ensures
            old(self).appended(
                *final(self),
                r,
                old(self).spec_sequence().spec_list().last().spec_end().0,
                old(self).spec_target_y(y as int),
                old(self).spec_pen(),
                Interpolation::NoInterpolation,
            ),
    {
        let px = self.sequence.last_pos().end_x();
        let py = self.target_y(y);
        self.sequence.add_pos(px, py, self.pen_pos, Interpolation::NoInterpolation)
    }

    /// The center offset of an arc whose center is given absolutely:
    /// the center in pulses (home applied), relative to the start of
    /// the segment, saturated to the pulse range.
    pub open spec fn spec_abs_center_offset_x(self, i: int) -> int {
        clamp_s(
            rdiv_s(i, self.spec_unit_x()) + self.spec_home().0
                - self.spec_sequence().spec_list().last().spec_end().0,
            i32::MIN as int,
            i32::MAX as int,
        )
    }

    /// As `spec_abs_center_offset_x`, on the y axis.
    pub open spec fn spec_abs_center_offset_y(self, j: int) -> int {
        clamp_s(
            rdiv_s(j, self.spec_unit_y()) + self.spec_home().1
                - self.spec_sequence().spec_list().last().spec_end().1,
            i32::MIN as int,
            i32::MAX as int,
        )
    }

    /// Appends a circular segment toward `(x, y)` nanometers whose
    /// center is `(i, j)` nanometers in absolute coordinates.
    pub fn arc_absolute_center(&mut self, x: i64, y: i64, i: i64, j: i64, dir:
        CircularInterpolationDir) -> (r: Result<(), ()>)
        requires
            old(self).wf(),
        ensures
            old(self).appended(
                *final(self),
                r,
                old(self).spec_target_x(x as int),
                old(self).spec_target_y(y as int),
                old(self).spec_pen(),
                Interpolation::Circular(
                    old(self).spec_abs_center_offset_x(i as int) as i32,
                    old(self).spec_abs_center_offset_y(j as int) as i32,
                    dir,
                ),
            ),
    {
        let px = self.target_x(x);
        let py = self.target_y(y);
        let ci = rdiv(i as i128, self.unit_length_x as i128) + self.home_pos.0 as i128;
        let cj = rdiv(j as i128, self.unit_length_y as i128) + self.home_pos.1 as i128;
        let last = self.sequence.last_pos();
        let oi = clamp_i32(ci - last.end_x() as i128);
        let oj = clamp_i32(cj - last.end_y() as i128);
        self.sequence.add_pos(px, py, self.pen_pos, Interpolation::Circular(oi, oj, dir))
    }

    /// Appends a clockwise arc with an absolute center.
    pub fn arc_clockwise_absolute_center(&mut self, x: i64, y: i64, i: i64, j: i64) -> (r: Result<
        (),
        (),
    >)
        requires
            old(self).wf(),
        ensures
            old(self).appended(
                *final(self),
                r,
                old(self).spec_target_x(x as int),
                old(self).spec_target_y(y as int),
                old(self).spec_pen(),
                Interpolation::Circular(
                    old(self).spec_abs_center_offset_x(i as int) as i32,
                    old(self).spec_abs_center_offset_y(j as int) as i32,
                    CircularInterpolationDir::Clockwise,
                ),
            ),
    {
        self.arc_absolute_center(x, y, i, j, CircularInterpolationDir::Clockwise)
    }

    /// Appends a counter-clockwise arc with an absolute center.
    pub fn arc_counter_clockwise_absolute_center(&mut self, x: i64, y: i64, i: i64, j: i64) -> (r:
        Result<(), ()>)
        requires
            old(self).wf(),
        ensures
            old(self).appended(
                *final(self),
                r,
                old(self).spec_target_x(x as int),
                old(self).spec_target_y(y as int),
                old(self).spec_pen(),
                Interpolation::Circular(
                    old(self).spec_abs_center_offset_x(i as int) as i32,
                    old(self).spec_abs_center_offset_y(j as int) as i32,
                    CircularInterpolationDir::CounterClockwise,
                ),
            ),
    {
        self.arc_absolute_center(x, y, i, j, CircularInterpolationDir::CounterClockwise)
    }

    /// Appends a circular segment toward `(x, y)` nanometers whose
    /// center is `(i, j)` nanometers relative to the segment's start.
    pub fn arc_relative_center(&mut self, x: i64, y: i64, i: i64, j: i64, dir:
        CircularInterpolationDir) -> (r: Result<(), ()>)
        requires
            old(self).wf(),
        ensures
            old(self).appended(
                *final(self),
                r,
                old(self).spec_target_x(x as int),
                old(self).spec_target_y(y as int),
                old(self).spec_pen(),
                Interpolation::Circular(
                    clamp_s(rdiv_s(i as int, old(self).spec_unit_x()), i32::MIN as int, i32::MAX as int) as i32,
                    clamp_s(rdiv_s(j as int, old(self).spec_unit_y()), i32::MIN as int, i32::MAX as int) as i32,
                    dir,
                ),
            ),
    {
        let px = self.target_x(x);
        let py = self.target_y(y);
        let oi = clamp_i32(rdiv(i as i128, self.unit_length_x as i128));
        let oj = clamp_i32(rdiv(j as i128, self.unit_length_y as i128));
        self.sequence.add_pos(px, py, self.pen_pos, Interpolation::Circular(oi, oj, dir))
    }

    /// Appends a clockwise arc with a relative center.
    pub fn arc_clockwise_relative_center(&mut self, x: i64, y: i64, i: i64, j: i64) -> (r: Result<
        (),
        (),
    >)
        requires
            old(self).wf(),
        ensures
            old(self).appended(
                *final(self),
                r,
                old(self).spec_target_x(x as int),
                old(self).spec_target_y(y as int),
                old(self).spec_pen(),
                Interpolation::Circular(
                    clamp_s(rdiv_s(i as int, old(self).spec_unit_x()), i32::MIN as int, i32::MAX as int) as i32,
                    clamp_s(rdiv_s(j as int, old(self).spec_unit_y()), i32::MIN as int, i32::MAX as int) as i32,
                    CircularInterpolationDir::Clockwise,
                ),
            ),
    {
        self.arc_relative_center(x, y, i, j, CircularInterpolationDir::Clockwise)
    }

    /// Appends a counter-clockwise arc with a relative center.
    pub fn arc_counter_clockwise_relative_center(&mut self, x: i64, y: i64, i: i64, j: i64) -> (r:
        Result<(), ()>)
        requires
            old(self).wf(),
        ensures
            old(self).appended(
                *final(self),
                r,
                old(self).spec_target_x(x as int),
                old(self).spec_target_y(y as int),
                old(self).spec_pen(),
                Interpolation::Circular(
                    clamp_s(rdiv_s(i as int, old(self).spec_unit_x()), i32::MIN as int, i32::MAX as int) as i32,
                    clamp_s(rdiv_s(j as int, old(self).spec_unit_y()), i32::MIN as int, i32::MAX as int) as i32,
                    CircularInterpolationDir::CounterClockwise,
                ),
            ),
    {
        self.arc_relative_center(x, y, i, j, CircularInterpolationDir::CounterClockwise)
    }

    /// Alias for `arc_clockwise_relative_center`.
    pub fn arc_clockwise(&mut self, x: i64, y: i64, i: i64, j: i64) -> (r: Result<(), ()>)
        requires
            old(self).wf(),
        ensures
            old(self).appended(
                *final(self),
                r,
                old(self).spec_target_x(x as int),
                old(self).spec_target_y(y as int),
                old(self).spec_pen(),
                Interpolation::Circular(
                    clamp_s(rdiv_s(i as int, old(self).spec_unit_x()), i32::MIN as int, i32::MAX as int) as i32,
                    clamp_s(rdiv_s(j as int, old(self).spec_unit_y()), i32::MIN as int, i32::MAX as int) as i32,
                    CircularInterpolationDir::Clockwise,
                ),
            ),
    {
        self.arc_clockwise_relative_center(x, y, i, j)
    }

    /// Alias for `arc_counter_clockwise_relative_center`.
    pub fn arc_counter_clockwise(&mut self, x: i64, y: i64, i: i64, j: i64) -> (r: Result<(), ()>)
        requires
            old(self).wf(),
        ensures
            old(self).appended(
                *final(self),
                r,
                old(self).spec_target_x(x as int),
                old(self).spec_target_y(y as int),
                old(self).spec_pen(),
                Interpolation::Circular(
                    clamp_s(rdiv_s(i as int, old(self).spec_unit_x()), i32::MIN as int, i32::MAX as int) as i32,
                    clamp_s(rdiv_s(j as int, old(self).spec_unit_y()), i32::MIN as int, i32::MAX as int) as i32,
                    CircularInterpolationDir::CounterClockwise,
                ),
            ),
    {
        self.arc_counter_clockwise_relative_center(x, y, i, j)
    }

    /// Starts the queue.
    pub fn start(&mut self)
        ensures
            final(self).spec_sequence().spec_running(),
            final(self).spec_sequence().spec_list() == old(self).spec_sequence().spec_list(),
            final(self).spec_sequence().spec_cursor() == old(self).spec_sequence().spec_cursor(),
            final(self).spec_pen() == old(self).spec_pen(),
            final(self).spec_home() == old(self).spec_home(),
            final(self).spec_unit_x() == old(self).spec_unit_x(),
            final(self).spec_unit_y() == old(self).spec_unit_y(),
    {
        self.sequence.start_sequence()
    }

    /// Stops the queue.
    pub fn stop(&mut self)
        ensures
            !final(self).spec_sequence().spec_running(),
            final(self).spec_sequence().spec_list() == old(self).spec_sequence().spec_list(),
            final(self).spec_sequence().spec_cursor() == old(self).spec_sequence().spec_cursor(),
            final(self).spec_pen() == old(self).spec_pen(),
            final(self).spec_home() == old(self).spec_home(),
            final(self).spec_unit_x() == old(self).spec_unit_x(),
            final(self).spec_unit_y() == old(self).spec_unit_y(),
    {
        self.sequence.stop_sequence()
    }

    /// Clears the queue, reseeding it at `curr_pos`.
    pub fn clear(&mut self, curr_pos: (i32, i32))
        requires
            old(self).wf(),
        ensures
            final(self).wf(),
            final(self).spec_sequence().spec_list().len() == 1,
            final(self).spec_sequence().spec_cursor() == 0,
            final(self).spec_sequence().spec_running() == old(self).spec_sequence().spec_running(),
            final(self).spec_sequence().spec_list()[0].spec_end() == (curr_pos.0 as int, curr_pos.1 as int),
            final(self).spec_sequence().spec_list()[0].spec_pen() == PenPosition::Default,
            final(self).spec_pen() == old(self).spec_pen(),
            final(self).spec_home() == old(self).spec_home(),
            final(self).spec_unit_x() == old(self).spec_unit_x(),
            final(self).spec_unit_y() == old(self).spec_unit_y(),
    {
        self.sequence.clear_sequence(curr_pos)
    }

    /// Whether the queue can take another segment.
    pub fn has_free_space(&self) -> (r: bool)
        ensures
            r == (self.spec_sequence().spec_list().len() < 1024),
    {
        self.sequence.has_free_space()
    }

    /// The number of queued segments.
    pub fn sequence_len(&self) -> (r: usize)
        ensures
            r == self.spec_sequence().spec_list().len(),
    {
        self.sequence.sequence_len()
    }

    /// Whether the queue is started.
    pub fn is_running(&self) -> (r: bool)
        ensures
            r == self.spec_sequence().spec_running(),
    {
        self.sequence.is_running()
    }

    /// The segment the queue cursor points at.
    pub fn curr_pos(&self) -> (r: SequenceVector)
        requires
            self.wf(),
        ensures
            r == self.spec_sequence().spec_list()[self.spec_sequence().spec_cursor()],
    {
        self.sequence.curr_pos()
    }

    /// Advances the queue cursor; `None` at the tail.
    pub fn advance(&mut self) -> (r: Option<(i32, i32)>)
        requires
            old(self).wf(),
        ensures
            final(self).wf(),
            final(self).spec_sequence().spec_list() == old(self).spec_sequence().spec_list(),
            final(self).spec_sequence().spec_running() == old(self).spec_sequence().spec_running(),
            final(self).spec_pen() == old(self).spec_pen(),
            final(self).spec_home() == old(self).spec_home(),
            final(self).spec_unit_x() == old(self).spec_unit_x(),
            final(self).spec_unit_y() == old(self).spec_unit_y(),
            old(self).spec_sequence().spec_cursor() + 1 < old(self).spec_sequence().spec_list().len() ==> {
                &&& final(self).spec_sequence().spec_cursor() == old(self).spec_sequence().spec_cursor() + 1
                &&& r matches Some(p) && (p.0 as int, p.1 as int) == old(self).spec_sequence().spec_list()[
                    old(self).spec_sequence().spec_cursor() + 1].spec_end()
            },
            old(self).spec_sequence().spec_cursor() + 1 >= old(self).spec_sequence().spec_list().len() ==> r
                is None && final(self).spec_sequence().spec_cursor() == old(self).spec_sequence().spec_cursor(),
    {
        self.sequence.advance()
    }
}

} // verus!

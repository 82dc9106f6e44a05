//! Geometric model of one motion segment.
//!
//! A segment is linear, circular, or a bare point.  The interpolator
//! computes the segment's length in unit steps and a parametric point
//! along the path for each step index.  All geometry is exact integer
//! and fixed-point arithmetic: a linear segment's length is the
//! Chebyshev distance between its endpoints, a circular segment's
//! angles are binary angular measure computed by the CORDIC routines
//! in `trig`.

use vstd::prelude::*;
use crate::trig::{
    atan2_bam, clamp_s, fdiv, fdiv_s, isqrt, rdiv, rdiv_s, sincos, spec_atan2_bam, spec_sincos,
    SCALE, TURN, TWO_PI_SCALED,
};

verus! {

/// Direction a circular arc is traversed in.
#[derive(Clone, Copy, PartialEq, Eq, Structural, Debug)]
pub enum CircularInterpolationDir {
    Clockwise,
    CounterClockwise,
}

/// How the path between two endpoints is interpolated.  A circular
/// path carries the offset from the segment's start to the circle's
/// center, in pulses.
#[derive(Clone, Copy, PartialEq, Eq, Structural, Debug)]
pub enum Interpolation {
    Linear,
    Circular(i32, i32, CircularInterpolationDir),
    NoInterpolation,
}

/// The Chebyshev distance between two points: interpolation
/// granularity is tied to the faster-moving axis.
pub open spec fn chebyshev_s(start: (int, int), end: (int, int)) -> int {
    let dx = if end.0 >= start.0 { end.0 - start.0 } else { start.0 - end.0 };
    let dy = if end.1 >= start.1 { end.1 - start.1 } else { start.1 - end.1 };
    if dx >= dy { dx } else { dy }
}

/// Geometry of one motion segment, fixed at construction.
#[derive(Clone, Copy)]
pub struct Interpolator {
    start: (i32, i32),
    end: (i32, i32),
    interpolation_len: u64,
    radius: u64,
    start_angle: i64,
    central_angle: i64,
    circle_origin: (i64, i64),
    method: Interpolation,
}

impl Interpolator {
    /// Start point, in pulses.
    pub closed spec fn spec_start(self) -> (int, int) {
        (self.start.0 as int, self.start.1 as int)
    }

    /// End point, in pulses.
    pub closed spec fn spec_end(self) -> (int, int) {
        (self.end.0 as int, self.end.1 as int)
    }

    /// Length of the path in unit steps.
    pub closed spec fn spec_len(self) -> int {
        self.interpolation_len as int
    }

    /// The interpolation method the segment was built with.
    pub closed spec fn spec_method(self) -> Interpolation {
        self.method
    }

    /// Radius of the circular path, in pulses.
    pub closed spec fn spec_radius(self) -> int {
        self.radius as int
    }

    /// Angle of the start point around the circle's center.
    pub closed spec fn spec_start_angle(self) -> int {
        self.start_angle as int
    }

    /// Swept angle of the circular path.
    pub closed spec fn spec_central_angle(self) -> int {
        self.central_angle as int
    }

    /// Center of the circular path, in pulses.
    pub closed spec fn spec_origin(self) -> (int, int) {
        (self.circle_origin.0 as int, self.circle_origin.1 as int)
    }

    /// The construction invariant: every derived field is determined
    /// by the endpoints and the method.
    pub open spec fn wf(self) -> bool {
        match self.spec_method() {
            Interpolation::Linear => self.spec_len() == chebyshev_s(
                self.spec_start(),
                self.spec_end(),
            ),
            Interpolation::NoInterpolation => self.spec_len() == 1,
            Interpolation::Circular(i, j, dir) => {
                let sx = -(i as int);
                let sy = -(j as int);
                let ex = self.spec_end().0 - self.spec_origin().0;
                let ey = self.spec_end().1 - self.spec_origin().1;
                let sa = spec_atan2_bam(sy, sx);
                let ea = spec_atan2_bam(ey, ex);
                let diff = if sa >= ea { sa - ea } else { ea - sa };
                let swept = if dir is Clockwise { diff } else { TURN - diff };
                let central = if swept == 0 { TURN as int } else { swept };
                &&& self.spec_origin() == (
                    self.spec_start().0 + i,
                    self.spec_start().1 + j,
                )
                &&& self.spec_radius() * self.spec_radius() <= i * i + j * j
                &&& i * i + j * j < (self.spec_radius() + 1) * (self.spec_radius() + 1)
                &&& 0 <= self.spec_radius() <= 0x8_0000_0000
                &&& self.spec_start_angle() == sa
                &&& self.spec_central_angle() == central
                &&& 1 <= self.spec_central_angle() <= TURN
                &&& self.spec_len() == clamp_s(
                    rdiv_s(
                        self.spec_radius() * central * (TWO_PI_SCALED as int),
                        0x4000_0000_0000_0000,
                    ),
                    1,
                    0xFFFF_FFFF,
                )
            },
        }
    }

    /// The parametric point of a linear segment at step `idx`: linear
    /// interpolation toward the end by the fraction `idx / len`,
    /// floored, clamped into the pulse range.
    pub open spec fn spec_linear_at(self, idx: int) -> (int, int) {
        let len = self.spec_len();
        if len == 0 {
            self.spec_end()
        } else {
            let dx = self.spec_end().0 - self.spec_start().0;
            let dy = self.spec_end().1 - self.spec_start().1;
            (
                clamp_s(self.spec_start().0 + fdiv_s(dx * idx, len), i32::MIN as int, i32::MAX as int),
                clamp_s(self.spec_start().1 + fdiv_s(dy * idx, len), i32::MIN as int, i32::MAX as int),
            )
        }
    }

    /// The parametric point of a circular segment at step `idx`: the
    /// start angle advanced by the fraction `idx / len` of the swept
    /// angle, in the arc's direction, reprojected onto the circle and
    /// rounded to the nearest pulse.
    pub open spec fn spec_circular_at(self, idx: int, dir: CircularInterpolationDir) -> (int, int) {
        let off = rdiv_s(idx * self.spec_central_angle(), self.spec_len());
        let ang = if dir is Clockwise {
            self.spec_start_angle() - off
        } else {
            self.spec_start_angle() + off
        };
        let cs = spec_sincos(ang);
        (
            clamp_s(
                self.spec_origin().0 + rdiv_s(self.spec_radius() * cs.0, SCALE as int),
                i32::MIN as int,
                i32::MAX as int,
            ),
            clamp_s(
                self.spec_origin().1 + rdiv_s(self.spec_radius() * cs.1, SCALE as int),
                i32::MIN as int,
                i32::MAX as int,
            ),
        )
    }

    /// The parametric point at step `idx`, per the segment's method.
    pub open spec fn spec_at(self, idx: int) -> (int, int) {
        match self.spec_method() {
            Interpolation::Linear => self.spec_linear_at(idx),
            Interpolation::Circular(i, j, dir) => self.spec_circular_at(idx, dir),
            Interpolation::NoInterpolation => self.spec_end(),
        }
    }

    /// Builds the geometry for one segment from its endpoints and
    /// interpolation method.  Degenerate circular parameters (zero
    /// sweep, zero radius) are normalized to a full revolution or a
    /// length of one step, never to a zero-length circular path.
    pub fn new(start: (i32, i32), end: (i32, i32), method: Interpolation) -> (r: Interpolator)
        ensures
            r.wf(),
            r.spec_start() == (start.0 as int, start.1 as int),
            r.spec_end() == (end.0 as int, end.1 as int),
            r.spec_method() == method,
            1 <= r.spec_len() <= 0xFFFF_FFFF || (method is Linear && r.spec_len()
                == chebyshev_s((start.0 as int, start.1 as int), (end.0 as int, end.1 as int))),
    {
        match method {
            Interpolation::Linear => Self::setup_linear_interpolation(start, end, method),
            Interpolation::Circular(_, _, _) => Self::setup_circular_interpolation(start, end, method),
            Interpolation::NoInterpolation => Self::setup_no_interpolation(start, end),
        }
    }

    /// Length of the path in unit steps, saturated to `u32`.
    pub fn get_interpolation_len(&self) -> (r: u32)
        ensures
            r == clamp_s(self.spec_len(), 0, 0xFFFF_FFFF),
    {
        if self.interpolation_len > 0xFFFF_FFFF {
            0xFFFF_FFFF
        } else {
            self.interpolation_len as u32
        }
    }

    /// The parametric point of the path at step `idx`.
    pub fn get_interpolation_at(&self, idx: u32) -> (r: (i32, i32))
        requires
            self.wf(),
        ensures
            (r.0 as int, r.1 as int) == self.spec_at(idx as int),
    {
        match self.method {
            Interpolation::Linear => self.calc_interpolation_linear(idx),
            Interpolation::Circular(i, j, dir) => self.calc_interpolation_circular(idx, dir),
            Interpolation::NoInterpolation => self.calc_interpolation_none(),
        }
    }

    /// The interpolation method the segment was built with.
    pub fn interpolation_method(&self) -> (r: Interpolation)
        ensures
            r == self.spec_method(),
    {
        self.method
    }

    fn calc_interpolation_none(&self) -> (r: (i32, i32))
        ensures
            (r.0 as int, r.1 as int) == self.spec_end(),
    {
        (self.end.0, self.end.1)
    }

    fn calc_interpolation_linear(&self, idx: u32) -> (r: (i32, i32))
        requires
            self.spec_method() is Linear,
        ensures
            (r.0 as int, r.1 as int) == self.spec_linear_at(idx as int),
    {
        if self.interpolation_len == 0 {
            return (self.end.0, self.end.1);
        }
        let len = self.interpolation_len as i128;
        let dx = self.end.0 as i128 - self.start.0 as i128;
        let dy = self.end.1 as i128 - self.start.1 as i128;
        proof {
            lemma_mul_bound(dx as int, idx as int, 0x1_0000_0000, 0x1_0000_0000);
            lemma_mul_bound(dy as int, idx as int, 0x1_0000_0000, 0x1_0000_0000);
        }
        let ox = self.start.0 as i128 + fdiv(dx * idx as i128, len);
        let oy = self.start.1 as i128 + fdiv(dy * idx as i128, len);
        (clamp_i32(ox), clamp_i32(oy))
    }

    fn calc_interpolation_circular(&self, idx: u32, dir: CircularInterpolationDir) -> (r: (i32, i32))
        requires
            self.wf(),
            self.spec_method() matches Interpolation::Circular(_, _, d) && d == dir,
        ensures
            (r.0 as int, r.1 as int) == self.spec_circular_at(idx as int, dir),
    {
        let central = self.central_angle as i128;
        let len = self.interpolation_len as i128;
        proof {
            lemma_mul_bound(idx as int, central as int, 0x1_0000_0000, 0x1_0000_0000);
        }
        let off = rdiv(idx as i128 * central, len);
        let ang = match dir {
            CircularInterpolationDir::Clockwise => self.start_angle as i128 - off,
            CircularInterpolationDir::CounterClockwise => self.start_angle as i128 + off,
        };
        let cs = sincos(ang);
        let radius = self.radius as i128;
        proof {
            lemma_mul_bound(radius as int, cs.0 as int, 0x8_0000_0000, 0x4000_0000);
            lemma_mul_bound(radius as int, cs.1 as int, 0x8_0000_0000, 0x4000_0000);
        }
        let px = self.circle_origin.0 as i128 + rdiv(radius * cs.0 as i128, SCALE as i128);
        let py = self.circle_origin.1 as i128 + rdiv(radius * cs.1 as i128, SCALE as i128);
        (clamp_i32(px), clamp_i32(py))
    }

    fn setup_linear_interpolation(start: (i32, i32), end: (i32, i32), method: Interpolation) -> (r:
        Interpolator)
        requires
            method is Linear,
        ensures
            r.wf(),
            r.spec_start() == (start.0 as int, start.1 as int),
            r.spec_end() == (end.0 as int, end.1 as int),
            r.spec_method() == method,
            r.spec_len() == chebyshev_s((start.0 as int, start.1 as int), (end.0 as int, end.1 as int)),
    {
        let dx = start.0 as i64 - end.0 as i64;
        let dy = start.1 as i64 - end.1 as i64;
        let adx = if dx < 0 { -dx } else { dx };
        let ady = if dy < 0 { -dy } else { dy };
        let interpolation_len = if adx > ady { adx as u64 } else { ady as u64 };
        Interpolator {
            start,
            end,
            interpolation_len,
            radius: 0,
            start_angle: 0,
            central_angle: 0,
            circle_origin: (0, 0),
            method,
        }
    }

    fn setup_circular_interpolation(start: (i32, i32), end: (i32, i32), method: Interpolation) -> (r:
        Interpolator)
        requires
            method is Circular,
        ensures
            r.wf(),
            r.spec_start() == (start.0 as int, start.1 as int),
            r.spec_end() == (end.0 as int, end.1 as int),
            r.spec_method() == method,
            1 <= r.spec_len() <= 0xFFFF_FFFF,
    {
        let (i, j, dir) = match method {
            Interpolation::Circular(i, j, dir) => (i, j, dir),
            _ => (0, 0, CircularInterpolationDir::Clockwise),
        };
        let origin_x = start.0 as i64 + i as i64;
        let origin_y = start.1 as i64 + j as i64;
        let sdx = -(i as i64);
        let sdy = -(j as i64);
        let edx = end.0 as i64 - origin_x;
        let edy = end.1 as i64 - origin_y;
        proof {
            assert(0 <= sdx as i128 * sdx as i128 <= 0x1_0000_0000_0000_0000
                && 0 <= sdy as i128 * sdy as i128 <= 0x1_0000_0000_0000_0000) by (nonlinear_arith)
                requires
                    -0x1_0000_0000 <= sdx as i128 <= 0x1_0000_0000,
                    -0x1_0000_0000 <= sdy as i128 <= 0x1_0000_0000,
            ;
        }
        let sq = sdx as i128 * sdx as i128 + sdy as i128 * sdy as i128;
        let rr = isqrt(sq as u128);
        proof {
            assert(rr <= 0x8_0000_0000) by (nonlinear_arith)
                requires
                    rr * rr <= 0x2_0000_0000_0000_0000,
                    0 <= rr,
            ;
            assert(sdx as int * sdx as int == i as int * i as int && sdy as int * sdy as int
                == j as int * j as int) by (nonlinear_arith)
                requires
                    sdx as int == -(i as int),
                    sdy as int == -(j as int),
            ;
        }
        let radius = rr as u64;
        let start_angle = atan2_bam(sdy, sdx);
        let end_angle = atan2_bam(edy, edx);
        let diff = if start_angle >= end_angle {
            start_angle - end_angle
        } else {
            end_angle - start_angle
        };
        let swept = match dir {
            CircularInterpolationDir::Clockwise => diff,
            CircularInterpolationDir::CounterClockwise => TURN - diff,
        };
        let central_angle = if swept == 0 { TURN } else { swept };
        proof {
            lemma_mul_bound(radius as int, central_angle as int, 0x8_0000_0000, 0x1_0000_0000);
            lemma_mul_bound(
                radius as int * central_angle as int,
                TWO_PI_SCALED as int,
                (0x8_0000_0000 * 0x1_0000_0000) as int,
                0x2_0000_0000,
            );
        }
        let scaled = rdiv(
            radius as i128 * central_angle as i128 * (TWO_PI_SCALED as i128),
            0x4000_0000_0000_0000,
        );
        let interpolation_len = if scaled < 1 {
            1u64
        } else if scaled > 0xFFFF_FFFF {
            0xFFFF_FFFFu64
        } else {
            scaled as u64
        };
        Interpolator {
            start,
            end,
            interpolation_len,
            radius,
            start_angle,
            central_angle,
            circle_origin: (origin_x, origin_y),
            method,
        }
    }

    fn setup_no_interpolation(start: (i32, i32), end: (i32, i32)) -> (r: Interpolator)
        ensures
            r.wf(),
            r.spec_start() == (start.0 as int, start.1 as int),
            r.spec_end() == (end.0 as int, end.1 as int),
            r.spec_method() == Interpolation::NoInterpolation,
            r.spec_len() == 1,
    {
        Interpolator {
            start,
            end,
            interpolation_len: 1,
            radius: 0,
            start_angle: 0,
            central_angle: 0,
            circle_origin: (0, 0),
            method: Interpolation::NoInterpolation,
        }
    }
}

/// Law: a point segment interpolates to its end point at every step
/// index, including zero.
pub proof fn lemma_point_at_is_end(ip: Interpolator, idx: int)
    requires
        ip.spec_method() is NoInterpolation,
    ensures
        ip.spec_at(idx) == ip.spec_end(),
{
}

/// Law: a well-formed linear segment's length is the Chebyshev
/// distance of its endpoint delta: `max(|dx|, |dy|)`.
pub proof fn lemma_linear_length_is_chebyshev(ip: Interpolator)
    requires
        ip.wf(),
        ip.spec_method() is Linear,
    ensures
        ip.spec_len() == chebyshev_s(ip.spec_start(), ip.spec_end()),
{
}

/// Law: every interpolated point of a well-formed circular segment
/// lies within the circle's bounding box around its center, give or
/// take one pulse of rounding, saturated to the pulse range; the path
/// can never leave the circle it reprojects onto.
pub proof fn lemma_circular_at_stays_near_circle(ip: Interpolator, idx: int,
    dir: CircularInterpolationDir)
    requires
        ip.wf(),
        ip.spec_method() matches Interpolation::Circular(_, _, d) && d == dir,
    ensures
        ({
            let p = ip.spec_circular_at(idx, dir);
            let r = ip.spec_radius();
            &&& clamp_s(ip.spec_origin().0 - r - 1, i32::MIN as int, i32::MAX as int) <= p.0
                <= clamp_s(ip.spec_origin().0 + r + 1, i32::MIN as int, i32::MAX as int)
            &&& clamp_s(ip.spec_origin().1 - r - 1, i32::MIN as int, i32::MAX as int) <= p.1
                <= clamp_s(ip.spec_origin().1 + r + 1, i32::MIN as int, i32::MAX as int)
        }),
{
    let off = rdiv_s(idx * ip.spec_central_angle(), ip.spec_len());
    let ang = if dir is Clockwise {
        ip.spec_start_angle() - off
    } else {
        ip.spec_start_angle() + off
    };
    let cs = spec_sincos(ang);
    let r = ip.spec_radius();
    assert(-(SCALE as int) <= cs.0 <= SCALE as int && -(SCALE as int) <= cs.1 <= SCALE as int);
    assert(-(r * SCALE) <= r * cs.0 <= r * SCALE && -(r * SCALE) <= r * cs.1 <= r * SCALE)
        by (nonlinear_arith)
        requires
            0 <= r,
            -(SCALE as int) <= cs.0 <= SCALE as int,
            -(SCALE as int) <= cs.1 <= SCALE as int,
    ;
    crate::trig::lemma_rdiv_scaled_bound(r * cs.0, SCALE as int, r);
    crate::trig::lemma_rdiv_scaled_bound(r * cs.1, SCALE as int, r);
}

/// A product of bounded factors is bounded.
pub(crate) proof fn lemma_mul_bound(a: int, b: int, ba: int, bb: int)
    requires
        -ba <= a <= ba,
        -bb <= b <= bb,
        0 <= ba,
        0 <= bb,
    ensures
        -(ba * bb) <= a * b <= ba * bb,
{
    assert(-(ba * bb) <= a * b <= ba * bb) by (nonlinear_arith)
        requires
            -ba <= a <= ba,
            -bb <= b <= bb,
            0 <= ba,
            0 <= bb,
    ;
}

/// Saturates a wide intermediate value into the pulse range.
pub(crate) fn clamp_i32(v: i128) -> (r: i32)
    ensures
        r as int == clamp_s(v as int, i32::MIN as int, i32::MAX as int),
{
    if v < i32::MIN as i128 {
        i32::MIN
    } else if v > i32::MAX as i128 {
        i32::MAX
    } else {
        v as i32
    }
}

} // verus!

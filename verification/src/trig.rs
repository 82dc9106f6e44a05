//! Fixed-point arithmetic for the circular path geometry.
//!
//! Angles are "binary angular measure": a full turn is `TURN == 1 << 32`
//! units, so reduction modulo a turn is exact integer arithmetic.  Sine
//! and cosine are computed by a CORDIC iteration scaled by `SCALE ==
//! 1 << 30`, and the arc tangent by the same iteration in vectoring
//! mode.  Every routine is specified exactly by the spec functions that
//! mirror it, so two calls on the same arguments provably agree.

use vstd::prelude::*;

verus! {

/// One full turn in binary angular measure.
pub const TURN: i64 = 4294967296;

/// Half a turn (the angle pi).
pub const HALF_TURN: i64 = 2147483648;

/// A quarter turn (the angle pi/2).
pub const QUARTER_TURN: i64 = 1073741824;

/// Fixed-point scale of sine and cosine values.
pub const SCALE: i64 = 1073741824;

/// Two pi in fixed point with scale `SCALE`.
pub const TWO_PI_SCALED: i64 = 6746518852;

/// Inverse of the CORDIC gain, scaled by `SCALE`.
pub const CORDIC_KINV: i128 = 652032874;

/// Number of CORDIC iterations.
pub const CORDIC_STEPS: u32 = 30;

/// Quotient of `v` by positive `p`, truncated toward zero.
pub open spec fn qdiv_s(v: int, p: int) -> int {
    if v >= 0 {
        v / p
    } else {
        -((-v) / p)
    }
}

/// Quotient of `v` by positive `p`, rounded toward negative infinity.
pub open spec fn fdiv_s(v: int, p: int) -> int {
    if v >= 0 {
        v / p
    } else {
        -(((-v) + p - 1) / p)
    }
}

/// Quotient of `v` by positive `p`, rounded to the nearest integer,
/// ties away from zero for even `p`.
pub open spec fn rdiv_s(v: int, p: int) -> int {
    if v >= 0 {
        (v + p / 2) / p
    } else {
        -(((-v) + p / 2) / p)
    }
}

/// `v` reduced modulo positive `p` into `[0, p)`.
pub open spec fn qmod_s(v: int, p: int) -> int {
    if v >= 0 {
        v % p
    } else if (-v) % p == 0 {
        0
    } else {
        p - ((-v) % p)
    }
}

/// Truncated division of `v` by `p`.
pub fn qdiv(v: i128, p: i128) -> (r: i128)
    requires
        1 <= p,
        -0x4000_0000_0000_0000_0000_0000_0000_0000 < v,
    ensures
        r == qdiv_s(v as int, p as int),
        v >= 0 ==> 0 <= r <= v,
        v < 0 ==> v <= r <= 0,
    {
    proof {
        if v >= 0 {
            vstd::arithmetic::div_mod::lemma_div_nonincreasing(v as int, p as int);
            vstd::arithmetic::div_mod::lemma_div_pos_is_pos(v as int, p as int);
        } else {
            vstd::arithmetic::div_mod::lemma_div_nonincreasing(-(v as int), p as int);
            vstd::arithmetic::div_mod::lemma_div_pos_is_pos(-(v as int), p as int);
        }
    }
    if v >= 0 {
        v / p
    } else {
        -((-v) / p)
    }
}

/// Floor division of `v` by `p`.
pub fn fdiv(v: i128, p: i128) -> (r: i128)
    requires
        1 <= p < 0x1_0000_0000_0000_0000_0000_0000_0000_0000 - 1,
        -0x4000_0000_0000_0000_0000_0000_0000_0000 < v,
        (-v) + p < 0x8000_0000_0000_0000_0000_0000_0000_0000,
    ensures
        r == fdiv_s(v as int, p as int),
        v >= 0 ==> 0 <= r <= v,
        v < 0 ==> v <= r <= 0,
    {
    proof {
        if v >= 0 {
            vstd::arithmetic::div_mod::lemma_div_nonincreasing(v as int, p as int);
            vstd::arithmetic::div_mod::lemma_div_pos_is_pos(v as int, p as int);
        } else {
            vstd::arithmetic::div_mod::lemma_div_pos_is_pos((-(v as int)) + p - 1, p as int);
            assert(((-(v as int)) + p - 1) / (p as int) <= -(v as int)) by (nonlinear_arith)
                requires
                    1 <= p,
                    v < 0,
            ;
        }
    }
    if v >= 0 {
        v / p
    } else {
        -((-v + p - 1) / p)
    }
}

/// Rounding division of `v` by `p`.
pub fn rdiv(v: i128, p: i128) -> (r: i128)
    requires
        1 <= p,
        -0x4000_0000_0000_0000_0000_0000_0000_0000 < v < 0x4000_0000_0000_0000_0000_0000_0000_0000,
        p < 0x4000_0000_0000_0000_0000_0000_0000_0000,
    ensures
        r == rdiv_s(v as int, p as int),
        v >= 0 ==> 0 <= r <= v + 1,
        v < 0 ==> v - 1 <= r <= 0,
    {
    proof {
        if v >= 0 {
            vstd::arithmetic::div_mod::lemma_div_pos_is_pos((v as int) + (p as int) / 2, p as int);
            assert(((v as int) + (p as int) / 2) / (p as int) <= v + 1) by (nonlinear_arith)
                requires
                    1 <= p,
                    0 <= v,
                    0 <= (p as int) / 2 <= (p as int) - 1,
            ;
        } else {
            vstd::arithmetic::div_mod::lemma_div_pos_is_pos((-(v as int)) + (p as int) / 2, p as int);
            assert(((-(v as int)) + (p as int) / 2) / (p as int) <= -(v as int) + 1) by (nonlinear_arith)
                requires
                    1 <= p,
                    v < 0,
                    0 <= (p as int) / 2 <= (p as int) - 1,
            ;
        }
    }
    if v >= 0 {
        (v + p / 2) / p
    } else {
        -((-v + p / 2) / p)
    }
}

/// `v` reduced modulo `p` into `[0, p)`.
pub fn qmod(v: i128, p: i128) -> (r: i128)
    requires
        1 <= p,
        -0x4000_0000_0000_0000_0000_0000_0000_0000 < v,
    ensures
        r == qmod_s(v as int, p as int),
        0 <= r < p,
    {
    if v >= 0 {
        v % p
    } else {
        let m = (-v) % p;
        if m == 0 {
            0
        } else {
            p - m
        }
    }
}

/// `v` clamped into `[lo, hi]`.
pub open spec fn clamp_s(v: int, lo: int, hi: int) -> int {
    if v < lo {
        lo
    } else if v > hi {
        hi
    } else {
        v
    }
}

/// The arc tangent of `2^-k` in binary angular measure, rounded to the
/// nearest unit; the CORDIC iteration consumes entries `0` to `29`.
pub open spec fn atan_entry(k: int) -> int {
    if k == 0 { 536870912 }
    else if k == 1 { 316933406 }
    else if k == 2 { 167458907 }
    else if k == 3 { 85004756 }
    else if k == 4 { 42667331 }
    else if k == 5 { 21354465 }
    else if k == 6 { 10679838 }
    else if k == 7 { 5340245 }
    else if k == 8 { 2670163 }
    else if k == 9 { 1335087 }
    else if k == 10 { 667544 }
    else if k == 11 { 333772 }
    else if k == 12 { 166886 }
    else if k == 13 { 83443 }
    else if k == 14 { 41722 }
    else if k == 15 { 20861 }
    else if k == 16 { 10430 }
    else if k == 17 { 5215 }
    else if k == 18 { 2608 }
    else if k == 19 { 1304 }
    else if k == 20 { 652 }
    else if k == 21 { 326 }
    else if k == 22 { 163 }
    else if k == 23 { 81 }
    else if k == 24 { 41 }
    else if k == 25 { 20 }
    else if k == 26 { 10 }
    else if k == 27 { 5 }
    else if k == 28 { 3 }
    else if k == 29 { 1 }
    else { 0 }
}

/// Table lookup for `atan_entry`.
fn atan_entry_x(k: u32) -> (r: i128)
    requires
        k < 30,
    ensures
        r == atan_entry(k as int),
        0 <= r <= 0x2000_0000,
    {
    if k == 0 { 536870912 }
    else if k == 1 { 316933406 }
    else if k == 2 { 167458907 }
    else if k == 3 { 85004756 }
    else if k == 4 { 42667331 }
    else if k == 5 { 21354465 }
    else if k == 6 { 10679838 }
    else if k == 7 { 5340245 }
    else if k == 8 { 2670163 }
    else if k == 9 { 1335087 }
    else if k == 10 { 667544 }
    else if k == 11 { 333772 }
    else if k == 12 { 166886 }
    else if k == 13 { 83443 }
    else if k == 14 { 41722 }
    else if k == 15 { 20861 }
    else if k == 16 { 10430 }
    else if k == 17 { 5215 }
    else if k == 18 { 2608 }
    else if k == 19 { 1304 }
    else if k == 20 { 652 }
    else if k == 21 { 326 }
    else if k == 22 { 163 }
    else if k == 23 { 81 }
    else if k == 24 { 41 }
    else if k == 25 { 20 }
    else if k == 26 { 10 }
    else if k == 27 { 5 }
    else if k == 28 { 3 }
    else { 1 }
}

/// One CORDIC step in rotation mode: the residual angle `z` is driven
/// toward zero while the vector `(x, y)` turns with it.  `p == 2^k`.
pub open spec fn rot_step(x: int, y: int, z: int, p: int, k: int) -> (int, int, int) {
    if z >= 0 {
        (x - qdiv_s(y, p), y + qdiv_s(x, p), z - atan_entry(k))
    } else {
        (x + qdiv_s(y, p), y - qdiv_s(x, p), z + atan_entry(k))
    }
}

/// `n` CORDIC rotation steps starting at step `k` with `p == 2^k`.
pub open spec fn rot_iter(x: int, y: int, z: int, p: int, k: int, n: nat) -> (int, int, int)
    decreases n,
{
    if n == 0 {
        (x, y, z)
    } else {
        let s = rot_step(x, y, z, p, k);
        rot_iter(s.0, s.1, s.2, 2 * p, k + 1, (n - 1) as nat)
    }
}

/// One CORDIC step in vectoring mode: the vector `(x, y)` is driven
/// toward the positive x axis while `z` accumulates the angle.
pub open spec fn vec_step(x: int, y: int, z: int, p: int, k: int) -> (int, int, int) {
    if y >= 0 {
        (x + qdiv_s(y, p), y - qdiv_s(x, p), z + atan_entry(k))
    } else {
        (x - qdiv_s(y, p), y + qdiv_s(x, p), z - atan_entry(k))
    }
}

/// `n` CORDIC vectoring steps starting at step `k` with `p == 2^k`.
pub open spec fn vec_iter(x: int, y: int, z: int, p: int, k: int, n: nat) -> (int, int, int)
    decreases n,
{
    if n == 0 {
        (x, y, z)
    } else {
        let s = vec_step(x, y, z, p, k);
        vec_iter(s.0, s.1, s.2, 2 * p, k + 1, (n - 1) as nat)
    }
}

/// Doubles both coordinates until one reaches `2^40`; doubling both
/// preserves the direction of the vector exactly.
pub open spec fn norm_iter(x: int, y: int) -> (int, int)
    decreases 0x400_0000_0000 - x - y when 1 <= x + y && 0 <= x && 0 <= y
{
    if x >= 0x100_0000_0000 || y >= 0x100_0000_0000 {
        (x, y)
    } else {
        norm_iter(2 * x, 2 * y)
    }
}

/// Cosine and sine of an angle in `[0, QUARTER_TURN]`, scaled by
/// `SCALE`: the CORDIC rotation of `(SCALE / gain, 0)`, clamped into
/// `[-SCALE, SCALE]`.
pub open spec fn spec_rotate_quarter(theta: int) -> (int, int) {
    let s = rot_iter(CORDIC_KINV as int, 0, theta, 1, 0, CORDIC_STEPS as nat);
    (clamp_s(s.0, -(SCALE as int), SCALE as int), clamp_s(s.1, -(SCALE as int), SCALE as int))
}

/// The angle of the vector `(x, y)` with `x >= 1, y >= 0`, in binary
/// angular measure in `[0, QUARTER_TURN]`: CORDIC vectoring of the
/// renormalized vector, clamped.
pub open spec fn spec_axis_atan(x: int, y: int) -> int {
    let n = norm_iter(x, y);
    let s = vec_iter(n.0, n.1, 0, 1, 0, CORDIC_STEPS as nat);
    clamp_s(s.2, 0, QUARTER_TURN as int)
}

/// Full-circle arc tangent in binary angular measure, in
/// `(-HALF_TURN, HALF_TURN]`, with the same sign conventions as the
/// floating-point `atan2`.
pub open spec fn spec_atan2_bam(y: int, x: int) -> int {
    if x == 0 && y == 0 {
        0
    } else if x == 0 {
        if y > 0 { QUARTER_TURN as int } else { -(QUARTER_TURN as int) }
    } else if y == 0 {
        if x > 0 { 0 } else { HALF_TURN as int }
    } else if x > 0 && y > 0 {
        spec_axis_atan(x, y)
    } else if x > 0 && y < 0 {
        -spec_axis_atan(x, -y)
    } else if y > 0 {
        HALF_TURN - spec_axis_atan(-x, y)
    } else {
        -(HALF_TURN - spec_axis_atan(-x, -y))
    }
}

/// Cosine and sine, scaled by `SCALE`, of an arbitrary angle in binary
/// angular measure: reduction into one turn, then quadrant symmetry
/// over `spec_rotate_quarter`.
pub open spec fn spec_sincos(a: int) -> (int, int) {
    let m = qmod_s(a, TURN as int);
    let q = m / (QUARTER_TURN as int);
    let r = m % (QUARTER_TURN as int);
    let b = spec_rotate_quarter(r);
    if q == 0 {
        (b.0, b.1)
    } else if q == 1 {
        (-b.1, b.0)
    } else if q == 2 {
        (-b.0, -b.1)
    } else {
        (b.1, -b.0)
    }
}

/// Bounds are preserved by truncated division.
proof fn lemma_qdiv_bound(v: int, p: int, b: int)
    requires
        1 <= p,
        0 <= b,
        -b <= v <= b,
    ensures
        -b <= qdiv_s(v, p) <= b,
{
    if v >= 0 {
        vstd::arithmetic::div_mod::lemma_div_nonincreasing(v, p);
        vstd::arithmetic::div_mod::lemma_div_pos_is_pos(v, p);
    } else {
        vstd::arithmetic::div_mod::lemma_div_nonincreasing(-v, p);
        vstd::arithmetic::div_mod::lemma_div_pos_is_pos(-v, p);
    }
}

/// Executes the CORDIC rotation mode: cosine and sine of an angle in
/// the first quadrant, scaled by `SCALE`.
fn rotate_quarter(theta: i64) -> (r: (i64, i64))
    requires
        0 <= theta <= QUARTER_TURN,
    ensures
        (r.0 as int, r.1 as int) == spec_rotate_quarter(theta as int),
        -SCALE <= r.0 <= SCALE,
        -SCALE <= r.1 <= SCALE,
    {
    let mut x: i128 = CORDIC_KINV;
    let mut y: i128 = 0;
    let mut z: i128 = theta as i128;
    let mut p: i128 = 1;
    let mut k: u32 = 0;
    proof {
        vstd::arithmetic::power2::lemma2_to64();
    }
    while k < CORDIC_STEPS
        invariant
            0 <= theta <= QUARTER_TURN,
            k <= CORDIC_STEPS,
            p as nat == vstd::arithmetic::power2::pow2(k as nat),
            -(p * 0x8000_0000) <= x <= p * 0x8000_0000,
            -(p * 0x8000_0000) <= y <= p * 0x8000_0000,
            -(0x8000_0000 + (k as i128) * 0x2000_0000) <= z
                <= 0x8000_0000 + (k as i128) * 0x2000_0000,
            rot_iter(CORDIC_KINV as int, 0, theta as int, 1, 0, CORDIC_STEPS as nat)
                == rot_iter(x as int, y as int, z as int, p as int, k as int, (CORDIC_STEPS - k) as nat),
        decreases CORDIC_STEPS - k,
    {
        let t = atan_entry_x(k);
        proof {
            vstd::arithmetic::power2::lemma_pow2_pos(k as nat);
            vstd::arithmetic::power2::lemma_pow2_strictly_increases(k as nat, 30);
            vstd::arithmetic::power2::lemma2_to64();
            lemma_qdiv_bound(x as int, p as int, p * 0x8000_0000);
            lemma_qdiv_bound(y as int, p as int, p * 0x8000_0000);
        }
        let dx = qdiv(y, p);
        let dy = qdiv(x, p);
        if z >= 0 {
            x = x - dx;
            y = y + dy;
            z = z - t;
        } else {
            x = x + dx;
            y = y - dy;
            z = z + t;
        }
        p = 2 * p;
        k = k + 1;
        proof {
            vstd::arithmetic::power2::lemma_pow2_unfold(k as nat);
        }
    }
    proof {
        vstd::arithmetic::power2::lemma2_to64();
    }
    let cx = if x < -(SCALE as i128) {
        -(SCALE as i128)
    } else if x > SCALE as i128 {
        SCALE as i128
    } else {
        x
    };
    let cy = if y < -(SCALE as i128) {
        -(SCALE as i128)
    } else if y > SCALE as i128 {
        SCALE as i128
    } else {
        y
    };
    (cx as i64, cy as i64)
}

/// Executes the CORDIC vectoring mode: the angle of `(x, y)` with
/// `x >= 1`, `y >= 0`, in `[0, QUARTER_TURN]`.
fn axis_atan(x0: i64, y0: i64) -> (r: i64)
    requires
        1 <= x0 <= 0x40_0000_0000,
        0 <= y0 <= 0x40_0000_0000,
    ensures
        r == spec_axis_atan(x0 as int, y0 as int),
        0 <= r <= QUARTER_TURN,
    {
    let mut nx: i64 = x0;
    let mut ny: i64 = y0;
    while nx < 0x100_0000_0000 && ny < 0x100_0000_0000
        invariant
            1 <= x0,
            0 <= y0,
            1 <= nx + ny,
            0 <= nx <= 0x200_0000_0000,
            0 <= ny <= 0x200_0000_0000,
            norm_iter(x0 as int, y0 as int) == norm_iter(nx as int, ny as int),
        decreases 0x400_0000_0000 - nx - ny,
    {
        nx = 2 * nx;
        ny = 2 * ny;
    }
    let mut x: i128 = nx as i128;
    let mut y: i128 = ny as i128;
    let mut z: i128 = 0;
    let mut p: i128 = 1;
    let mut k: u32 = 0;
    proof {
        vstd::arithmetic::power2::lemma2_to64();
    }
    while k < CORDIC_STEPS
        invariant
            1 <= x0,
            0 <= y0,
            k <= CORDIC_STEPS,
            p as nat == vstd::arithmetic::power2::pow2(k as nat),
            -(p * 0x400_0000_0000) <= x <= p * 0x400_0000_0000,
            -(p * 0x400_0000_0000) <= y <= p * 0x400_0000_0000,
            -((k as i128) * 0x2000_0000) <= z <= (k as i128) * 0x2000_0000,
            vec_iter(norm_iter(x0 as int, y0 as int).0, norm_iter(x0 as int, y0 as int).1, 0, 1, 0, CORDIC_STEPS as nat)
                == vec_iter(x as int, y as int, z as int, p as int, k as int, (CORDIC_STEPS - k) as nat),
        decreases CORDIC_STEPS - k,
    {
        let t = atan_entry_x(k);
        proof {
            vstd::arithmetic::power2::lemma_pow2_pos(k as nat);
            vstd::arithmetic::power2::lemma_pow2_strictly_increases(k as nat, 30);
            vstd::arithmetic::power2::lemma2_to64();
            lemma_qdiv_bound(x as int, p as int, p * 0x400_0000_0000);
            lemma_qdiv_bound(y as int, p as int, p * 0x400_0000_0000);
        }
        let dx = qdiv(y, p);
        let dy = qdiv(x, p);
        if y >= 0 {
            x = x + dx;
            y = y - dy;
            z = z + t;
        } else {
            x = x - dx;
            y = y + dy;
            z = z - t;
        }
        p = 2 * p;
        k = k + 1;
        proof {
            vstd::arithmetic::power2::lemma_pow2_unfold(k as nat);
        }
    }
    let c = if z < 0 {
        0
    } else if z > QUARTER_TURN as i128 {
        QUARTER_TURN as i128
    } else {
        z
    };
    c as i64
}

/// Full-circle arc tangent of the vector `(x, y)` in binary angular
/// measure, in `(-HALF_TURN, HALF_TURN]`.
pub fn atan2_bam(y: i64, x: i64) -> (r: i64)
    requires
        -0x40_0000_0000 <= y <= 0x40_0000_0000,
        -0x40_0000_0000 <= x <= 0x40_0000_0000,
    ensures
        r == spec_atan2_bam(y as int, x as int),
        -HALF_TURN <= r <= HALF_TURN,
    {
    if x == 0 && y == 0 {
        0
    } else if x == 0 {
        if y > 0 {
            QUARTER_TURN
        } else {
            -QUARTER_TURN
        }
    } else if y == 0 {
        if x > 0 {
            0
        } else {
            HALF_TURN
        }
    } else if x > 0 && y > 0 {
        axis_atan(x, y)
    } else if x > 0 {
        -axis_atan(x, -y)
    } else if y > 0 {
        HALF_TURN - axis_atan(-x, y)
    } else {
        -(HALF_TURN - axis_atan(-x, -y))
    }
}

/// Cosine and sine of an arbitrary angle in binary angular measure,
/// scaled by `SCALE`.
pub fn sincos(a: i128) -> (r: (i64, i64))
    requires
        -0x4000_0000_0000_0000_0000_0000_0000_0000 < a,
    ensures
        (r.0 as int, r.1 as int) == spec_sincos(a as int),
        -SCALE <= r.0 <= SCALE,
        -SCALE <= r.1 <= SCALE,
    {
    let m = qmod(a, TURN as i128);
    let q = m / (QUARTER_TURN as i128);
    let r = m % (QUARTER_TURN as i128);
    let b = rotate_quarter(r as i64);
    if q == 0 {
        (b.0, b.1)
    } else if q == 1 {
        (-b.1, b.0)
    } else if q == 2 {
        (-b.0, -b.1)
    } else {
        (b.1, -b.0)
    }
}

/// The floor of the square root of `n`, as a specification value.
pub open spec fn sqrt_floor_s(n: int) -> int {
    choose|r: int| 0 <= r && #[trigger] (r * r) <= n && n < (r + 1) * (r + 1)
}

/// The floor square root is unique: any `r` in the right bracket is it.
pub proof fn lemma_sqrt_floor_unique(n: int, r: int)
    requires
        0 <= r,
        r * r <= n,
        n < (r + 1) * (r + 1),
    ensures
        sqrt_floor_s(n) == r,
{
    assert(0 <= r && #[trigger] (r * r) <= n && n < (r + 1) * (r + 1));
    assert(exists|x: int| 0 <= x && #[trigger] (x * x) <= n && n < (x + 1) * (x + 1));
    let c = sqrt_floor_s(n);
    assert(0 <= c && c * c <= n && n < (c + 1) * (c + 1));
    if c < r {
        assert((c + 1) * (c + 1) <= r * r) by (nonlinear_arith)
            requires
                0 <= c,
                c < r,
        ;
        assert(false);
    }
    if c > r {
        assert((r + 1) * (r + 1) <= c * c) by (nonlinear_arith)
            requires
                0 <= r,
                r < c,
        ;
        assert(false);
    }
}

/// A rounding division of a value within `b * p` lands within
/// `b + 1`.
pub proof fn lemma_rdiv_scaled_bound(v: int, p: int, b: int)
    requires
        1 <= p,
        0 <= b,
        -(b * p) <= v <= b * p,
    ensures
        -(b + 1) <= rdiv_s(v, p) <= b + 1,
{
    vstd::arithmetic::div_mod::lemma_div_multiples_vanish(b + 1, p);
    assert((p * (b + 1)) / p == b + 1);
    assert(p * (b + 1) == (b + 1) * p) by (nonlinear_arith);
    assert(0 <= p / 2 <= p - 1);
    if v >= 0 {
        assert(v + p / 2 <= (b + 1) * p) by (nonlinear_arith)
            requires
                1 <= p,
                0 <= v <= b * p,
                0 <= p / 2 <= p - 1,
        ;
        vstd::arithmetic::div_mod::lemma_div_is_ordered(v + p / 2, (b + 1) * p, p);
        vstd::arithmetic::div_mod::lemma_div_pos_is_pos(v + p / 2, p);
        assert((v + p / 2) / p <= b + 1);
        assert(rdiv_s(v, p) == (v + p / 2) / p);
    } else {
        assert((-v) + p / 2 <= (b + 1) * p) by (nonlinear_arith)
            requires
                1 <= p,
                0 <= -v <= b * p,
                0 <= p / 2 <= p - 1,
        ;
        vstd::arithmetic::div_mod::lemma_div_is_ordered((-v) + p / 2, (b + 1) * p, p);
        vstd::arithmetic::div_mod::lemma_div_pos_is_pos((-v) + p / 2, p);
        assert(((-v) + p / 2) / p <= b + 1);
        assert(rdiv_s(v, p) == -(((-v) + p / 2) / p));
    }
}

/// Integer square root: the greatest `r` with `r * r <= n`.
pub fn isqrt(n: u128) -> (r: u128)
    requires
        n < 0x1_0000_0000_0000_0000_0000_0000_0000_0000 - 1,
    ensures
        r * r <= n,
        n < (r + 1) * (r + 1),
        r < 0x1_0000_0000_0000_0000,
    {
    let mut lo: u128 = 0;
    let mut hi: u128 = 0x1_0000_0000_0000_0000;
    while hi - lo > 1
        invariant
            lo * lo <= n,
            n < hi * hi,
            lo < hi <= 0x1_0000_0000_0000_0000,
        decreases hi - lo,
    {
        let mid = lo + (hi - lo) / 2;
        assert(mid < 0x1_0000_0000_0000_0000);
        assert(mid * mid < 0xffff_ffff_ffff_ffff_ffff_ffff_ffff_ffff) by (nonlinear_arith)
            requires
                mid < 0x1_0000_0000_0000_0000,
        ;
        if mid * mid <= n {
            lo = mid;
        } else {
            hi = mid;
        }
    }
    lo
}

} // verus!

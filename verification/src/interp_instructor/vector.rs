//! Unit vectors in 2.14 fixed point, and measuring and moving along them.

use vstd::prelude::*;

use crate::numerics::div_i64_toward_zero;
use crate::numerics::div_toward_zero;
use crate::numerics::wrap_i32;
use crate::numerics::wrap_to_i32;
use crate::truetype_loader::F2dot14;

verus! {

/// A direction in the plane. Its components are 2.14 numbers between -1.0
/// and 1.0.
#[derive(Clone, Copy, Debug, PartialEq, Eq, Structural)]
pub struct Vector {
    pub x: F2dot14,
    pub y: F2dot14,
}

/// The unit vector along the x axis.
pub open spec fn x_axis() -> Vector {
    Vector { x: F2dot14(0x4000), y: F2dot14(0) }
}

/// The greatest number whose square is not above `n`, found digit by digit
/// in base two.
pub open spec fn isqrt(n: nat) -> nat
    decreases n,
{
    if n == 0 {
        0
    } else {
        let r = 2 * isqrt(n / 4);
        if (r + 1) * (r + 1) <= n {
            r + 1
        } else {
            r
        }
    }
}

/// `isqrt(n)` is the integer square root of `n`.
pub proof fn lemma_isqrt(n: nat)
    ensures
        isqrt(n) * isqrt(n) <= n,
        n < (isqrt(n) + 1) * (isqrt(n) + 1),
    decreases n,
{
    if n > 0 {
        let m = n / 4;
        lemma_isqrt(m);
        let q = isqrt(m);
        let r = 2 * q;
        let s = isqrt(n);
        assert(r * r <= n) by (nonlinear_arith)
            requires
                r == 2 * q,
                q * q <= m,
                4 * m <= n,
        ;
        assert(n < (r + 2) * (r + 2)) by (nonlinear_arith)
            requires
                r == 2 * q,
                m < (q + 1) * (q + 1),
                n < 4 * m + 4,
        ;
        if (r + 1) * (r + 1) <= n {
            assert(s == r + 1);
            assert((s + 1) * (s + 1) == (r + 2) * (r + 2)) by (nonlinear_arith)
                requires
                    s == r + 1,
            ;
            assert(s * s == (r + 1) * (r + 1)) by (nonlinear_arith)
                requires
                    s == r + 1,
            ;
        } else {
            assert(s == r);
            assert(s * s == r * r) by (nonlinear_arith)
                requires
                    s == r,
            ;
            assert((s + 1) * (s + 1) == (r + 1) * (r + 1)) by (nonlinear_arith)
                requires
                    s == r,
            ;
        }
    } else {
        assert(isqrt(0) == 0);
        assert((0nat + 1) * (0nat + 1) == 1) by (nonlinear_arith);
    }
}

/// The integer square root of a number below `2^100`.
fn integer_sqrt(n: u128) -> (r: u128)
    requires
        n < 0x10_0000_0000_0000_0000_0000_0000,
    ensures
        r == isqrt(n as nat),
        r < 0x4_0000_0000_0000,
    decreases n,
{
    proof {
        lemma_isqrt(n as nat);
        let s = isqrt(n as nat);
        if s >= 0x4_0000_0000_0000 {
            assert(s * s >= 0x10_0000_0000_0000_0000_0000_0000) by (nonlinear_arith)
                requires
                    s >= 0x4_0000_0000_0000,
            ;
        }
    }
    if n == 0 {
        0
    } else {
        let r: u128 = 2 * integer_sqrt(n / 4);
        assert((r + 1) * (r + 1) <= 0x100_0000_0000_0000_0000_0000_0000int) by (nonlinear_arith)
            requires
                r < 0x8_0000_0000_0000,
        ;
        if (r + 1) * (r + 1) <= n {
            r + 1
        } else {
            r
        }
    }
}

/// `v` held between `-1.0` and `1.0` in 2.14 fixed point.
pub open spec fn clamp_unit(v: int) -> int {
    if v > 0x4000 {
        0x4000
    } else if v < -0x4000 {
        -0x4000
    } else {
        v
    }
}

/// The length of the vector `(x, y)` times `2^14`, rounded down.
pub open spec fn length_2dot14(x: int, y: int) -> int {
    isqrt(((x * x + y * y) * 0x1000_0000) as nat) as int
}

/// The unit vector in the direction of `(x, y)`: each component divided by
/// the length of the vector. The vector `(0, 0)` has no direction; it gives
/// the x axis.
pub open spec fn normalized(x: int, y: int) -> Vector {
    if x == 0 && y == 0 {
        x_axis()
    } else {
        Vector {
            x: F2dot14(clamp_unit(div_toward_zero(x * 0x1000_0000, length_2dot14(x, y))) as i16),
            y: F2dot14(clamp_unit(div_toward_zero(y * 0x1000_0000, length_2dot14(x, y))) as i16),
        }
    }
}

fn clamp_to_unit(v: i64) -> (r: i16)
    ensures
        r == clamp_unit(v as int),
{
    if v > 0x4000 {
        0x4000
    } else if v < -0x4000 {
        -0x4000
    } else {
        v as i16
    }
}

/// Scales the vector `(x, y)` to the length 1.0.
pub fn normalize(x: i32, y: i32) -> (v: Vector)
    ensures
        v == normalized(x as int, y as int),
{
    if x == 0 && y == 0 {
        return Vector { x: F2dot14(0x4000), y: F2dot14(0) };
    }
    let xx: i64 = x as i64;
    let yy: i64 = y as i64;
    assert(0 <= xx * xx <= 0x4000_0000_0000_0000) by (nonlinear_arith)
        requires
            -0x8000_0000 <= xx <= 0x7FFF_FFFF,
    ;
    assert(0 <= yy * yy <= 0x4000_0000_0000_0000) by (nonlinear_arith)
        requires
            -0x8000_0000 <= yy <= 0x7FFF_FFFF,
    ;
    assert(xx * xx + yy * yy >= 1) by (nonlinear_arith)
        requires
            xx != 0 || yy != 0,
    ;
    let squares: u128 = (xx * xx) as u128 + (yy * yy) as u128;
    let len: u128 = integer_sqrt(squares * 0x1000_0000);
    proof {
        let n = (squares * 0x1000_0000) as nat;
        lemma_isqrt(n);
        assert(isqrt(n) >= 1) by (nonlinear_arith)
            requires
                n >= 4,
                n < (isqrt(n) + 1) * (isqrt(n) + 1),
        ;
    }
    let l: i64 = len as i64;
    let vx = clamp_to_unit(div_i64_toward_zero(xx * 0x1000_0000, l));
    let vy = clamp_to_unit(div_i64_toward_zero(yy * 0x1000_0000, l));
    Vector { x: F2dot14(vx), y: F2dot14(vy) }
}

/// The length of `(dx, dy)` measured along `v`: the dot product, rounded to
/// the nearest raw unit, in 32 bits.
pub open spec fn dot(v: Vector, dx: int, dy: int) -> int {
    wrap_i32((dx * v.x.0 + dy * v.y.0 + 0x2000) / 0x4000)
}

/// Measures `(dx, dy)` along `v`.
pub fn dot_product(v: Vector, dx: i32, dy: i32) -> (r: i32)
    ensures
        r == dot(v, dx as int, dy as int),
{
    let a: i64 = dx as i64;
    let b: i64 = dy as i64;
    let vx: i64 = v.x.0 as i64;
    let vy: i64 = v.y.0 as i64;
    assert(-0x4000_0000_0000 <= a * vx <= 0x4000_0000_0000) by (nonlinear_arith)
        requires
            -0x8000_0000 <= a <= 0x7FFF_FFFF,
            -0x8000 <= vx <= 0x7FFF,
    ;
    assert(-0x4000_0000_0000 <= b * vy <= 0x4000_0000_0000) by (nonlinear_arith)
        requires
            -0x8000_0000 <= b <= 0x7FFF_FFFF,
            -0x8000 <= vy <= 0x7FFF,
    ;
    let sum: i64 = a * vx + b * vy + 0x2000;
    assert(sum >> 14 == sum / 0x4000) by (bit_vector);
    wrap_to_i32(sum >> 14)
}

/// The share of the freedom vector `fv` that lies along the projection
/// vector `pv`, as a 2.14 number. A share too close to zero to divide by
/// counts as 1.0.
pub open spec fn freedom_share(fv: Vector, pv: Vector) -> int {
    let share = (fv.x.0 * pv.x.0 + fv.y.0 * pv.y.0) / 0x4000;
    if -0x400 < share < 0x400 {
        0x4000
    } else {
        share
    }
}

pub(crate) fn share_of_freedom(fv: Vector, pv: Vector) -> (r: i32)
    ensures
        r == freedom_share(fv, pv),
        r != 0,
{
    let a: i64 = fv.x.0 as i64;
    let b: i64 = pv.x.0 as i64;
    let c: i64 = fv.y.0 as i64;
    let d: i64 = pv.y.0 as i64;
    assert(-0x4000_0000 <= a * b <= 0x4000_0000) by (nonlinear_arith)
        requires
            -0x8000 <= a <= 0x7FFF,
            -0x8000 <= b <= 0x7FFF,
    ;
    assert(-0x4000_0000 <= c * d <= 0x4000_0000) by (nonlinear_arith)
        requires
            -0x8000 <= c <= 0x7FFF,
            -0x8000 <= d <= 0x7FFF,
    ;
    let sum: i64 = a * b + c * d;
    assert(sum >> 14 == sum / 0x4000) by (bit_vector);
    let share: i64 = sum >> 14;
    if -0x400 < share && share < 0x400 {
        0x4000
    } else {
        share as i32
    }
}

/// How far a point moves along one axis when it is to move by `distance`
/// along the projection vector: `distance` times the component `f` of the
/// freedom vector, divided by the share of the two vectors.
pub open spec fn shift_along(distance: int, f: int, share: int) -> int {
    wrap_i32(div_toward_zero(distance * f, share))
}

pub(crate) fn shift_by(distance: i32, f: i16, share: i32) -> (r: i32)
    requires
        share != 0,
    ensures
        r == shift_along(distance as int, f as int, share as int),
{
    let a: i64 = distance as i64;
    let b: i64 = f as i64;
    assert(-0x4000_0000_0000 <= a * b <= 0x4000_0000_0000) by (nonlinear_arith)
        requires
            -0x8000_0000 <= a <= 0x7FFF_FFFF,
            -0x8000 <= b <= 0x7FFF,
    ;
    wrap_to_i32(div_i64_toward_zero(a * b, share as i64))
}

} // verus!

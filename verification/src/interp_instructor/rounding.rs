//! The round states of the graphics state and what they do to a distance.

use vstd::arithmetic::div_mod::lemma_fundamental_div_mod;
use vstd::arithmetic::div_mod::lemma_fundamental_div_mod_converse;
use vstd::prelude::*;

use crate::numerics::div_i64_toward_zero;
use crate::numerics::div_toward_zero;
use crate::numerics::wrap_i32;
use crate::numerics::wrap_to_i32;

verus! {

/// How distances are rounded.
#[derive(Clone, Copy, Debug, PartialEq, Eq, Structural)]
pub enum RoundState {
    /// To the nearest half pixel between two pixel borders.
    HalfGrid,
    /// To the nearest pixel border.
    Grid,
    /// To the nearest half pixel.
    DoubleGrid,
    /// Down to a pixel border.
    DownToGrid,
    /// Up to a pixel border.
    UpToGrid,
    /// Not at all.
    Off,
    /// To the values `phase + n * period`; a distance that lies `threshold`
    /// or more above one of them goes to the next.
    Super { period: i32, phase: i32, threshold: i32 },
}

/// The greatest multiple of `period` that is not above `v`.
pub open spec fn floor_to(v: int, period: int) -> int {
    period * (v / period)
}

/// The distance `d`, which is not negative, rounded as `state` says.
pub open spec fn round_up_from_zero(state: RoundState, d: int) -> int {
    match state {
        RoundState::HalfGrid => floor_to(d, 64) + 32,
        RoundState::Grid => floor_to(d + 32, 64),
        RoundState::DoubleGrid => floor_to(d + 16, 32),
        RoundState::DownToGrid => floor_to(d, 64),
        RoundState::UpToGrid => floor_to(d + 63, 64),
        RoundState::Off => d,
        RoundState::Super { period, phase, threshold } => {
            if period <= 0 {
                d
            } else if floor_to(d - phase + threshold, period as int) + phase < 0 {
                phase as int
            } else {
                floor_to(d - phase + threshold, period as int) + phase
            }
        },
    }
}

/// The distance `d` rounded as `state` says, in 32 bits. A negative distance
/// is rounded as its absolute value is, and stays negative.
pub open spec fn rounded(state: RoundState, d: int) -> int {
    if d >= 0 {
        wrap_i32(round_up_from_zero(state, d))
    } else {
        wrap_i32(-round_up_from_zero(state, -d))
    }
}

/// Divides towards minus infinity.
fn floor_div(a: i64, b: i64) -> (q: i64)
    requires
        b > 0,
        -0x4000_0000_0000_0000 <= a <= 0x4000_0000_0000_0000,
        b <= 0x4000_0000_0000_0000,
    ensures
        q == a / b,
{
    if a >= 0 {
        a / b
    } else {
        let n: i64 = -a;
        let up: i64 = (n + (b - 1)) / b;
        proof {
            let r = (n + (b - 1)) % (b as int);
            lemma_fundamental_div_mod(n + (b - 1), b as int);
            assert(a == (-up) * b + (b - 1 - r)) by (nonlinear_arith)
                requires
                    n + (b - 1) == b * up + r,
                    a == -n,
            ;
            lemma_fundamental_div_mod_converse(a as int, b as int, -up, b - 1 - r);
        }
        -up
    }
}

fn floor_multiple(v: i64, period: i64) -> (r: i64)
    requires
        0 < period <= 0x8000_0000,
        -0x4_0000_0000 <= v <= 0x4_0000_0000,
    ensures
        r == floor_to(v as int, period as int),
        -0x8_0000_0000 <= r <= 0x4_0000_0000,
{
    let q = floor_div(v, period);
    proof {
        lemma_fundamental_div_mod(v as int, period as int);
        assert(period * q <= v) by (nonlinear_arith)
            requires
                v == period * q + (v as int % period as int),
                0 <= (v as int % period as int),
        ;
        assert(period * q > v - period) by (nonlinear_arith)
            requires
                v == period * q + (v as int % period as int),
                (v as int % period as int) < period,
        ;
        assert(-0x8_0000_0000 <= period * q <= 0x4_0000_0000);
    }
    period * q
}

fn round_magnitude(state: RoundState, d: i64) -> (r: i64)
    requires
        0 <= d <= 0x8000_0000,
    ensures
        r == round_up_from_zero(state, d as int),
{
    match state {
        RoundState::HalfGrid => floor_multiple(d, 64) + 32,
        RoundState::Grid => floor_multiple(d + 32, 64),
        RoundState::DoubleGrid => floor_multiple(d + 16, 32),
        RoundState::DownToGrid => floor_multiple(d, 64),
        RoundState::UpToGrid => floor_multiple(d + 63, 64),
        RoundState::Off => d,
        RoundState::Super { period, phase, threshold } => {
            if period <= 0 {
                d
            } else {
                let v: i64 = floor_multiple(d - phase as i64 + threshold as i64, period as i64)
                    + phase as i64;
                if v < 0 {
                    phase as i64
                } else {
                    v
                }
            }
        },
    }
}

/// Rounds the distance `d` as `state` says.
pub fn round(state: RoundState, d: i32) -> (r: i32)
    ensures
        r == rounded(state, d as int),
{
    if d >= 0 {
        wrap_to_i32(round_magnitude(state, d as i64))
    } else {
        wrap_to_i32(-round_magnitude(state, -(d as i64)))
    }
}

/// The round state that the selector `n` describes, for a grid of pixels
/// `grid` raw units wide. Bits 6 and 7 of the selector choose the period
/// (half the grid, the grid, twice the grid), bits 4 and 5 the phase in
/// quarters of the period, bits 0 to 3 the threshold in eighths of the
/// period, counted from -4; threshold 0 stands for the period less one unit.
pub open spec fn super_round(n: u32, grid: i32) -> RoundState {
    let period: int = if (n / 64) % 4 == 0 {
        grid as int / 2
    } else if (n / 64) % 4 == 2 {
        grid as int * 2
    } else {
        grid as int
    };
    let phase: int = if (n / 16) % 4 == 0 {
        0
    } else if (n / 16) % 4 == 1 {
        period / 4
    } else if (n / 16) % 4 == 2 {
        period / 2
    } else {
        period * 3 / 4
    };
    let threshold: int = if n % 16 == 0 {
        period - 1
    } else {
        div_toward_zero((n % 16 - 4) * period, 8)
    };
    RoundState::Super { period: period as i32, phase: phase as i32, threshold: threshold as i32 }
}

/// Decodes the selector of a super round state.
pub fn decode_super_round(n: u32, grid: i32) -> (s: RoundState)
    requires
        0 < grid <= 64,
    ensures
        s == super_round(n, grid),
{
    let p: u32 = (n / 64) % 4;
    let period: i32 = if p == 0 {
        grid / 2
    } else if p == 2 {
        grid * 2
    } else {
        grid
    };
    let h: u32 = (n / 16) % 4;
    let phase: i32 = if h == 0 {
        0
    } else if h == 1 {
        period / 4
    } else if h == 2 {
        period / 2
    } else {
        period * 3 / 4
    };
    let t: u32 = n % 16;
    let threshold: i32 = if t == 0 {
        period - 1
    } else {
        let eighths: i64 = t as i64 - 4;
        let wide: i64 = period as i64;
        assert(-512 <= eighths * wide <= 1408) by (nonlinear_arith)
            requires
                -3 <= eighths <= 11,
                0 <= wide <= 128,
        ;
        let q: i64 = div_i64_toward_zero(eighths * wide, 8);
        assert(-512 <= q <= 1408) by {
            assert(-512 <= div_toward_zero(eighths * wide, 8) <= 1408);
        }
        q as i32
    };
    RoundState::Super { period, phase, threshold }
}

} // verus!

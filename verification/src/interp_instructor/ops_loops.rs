//! Instructions that work on several points: those that the loop counter
//! repeats, those that take a range, a contour or a zone, and the delta
//! exceptions.

use vstd::prelude::*;

use crate::interp_instructor::state::agrees;
use crate::interp_instructor::state::signed;
use crate::interp_instructor::state::Interp;
use crate::interp_instructor::state::InterpState;
use crate::interp_instructor::state::InterpView;
use crate::interp_instructor::state::Outcome;
use crate::interp_instructor::state::Zone;
use crate::interp_instructor::state::ZoneView;
use crate::interp_instructor::state::ON_CURVE;
use crate::interp_instructor::vector::share_of_freedom;
use crate::interp_instructor::vector::shift_by;
use crate::interp_instructor::vector::Vector;
use crate::interp_instructor::zone_ops::along;
use crate::interp_instructor::zone_ops::lay_along;
use crate::interp_instructor::zone_ops::measure;
use crate::interp_instructor::zone_ops::measure_along;
use crate::interp_instructor::zone_ops::plus;
use crate::interp_instructor::zone_ops::shift_x;
use crate::interp_instructor::zone_ops::shift_y;
use crate::interp_instructor::zone_ops::shifted;
use crate::interp_instructor::ScalerError;
use crate::numerics::div_i64_toward_zero;
use crate::numerics::div_toward_zero;
use crate::numerics::wrap_i32;
use crate::numerics::wrap_to_i32;
use crate::numerics::F26d6;

verus! {

/// The zone and the point that `SHP`, `SHC` and `SHZ` take the shift from:
/// reference point 1 in zone pointer 0 where the instruction code is odd,
/// reference point 2 in zone pointer 1 where it is even.
pub open spec fn shift_reference(s: InterpState, op: u8) -> (usize, usize) {
    if op % 2 == 1 {
        (s.zp0, s.rp1)
    } else {
        (s.zp1, s.rp2)
    }
}

/// How far the reference point of `op` has moved along the projection
/// vector since the start.
pub open spec fn reference_shift(m: InterpView, op: u8) -> int {
    let (z, p) = shift_reference(m.state, op);
    measure(m.state.project_vec, m.cur(z, p as int), m.org(z, p as int))
}

/// The machine after one of the instructions that the loop counter repeats
/// has dealt with the point `p`:
///
/// * `SHP` (`0x32`, `0x33`) and `SHPIX` (`0x38`) shift the point of zone
///   pointer 2 by `(a, b)`;
/// * `IP` (`0x39`) moves the point of zone pointer 2 so that its distance
///   from reference point 1 is to the new distance `b` of the reference
///   points what it was to their original distance `a`;
/// * `ALIGNRP` (`0x3C`) moves the point of zone pointer 1 until its distance
///   from reference point 0 is zero;
/// * `FLIPPT` (`0x80`) turns a point of zone pointer 0 that is on the curve
///   into one that is off it, and back.
///
/// A point that the zone does not have makes the glyph invalid.
#[verifier::opaque]
pub open spec fn each_point(m: InterpView, op: u8, p: int, a: int, b: int) -> Outcome {
    let s = m.state;
    if op == 0x32 || op == 0x33 || op == 0x38 {
        if !m.has_point(s.zp2, p) {
            Err(ScalerError::InvalidGlyph)
        } else {
            Ok(m.shift_point(s.zp2, p, a, b, true))
        }
    } else if op == 0x39 {
        if !m.has_point(s.zp2, p) || !m.has_point(s.zp0, s.rp1 as int) {
            Err(ScalerError::InvalidGlyph)
        } else {
            let before = measure(s.dual_prj_vec, m.org(s.zp2, p), m.org(s.zp0, s.rp1 as int));
            let now = measure(s.project_vec, m.cur(s.zp2, p), m.cur(s.zp0, s.rp1 as int));
            let wanted = if before == 0 {
                0
            } else if a == 0 {
                before
            } else {
                wrap_i32(div_toward_zero(before * b, a))
            };
            Ok(m.move_point(s.zp2, p, wrap_i32(wanted - now)))
        }
    } else if op == 0x3C {
        if !m.has_point(s.zp1, p) || !m.has_point(s.zp0, s.rp0 as int) {
            Err(ScalerError::InvalidGlyph)
        } else {
            let now = measure(s.project_vec, m.cur(s.zp1, p), m.cur(s.zp0, s.rp0 as int));
            Ok(m.move_point(s.zp1, p, wrap_i32(-now)))
        }
    } else {
        if !m.has_point(s.zp0, p) {
            Err(ScalerError::InvalidGlyph)
        } else {
            let zone = m.zone(s.zp0);
            Ok(
                m.with_zone(
                    s.zp0,
                    ZoneView { flags: zone.flags.update(p, zone.flags[p] ^ ON_CURVE), ..zone },
                ),
            )
        }
    }
}

/// The machine after `n` more points have been taken from the stack and
/// dealt with, and the loop counter set back to 1.
pub open spec fn repeat(m: InterpView, op: u8, a: int, b: int, n: nat) -> Outcome
    decreases n,
{
    if n == 0 {
        Ok(m.with_state(InterpState { loopv: 1, ..m.state }))
    } else if m.depth() < 1 {
        Err(ScalerError::StackUnderflow(m.pc))
    } else {
        match each_point(m.popped(1), op, m.top(0) as int, a, b) {
            Ok(after) => repeat(after, op, a, b, (n - 1) as nat),
            Err(e) => Err(e),
        }
    }
}

/// The two numbers that an instruction which the loop counter repeats
/// works out before it takes its points: the shift of `SHP`, the original
/// and the new distance of the reference points of `IP`. `None` where a
/// reference point is no point of its zone.
pub open spec fn loop_params(m: InterpView, op: u8) -> Option<(int, int)> {
    let s = m.state;
    if op == 0x32 || op == 0x33 {
        let (z, p) = shift_reference(s, op);
        if m.has_point(z, p as int) {
            Some((shift_x(m, reference_shift(m, op)), shift_y(m, reference_shift(m, op))))
        } else {
            None
        }
    } else if op == 0x39 {
        if m.has_point(s.zp0, s.rp1 as int) && m.has_point(s.zp1, s.rp2 as int) {
            Some(
                (
                    measure(
                        s.dual_prj_vec,
                        m.org(s.zp1, s.rp2 as int),
                        m.org(s.zp0, s.rp1 as int),
                    ),
                    measure(s.project_vec, m.cur(s.zp1, s.rp2 as int), m.cur(s.zp0, s.rp1 as int)),
                ),
            )
        } else {
            None
        }
    } else {
        Some((0, 0))
    }
}

/// The machine after an instruction that the loop counter repeats: it takes
/// as many points from the stack as the loop counter says. `SHPIX` takes the
/// distance of the shift before the points.
pub open spec fn loop_op(m: InterpView, op: u8) -> Outcome {
    let s = m.state;
    if op == 0x38 {
        if m.depth() < 1 {
            Err(ScalerError::StackUnderflow(m.pc))
        } else {
            repeat(
                m.popped(1),
                op,
                along(signed(m.top(0)), s.freedom_vec.x),
                along(signed(m.top(0)), s.freedom_vec.y),
                s.loopv as nat,
            )
        }
    } else {
        match loop_params(m, op) {
            Some((a, b)) => repeat(m, op, a, b, s.loopv as nat),
            None => Err(ScalerError::InvalidGlyph),
        }
    }
}

/// Whether `op` is an instruction that the loop counter repeats.
pub open spec fn is_loop_op(op: u8) -> bool {
    op == 0x32 || op == 0x33 || op == 0x38 || op == 0x39 || op == 0x3C || op == 0x80
}

/// The zone `zone` after its points from `first` up to, but without,
/// `until` have been shifted by `(dx, dy)`, all but the point `skip`.
pub open spec fn shift_range(
    zone: ZoneView,
    first: int,
    until: int,
    dx: int,
    dy: int,
    touch: bool,
    fv: Vector,
    skip: int,
) -> ZoneView
    decreases until - first,
{
    if until <= first {
        zone
    } else if until - 1 == skip {
        shift_range(zone, first, until - 1, dx, dy, touch, fv, skip)
    } else {
        shifted(
            shift_range(zone, first, until - 1, dx, dy, touch, fv, skip),
            until - 1,
            dx,
            dy,
            touch,
            fv,
        )
    }
}

/// The flags `flags` with the points from `first` up to, but without,
/// `until` set on the curve, or off it.
pub open spec fn flip_range(flags: Seq<u8>, first: int, until: int, on: bool) -> Seq<u8>
    decreases until - first,
{
    if until <= first {
        flags
    } else {
        flip_range(flags, first, until - 1, on).update(
            until - 1,
            if on {
                flags[until - 1] | ON_CURVE
            } else {
                flags[until - 1] & !ON_CURVE
            },
        )
    }
}

/// The first point of the contour `c` of a zone with the end points `ends`.
pub open spec fn contour_start(ends: Seq<u16>, c: int) -> int {
    if c == 0 {
        0
    } else {
        ends[c - 1] + 1
    }
}

/// The machine after an instruction that works on a range of points:
///
/// * `FLIPRGON` (`0x81`) and `FLIPRGOFF` (`0x82`) take the last, then the
///   first point of a range of zone pointer 0 and set all its points on the
///   curve, or off it;
/// * `SHC` (`0x34`, `0x35`) takes a contour of zone pointer 2 and shifts its
///   points as far as the reference point has moved;
/// * `SHZ` (`0x36`, `0x37`) takes a zone and shifts all its points so,
///   without touching them.
///
/// The reference point itself is not shifted. A point, a contour or a zone
/// that does not exist makes the glyph invalid.
pub open spec fn range_op(m: InterpView, op: u8) -> Outcome {
    let s = m.state;
    if op == 0x81 || op == 0x82 {
        if m.depth() < 2 {
            Err(ScalerError::StackUnderflow(m.pc))
        } else {
            let last = m.top(0) as int;
            let first = m.top(1) as int;
            let zone = m.zone(s.zp0);
            if !m.has_point(s.zp0, last) || !m.has_point(s.zp0, first) {
                Err(ScalerError::InvalidGlyph)
            } else {
                Ok(
                    m.popped(2).with_zone(
                        s.zp0,
                        ZoneView {
                            flags: flip_range(zone.flags, first, last + 1, op == 0x81),
                            ..zone
                        },
                    ),
                )
            }
        }
    } else if m.depth() < 1 {
        Err(ScalerError::StackUnderflow(m.pc))
    } else {
        let (z, p) = shift_reference(s, op);
        let d = reference_shift(m, op);
        if !m.has_point(z, p as int) {
            Err(ScalerError::InvalidGlyph)
        } else if op == 0x34 || op == 0x35 {
            let zone = m.zone(s.zp2);
            let c = m.top(0) as int;
            if c >= zone.ends.len() || zone.ends[c] >= zone.len() || contour_start(zone.ends, c)
                > zone.ends[c] {
                Err(ScalerError::InvalidGlyph)
            } else {
                Ok(
                    m.popped(1).with_zone(
                        s.zp2,
                        shift_range(
                            zone,
                            contour_start(zone.ends, c),
                            zone.ends[c] + 1,
                            shift_x(m, d),
                            shift_y(m, d),
                            true,
                            s.freedom_vec,
                            if z == s.zp2 {
                                p as int
                            } else {
                                -1
                            },
                        ),
                    ),
                )
            }
        } else {
            let target = m.top(0);
            if target > 1 {
                Err(ScalerError::InvalidGlyph)
            } else {
                Ok(
                    m.popped(1).with_zone(
                        target as usize,
                        shift_range(
                            m.zone(target as usize),
                            0,
                            m.zone(target as usize).len(),
                            shift_x(m, d),
                            shift_y(m, d),
                            false,
                            s.freedom_vec,
                            if z == target {
                                p as int
                            } else {
                                -1
                            },
                        ),
                    ),
                )
            }
        }
    }
}

/// Whether `op` is an instruction that works on a range of points.
pub open spec fn is_range_op(op: u8) -> bool {
    op == 0x81 || op == 0x82 || (0x34 <= op <= 0x37)
}

/// The length of one step of a delta exception: a pixel divided by two to
/// the power of the delta shift.
pub open spec fn delta_unit(s: InterpState) -> int {
    if s.delta_shift == 0 {
        64
    } else if s.delta_shift == 1 {
        32
    } else if s.delta_shift == 2 {
        16
    } else if s.delta_shift == 3 {
        8
    } else if s.delta_shift == 4 {
        4
    } else if s.delta_shift == 5 {
        2
    } else {
        1
    }
}

/// The distance that the exception `arg` asks for: its low four bits count
/// steps from -8 to 8 without 0.
pub open spec fn delta_amount(s: InterpState, arg: u32) -> int {
    let steps = arg % 16 - 8;
    if steps >= 0 {
        (steps + 1) * delta_unit(s)
    } else {
        steps * delta_unit(s)
    }
}

/// The size in pixels per em at which the exception `arg` of the
/// instruction `op` applies: bits 4 to 7 of `arg`, counted from the delta
/// base, and 16 or 32 more for the second and the third instruction of a
/// kind.
pub open spec fn delta_size(s: InterpState, op: u8, arg: u32) -> int {
    (arg / 16) % 16 + s.delta_base + (if op == 0x71 || op == 0x74 {
        16int
    } else if op == 0x72 || op == 0x75 {
        32int
    } else {
        0int
    })
}

/// Whether `op` is a delta exception for points, not for control values.
pub open spec fn is_point_delta(op: u8) -> bool {
    op == 0x5D || op == 0x71 || op == 0x72
}

/// The machine after one exception of a delta instruction: at the size of
/// the exception the point `target` of zone pointer 0 is moved, or the
/// control value `target` changed, by the distance of the exception. A point
/// or a control value that does not exist makes the glyph invalid.
#[verifier::opaque]
pub open spec fn each_delta(m: InterpView, op: u8, target: u32, arg: u32) -> Outcome {
    let s = m.state;
    let applies = m.ppem == delta_size(s, op, arg);
    if is_point_delta(op) {
        if !m.has_point(s.zp0, target as int) {
            Err(ScalerError::InvalidGlyph)
        } else if applies {
            Ok(m.move_point(s.zp0, target as int, delta_amount(s, arg)))
        } else {
            Ok(m)
        }
    } else {
        if target >= m.cv_table.len() {
            Err(ScalerError::InvalidGlyph)
        } else if applies {
            Ok(
                InterpView {
                    cv_table: m.cv_table.update(
                        target as int,
                        plus(m.cv_table[target as int], delta_amount(s, arg)),
                    ),
                    ..m
                },
            )
        } else {
            Ok(m)
        }
    }
}

/// The machine after `n` more exceptions have been taken from the stack,
/// each a target above an argument, and applied.
pub open spec fn deltas(m: InterpView, op: u8, n: nat) -> Outcome
    decreases n,
{
    if n == 0 {
        Ok(m)
    } else if m.depth() < 2 {
        Err(ScalerError::StackUnderflow(m.pc))
    } else {
        match each_delta(m.popped(2), op, m.top(0), m.top(1)) {
            Ok(after) => deltas(after, op, (n - 1) as nat),
            Err(e) => Err(e),
        }
    }
}

/// The machine after a delta instruction: `DELTAP1` to `DELTAP3` (`0x5D`,
/// `0x71`, `0x72`) for points, `DELTAC1` to `DELTAC3` (`0x73` to `0x75`) for
/// control values. It takes a count, then that many exceptions.
pub open spec fn delta_op(m: InterpView, op: u8) -> Outcome {
    if m.depth() < 1 {
        Err(ScalerError::StackUnderflow(m.pc))
    } else {
        deltas(m.popped(1), op, m.top(0) as nat)
    }
}

/// Whether `op` is a delta instruction.
pub open spec fn is_delta_op(op: u8) -> bool {
    op == 0x5D || (0x71 <= op <= 0x75)
}

fn unit_of_delta(s: &InterpState) -> (r: i32)
    ensures
        r == delta_unit(*s),
{
    if s.delta_shift == 0 {
        64
    } else if s.delta_shift == 1 {
        32
    } else if s.delta_shift == 2 {
        16
    } else if s.delta_shift == 3 {
        8
    } else if s.delta_shift == 4 {
        4
    } else if s.delta_shift == 5 {
        2
    } else {
        1
    }
}

fn amount_of_delta(s: &InterpState, arg: u32) -> (r: i32)
    ensures
        r == delta_amount(*s, arg),
        -512 <= r <= 512,
{
    let steps: i32 = (arg % 16) as i32 - 8;
    let unit = unit_of_delta(s);
    if steps >= 0 {
        assert(0 <= (steps + 1) * unit <= 512) by (nonlinear_arith)
            requires
                0 <= steps <= 7,
                1 <= unit <= 64,
        ;
        (steps + 1) * unit
    } else {
        assert(-512 <= steps * unit <= 0) by (nonlinear_arith)
            requires
                -8 <= steps <= -1,
                1 <= unit <= 64,
        ;
        steps * unit
    }
}

fn size_of_delta(s: &InterpState, op: u8, arg: u32) -> (r: u64)
    ensures
        r == delta_size(*s, op, arg),
{
    let range: u64 = if op == 0x71 || op == 0x74 {
        16
    } else if op == 0x72 || op == 0x75 {
        32
    } else {
        0
    };
    ((arg / 16) % 16) as u64 + s.delta_base as u64 + range
}

impl Zone {
    /// Shifts the points from `first` up to, but without, `until`, all but
    /// the point `skip`.
    pub(crate) fn shift_all(
        &mut self,
        first: usize,
        until: usize,
        dx: i32,
        dy: i32,
        touch: bool,
        fv: Vector,
        skip: Option<usize>,
    )
        requires
            old(self)@.wf(),
            first <= until <= old(self)@.len(),
        ensures
            final(self)@ == shift_range(
                old(self)@,
                first as int,
                until as int,
                dx as int,
                dy as int,
                touch,
                fv,
                match skip {
                    Some(p) => p as int,
                    None => -1,
                },
            ),
            final(self)@.wf(),
            final(self)@.len() == old(self)@.len(),
    {
        let ghost skipped = match skip {
            Some(p) => p as int,
            None => -1,
        };
        let mut i: usize = first;
        while i < until
            invariant
                first <= i <= until,
                until <= old(self)@.len(),
                self@.wf(),
                self@.len() == old(self)@.len(),
                skipped == (match skip {
                    Some(p) => p as int,
                    None => -1,
                }),
                self@ == shift_range(
                    old(self)@,
                    first as int,
                    i as int,
                    dx as int,
                    dy as int,
                    touch,
                    fv,
                    skipped,
                ),
            decreases until - i,
        {
            let skip_it = match skip {
                Some(p) => p == i,
                None => false,
            };
            if !skip_it {
                self.shift(i, dx, dy, touch, fv);
            }
            i = i + 1;
        }
    }

    /// Sets the points from `first` up to, but without, `until` on the
    /// curve, or off it.
    pub(crate) fn flip_all(&mut self, first: usize, until: usize, on: bool)
        requires
            old(self)@.wf(),
            until <= old(self)@.len(),
        ensures
            final(self)@ == (ZoneView {
                flags: flip_range(old(self)@.flags, first as int, until as int, on),
                ..old(self)@
            }),
            final(self)@.wf(),
            final(self)@.len() == old(self)@.len(),
    {
        if until <= first {
            return ;
        }
        let mut i: usize = first;
        while i < until
            invariant
                first <= i <= until,
                until <= old(self)@.len(),
                old(self)@.wf(),
                self@ == (ZoneView {
                    flags: flip_range(old(self)@.flags, first as int, i as int, on),
                    ..old(self)@
                }),
                self.flags@.len() == old(self)@.flags.len(),
            decreases until - i,
        {
            let f = self.flags[i];
            proof {
                lemma_flip_keeps_rest(old(self)@.flags, first as int, i as int, on, i as int);
            }
            self.flags.set(i, if on { f | ON_CURVE } else { f & !ON_CURVE });
            i = i + 1;
        }
    }
}

/// Setting a range of points on or off the curve leaves the flags of the
/// points behind the range as they were, and the number of flags.
pub proof fn lemma_flip_keeps_rest(flags: Seq<u8>, first: int, until: int, on: bool, k: int)
    requires
        0 <= first,
        until <= flags.len(),
        until <= k < flags.len(),
    ensures
        flip_range(flags, first, until, on).len() == flags.len(),
        flip_range(flags, first, until, on)[k] == flags[k],
    decreases until - first,
{
    if until > first {
        lemma_flip_keeps_rest(flags, first, until - 1, on, k);
        lemma_flip_keeps_rest(flags, first, until - 1, on, until - 1);
    }
}

impl Interp {
    fn do_each_point(&mut self, op: u8, p: usize, a: i32, b: i32) -> (r: Result<(), ScalerError>)
        requires
            old(self)@.wf(),
            is_loop_op(op),
        ensures
            agrees(r, final(self)@, each_point(old(self)@, op, p as int, a as int, b as int)),
            r is Ok ==> final(self)@.wf() && final(self)@.depth() == old(self)@.depth() && final(self).pc == old(self).pc && final(self).state == old(self).state,
    {
        reveal(each_point);
        let s = self.state;
        if op == 0x32 || op == 0x33 || op == 0x38 {
            if p >= self.zone_len(s.zp2) {
                return Err(ScalerError::InvalidGlyph);
            }
            self.shift_point(s.zp2, p, a, b, true);
            Ok(())
        } else if op == 0x39 {
            if p >= self.zone_len(s.zp2) || s.rp1 >= self.zone_len(s.zp0) {
                return Err(ScalerError::InvalidGlyph);
            }
            let before = measure_along(
                s.dual_prj_vec,
                self.org_point(s.zp2, p),
                self.org_point(s.zp0, s.rp1),
            );
            let now = measure_along(
                s.project_vec,
                self.cur_point(s.zp2, p),
                self.cur_point(s.zp0, s.rp1),
            );
            let wanted: i32 = if before == 0 {
                0
            } else if a == 0 {
                before
            } else {
                let x: i64 = before as i64;
                let y: i64 = b as i64;
                assert(-0x4000_0000_0000_0000 <= x * y <= 0x4000_0000_0000_0000) by (nonlinear_arith)
                    requires
                        -0x8000_0000 <= x <= 0x7FFF_FFFF,
                        -0x8000_0000 <= y <= 0x7FFF_FFFF,
                ;
                wrap_to_i32(div_i64_toward_zero(x * y, a as i64))
            };
            self.move_point(s.zp2, p, wrap_to_i32(wanted as i64 - now as i64));
            Ok(())
        } else if op == 0x3C {
            if p >= self.zone_len(s.zp1) || s.rp0 >= self.zone_len(s.zp0) {
                return Err(ScalerError::InvalidGlyph);
            }
            let now = measure_along(
                s.project_vec,
                self.cur_point(s.zp1, p),
                self.cur_point(s.zp0, s.rp0),
            );
            self.move_point(s.zp1, p, wrap_to_i32(-(now as i64)));
            Ok(())
        } else {
            if p >= self.zone_len(s.zp0) {
                return Err(ScalerError::InvalidGlyph);
            }
            if s.zp0 == 0 {
                let f = self.twilight.flags[p];
                self.twilight.flags.set(p, f ^ ON_CURVE);
            } else {
                let f = self.glyph.flags[p];
                self.glyph.flags.set(p, f ^ ON_CURVE);
            }
            Ok(())
        }
    }

    fn do_repeat(&mut self, op: u8, a: i32, b: i32) -> (r: Result<(), ScalerError>)
        requires
            old(self)@.wf(),
            is_loop_op(op),
        ensures
            agrees(
                r,
                final(self)@,
                repeat(old(self)@, op, a as int, b as int, old(self).state.loopv as nat),
            ),
            r is Ok ==> final(self)@.wf(),
    {
        let n: u32 = self.state.loopv;
        let ghost start = self@;
        let mut k: u32 = 0;
        while k < n
            invariant
                k <= n,
                is_loop_op(op),
                self@.wf(),
                self.pc == start.pc,
                start == old(self)@,
                n == old(self).state.loopv,
                repeat(start, op, a as int, b as int, n as nat) == repeat(
                    self@,
                    op,
                    a as int,
                    b as int,
                    (n - k) as nat,
                ),
            decreases n - k,
        {
            if self.stack.len() < 1 {
                return Err(ScalerError::StackUnderflow(self.pc));
            }
            let p = self.stack[self.stack.len() - 1] as usize;
            let ghost before = self@;
            let _ = self.stack.pop();
            assert(self@ == before.popped(1)) by {
                assert(self@.stack =~= before.popped(1).stack);
            }
            self.do_each_point(op, p, a, b)?;
            k = k + 1;
        }
        self.state.loopv = 1;
        Ok(())
    }

    fn shift_of_reference(&self, op: u8) -> (r: Option<(i32, i32)>)
        requires
            self@.wf(),
        ensures
            match r {
                Some((dx, dy)) => self@.has_point(
                    shift_reference(self.state, op).0,
                    shift_reference(self.state, op).1 as int,
                ) && dx == shift_x(self@, reference_shift(self@, op)) && dy == shift_y(
                    self@,
                    reference_shift(self@, op),
                ),
                None => !self@.has_point(
                    shift_reference(self.state, op).0,
                    shift_reference(self.state, op).1 as int,
                ),
            },
    {
        let s = self.state;
        let (z, p) = if op % 2 == 1 { (s.zp0, s.rp1) } else { (s.zp1, s.rp2) };
        if p >= self.zone_len(z) {
            return None;
        }
        let d = measure_along(s.project_vec, self.cur_point(z, p), self.org_point(z, p));
        let share = share_of_freedom(s.freedom_vec, s.project_vec);
        Some((shift_by(d, s.freedom_vec.x.0, share), shift_by(d, s.freedom_vec.y.0, share)))
    }

    /// Runs an instruction that the loop counter repeats.
    pub(crate) fn do_loop_op(&mut self, op: u8) -> (r: Result<(), ScalerError>)
        requires
            old(self)@.wf(),
            is_loop_op(op),
        ensures
            agrees(r, final(self)@, loop_op(old(self)@, op)),
            r is Ok ==> final(self)@.wf(),
    {
        let s = self.state;
        if op == 0x38 {
            let d = self.pop_signed()?;
            self.do_repeat(op, lay_along(d, s.freedom_vec.x), lay_along(d, s.freedom_vec.y))
        } else if op == 0x32 || op == 0x33 {
            match self.shift_of_reference(op) {
                Some((dx, dy)) => self.do_repeat(op, dx, dy),
                None => Err(ScalerError::InvalidGlyph),
            }
        } else if op == 0x39 {
            if s.rp1 >= self.zone_len(s.zp0) || s.rp2 >= self.zone_len(s.zp1) {
                return Err(ScalerError::InvalidGlyph);
            }
            let a = measure_along(
                s.dual_prj_vec,
                self.org_point(s.zp1, s.rp2),
                self.org_point(s.zp0, s.rp1),
            );
            let b = measure_along(
                s.project_vec,
                self.cur_point(s.zp1, s.rp2),
                self.cur_point(s.zp0, s.rp1),
            );
            self.do_repeat(op, a, b)
        } else {
            self.do_repeat(op, 0, 0)
        }
    }

    /// Runs an instruction that works on a range of points.
    pub(crate) fn do_range_op(&mut self, op: u8) -> (r: Result<(), ScalerError>)
        requires
            old(self)@.wf(),
            is_range_op(op),
        ensures
            agrees(r, final(self)@, range_op(old(self)@, op)),
            r is Ok ==> final(self)@.wf(),
    {
        let s = self.state;
        let depth = self.stack.len();
        if op == 0x81 || op == 0x82 {
            if depth < 2 {
                return Err(ScalerError::StackUnderflow(self.pc));
            }
            let last = self.stack[depth - 1] as usize;
            let first = self.stack[depth - 2] as usize;
            let n = self.zone_len(s.zp0);
            if last >= n || first >= n {
                return Err(ScalerError::InvalidGlyph);
            }
            let _ = self.stack.pop();
            let _ = self.stack.pop();
            assert(self.stack@ =~= old(self)@.popped(2).stack);
            if s.zp0 == 0 {
                self.twilight.flip_all(first, last + 1, op == 0x81);
            } else {
                self.glyph.flip_all(first, last + 1, op == 0x81);
            }
            Ok(())
        } else if depth < 1 {
            Err(ScalerError::StackUnderflow(self.pc))
        } else {
            let (z, p) = if op % 2 == 1 { (s.zp0, s.rp1) } else { (s.zp1, s.rp2) };
            let (dx, dy) = match self.shift_of_reference(op) {
                Some(v) => v,
                None => { return Err(ScalerError::InvalidGlyph); },
            };
            let arg = self.stack[depth - 1];
            if op == 0x34 || op == 0x35 {
                let c = arg as usize;
                let n = self.zone_len(s.zp2);
                let ends = if s.zp2 == 0 { &self.twilight.ends } else { &self.glyph.ends };
                if c >= ends.len() || ends[c] as usize >= n {
                    return Err(ScalerError::InvalidGlyph);
                }
                let last = ends[c] as usize;
                let first: usize = if c == 0 { 0 } else { ends[c - 1] as usize + 1 };
                if first > last {
                    return Err(ScalerError::InvalidGlyph);
                }
                let skip = if z == s.zp2 { Some(p) } else { None };
                let _ = self.stack.pop();
                assert(self.stack@ =~= old(self)@.popped(1).stack);
                if s.zp2 == 0 {
                    self.twilight.shift_all(first, last + 1, dx, dy, true, s.freedom_vec, skip);
                } else {
                    self.glyph.shift_all(first, last + 1, dx, dy, true, s.freedom_vec, skip);
                }
                Ok(())
            } else {
                if arg > 1 {
                    return Err(ScalerError::InvalidGlyph);
                }
                let target = arg as usize;
                let skip = if z == target { Some(p) } else { None };
                let n = self.zone_len(target);
                let _ = self.stack.pop();
                assert(self.stack@ =~= old(self)@.popped(1).stack);
                if target == 0 {
                    self.twilight.shift_all(0, n, dx, dy, false, s.freedom_vec, skip);
                } else {
                    self.glyph.shift_all(0, n, dx, dy, false, s.freedom_vec, skip);
                }
                Ok(())
            }
        }
    }

    fn do_each_delta(&mut self, op: u8, target: u32, arg: u32) -> (r: Result<(), ScalerError>)
        requires
            old(self)@.wf(),
        ensures
            agrees(r, final(self)@, each_delta(old(self)@, op, target, arg)),
            r is Ok ==> final(self)@.wf() && final(self).pc == old(self).pc,
    {
        reveal(each_delta);
        let s = self.state;
        let applies = self.ppem as u64 == size_of_delta(&s, op, arg);
        let amount = amount_of_delta(&s, arg);
        if op == 0x5D || op == 0x71 || op == 0x72 {
            if target as usize >= self.zone_len(s.zp0) {
                return Err(ScalerError::InvalidGlyph);
            }
            if applies {
                self.move_point(s.zp0, target as usize, amount);
            }
            Ok(())
        } else {
            if target as usize >= self.cv_table.len() {
                return Err(ScalerError::InvalidGlyph);
            }
            if applies {
                let v = self.cv_table[target as usize] + F26d6(amount);
                self.cv_table.set(target as usize, v);
            }
            Ok(())
        }
    }

    /// Runs a delta instruction.
    pub(crate) fn do_delta_op(&mut self, op: u8) -> (r: Result<(), ScalerError>)
        requires
            old(self)@.wf(),
            is_delta_op(op),
        ensures
            agrees(r, final(self)@, delta_op(old(self)@, op)),
            r is Ok ==> final(self)@.wf(),
    {
        let n = self.pop()?;
        let ghost start = self@;
        let mut k: u32 = 0;
        while k < n
            invariant
                k <= n,
                self@.wf(),
                self.pc == start.pc,
                old(self)@.depth() >= 1,
                start == old(self)@.popped(1),
                n == old(self)@.top(0),
                deltas(start, op, n as nat) == deltas(self@, op, (n - k) as nat),
            decreases n - k,
        {
            let depth = self.stack.len();
            if depth < 2 {
                return Err(ScalerError::StackUnderflow(self.pc));
            }
            let target = self.stack[depth - 1];
            let arg = self.stack[depth - 2];
            let ghost before = self@;
            let _ = self.stack.pop();
            let _ = self.stack.pop();
            assert(self@ == before.popped(2)) by {
                assert(self@.stack =~= before.popped(2).stack);
            }
            self.do_each_delta(op, target, arg)?;
            k = k + 1;
        }
        Ok(())
    }
}

} // verus!

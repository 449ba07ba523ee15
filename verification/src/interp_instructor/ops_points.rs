//! Instructions that measure and move single points.

use vstd::prelude::*;

use crate::interp_instructor::rounding::round;
use crate::interp_instructor::rounding::rounded;
use crate::interp_instructor::state::agrees;
use crate::interp_instructor::state::signed;
use crate::interp_instructor::state::to_signed;
use crate::interp_instructor::state::to_word;
use crate::interp_instructor::state::word_of;
use crate::interp_instructor::state::Interp;
use crate::interp_instructor::state::InterpState;
use crate::interp_instructor::state::InterpView;
use crate::interp_instructor::state::Outcome;
use crate::interp_instructor::state::ZoneView;
use crate::interp_instructor::state::TOUCHED_X;
use crate::interp_instructor::state::TOUCHED_Y;
use crate::interp_instructor::zone_ops::along;
use crate::interp_instructor::zone_ops::coordinate;
use crate::interp_instructor::zone_ops::coordinate_along;
use crate::interp_instructor::zone_ops::lay_along;
use crate::interp_instructor::zone_ops::line_vector;
use crate::interp_instructor::zone_ops::measure;
use crate::interp_instructor::zone_ops::measure_along;
use crate::interp_instructor::zone_ops::plus;
use crate::interp_instructor::zone_ops::vector_of_line;
use crate::interp_instructor::ScalerError;
use crate::numerics::div_i64_toward_zero;
use crate::numerics::div_toward_zero;
use crate::numerics::wrap_i32;
use crate::numerics::wrap_to_i32;
use crate::numerics::F26d6;
use crate::outline::Point;

verus! {

/// The absolute value of `v`.
pub open spec fn magnitude(v: int) -> int {
    if v < 0 {
        -v
    } else {
        v
    }
}

/// The distance `d` after the single width test: a distance that differs
/// from the single width value by less than the single width cut-in becomes
/// that value, with the sign of `d`.
pub open spec fn single_width(s: InterpState, d: int) -> int {
    if magnitude(d - s.single_width_value.0) < s.single_width_cut_in.0 {
        if d >= 0 {
            s.single_width_value.0 as int
        } else {
            wrap_i32(-s.single_width_value.0)
        }
    } else {
        d
    }
}

/// The distance `d` kept at least the minimum distance away from zero, on
/// the side on which `original` lies.
pub open spec fn min_distance(s: InterpState, d: int, original: int) -> int {
    if original >= 0 {
        if d < s.min_dist.0 {
            s.min_dist.0 as int
        } else {
            d
        }
    } else {
        if d > -s.min_dist.0 {
            wrap_i32(-s.min_dist.0)
        } else {
            d
        }
    }
}

/// The machine with the reference points set.
pub open spec fn with_refs(m: InterpView, rp0: usize, rp1: usize, rp2: usize) -> InterpView {
    m.with_state(InterpState { rp0, rp1, rp2, ..m.state })
}

/// The machine after an instruction that measures:
///
/// * `GC` takes a point of zone pointer 2 and pushes its coordinate along
///   the projection vector, of where it is now (`0x46`) or of where it was,
///   along the dual projection vector (`0x47`);
/// * `MD` takes a point of zone pointer 1, then a point of zone pointer 0,
///   and pushes the distance from the first to the second, measured between
///   where they are now (`0x49`) or between where they were (`0x4A`).
///
/// A point that the zone does not have makes the glyph invalid.
pub open spec fn measure_op(m: InterpView, op: u8) -> Outcome {
    let s = m.state;
    if m.depth() < 1 {
        Err(ScalerError::StackUnderflow(m.pc))
    } else if op == 0x46 || op == 0x47 {
        let p = m.top(0) as int;
        if !m.has_point(s.zp2, p) {
            Err(ScalerError::InvalidGlyph)
        } else if op == 0x46 {
            Ok(m.popped(1).pushed(word_of(coordinate(s.project_vec, m.cur(s.zp2, p)) as i32)))
        } else {
            Ok(m.popped(1).pushed(word_of(coordinate(s.dual_prj_vec, m.org(s.zp2, p)) as i32)))
        }
    } else if m.depth() < 2 {
        Err(ScalerError::StackUnderflow(m.pc))
    } else {
        let k = m.top(0) as int;
        let l = m.top(1) as int;
        if !m.has_point(s.zp1, k) || !m.has_point(s.zp0, l) {
            Err(ScalerError::InvalidGlyph)
        } else if op == 0x49 {
            Ok(
                m.popped(2).pushed(
                    word_of(measure(s.project_vec, m.cur(s.zp0, l), m.cur(s.zp1, k)) as i32),
                ),
            )
        } else {
            Ok(
                m.popped(2).pushed(
                    word_of(measure(s.dual_prj_vec, m.org(s.zp0, l), m.org(s.zp1, k)) as i32),
                ),
            )
        }
    }
}

/// Whether `op` is an instruction that measures.
pub open spec fn is_measure_op(op: u8) -> bool {
    op == 0x46 || op == 0x47 || op == 0x49 || op == 0x4A
}

/// The machine after an instruction that sets a vector along a line. Each
/// takes a point of zone pointer 2, then a point of zone pointer 1; the
/// vector points from the first to the second, or across that line where the
/// instruction code is odd. `SPVTL` (`0x06`, `0x07`) sets the projection
/// vectors, `SFVTL` (`0x08`, `0x09`) the freedom vector; `SDPVTL` (`0x86`,
/// `0x87`) sets the projection vector by where the points are now and the
/// dual projection vector by where they were.
pub open spec fn line_op(m: InterpView, op: u8) -> Outcome {
    let s = m.state;
    if m.depth() < 2 {
        Err(ScalerError::StackUnderflow(m.pc))
    } else {
        let a = m.top(0) as int;
        let b = m.top(1) as int;
        if !m.has_point(s.zp2, a) || !m.has_point(s.zp1, b) {
            Err(ScalerError::InvalidGlyph)
        } else {
            let now = line_vector(m.cur(s.zp1, b), m.cur(s.zp2, a), op % 2 == 1);
            let before = line_vector(m.org(s.zp1, b), m.org(s.zp2, a), op % 2 == 1);
            if op == 0x06 || op == 0x07 {
                Ok(m.popped(2).with_state(InterpState { project_vec: now, dual_prj_vec: now, ..s }))
            } else if op == 0x08 || op == 0x09 {
                Ok(m.popped(2).with_state(InterpState { freedom_vec: now, ..s }))
            } else {
                Ok(
                    m.popped(2).with_state(
                        InterpState { project_vec: now, dual_prj_vec: before, ..s },
                    ),
                )
            }
        }
    }
}

/// Whether `op` is an instruction that sets a vector along a line.
pub open spec fn is_line_op(op: u8) -> bool {
    (0x06 <= op <= 0x09) || op == 0x86 || op == 0x87
}

/// The machine after `MDAP` (`0x2E`, `0x2F`), which takes a point of zone
/// pointer 0, touches it, and makes it the reference points 0 and 1. Where
/// the instruction code is odd the point moves to the rounded value of its
/// coordinate.
pub open spec fn mdap(m: InterpView, op: u8) -> Outcome {
    let s = m.state;
    if m.depth() < 1 {
        Err(ScalerError::StackUnderflow(m.pc))
    } else {
        let p = m.top(0);
        if !m.has_point(s.zp0, p as int) {
            Err(ScalerError::InvalidGlyph)
        } else {
            let k = coordinate(s.project_vec, m.cur(s.zp0, p as int));
            let d = if op % 2 == 1 {
                wrap_i32(rounded(s.round_state, k) - k)
            } else {
                0
            };
            Ok(
                with_refs(
                    m.popped(1).move_point(s.zp0, p as int, d),
                    p as usize,
                    p as usize,
                    s.rp2,
                ),
            )
        }
    }
}

/// The point that lies `d` from the origin along the freedom vector.
pub open spec fn point_along(s: InterpState, d: int) -> Point {
    Point { x: F26d6(along(d, s.freedom_vec.x) as i32), y: F26d6(along(d, s.freedom_vec.y) as i32) }
}

/// The machine after `MIAP` (`0x3E`, `0x3F`), which takes the number of a
/// control value, then a point of zone pointer 0, and moves the point to the
/// control value along the projection vector. A point of the twilight zone
/// is first put at the control value along the freedom vector. Where the
/// instruction code is odd, a control value that differs from the
/// coordinate of the point by more than the cut-in gives way to the
/// coordinate, and the result is rounded. The point becomes the reference
/// points 0 and 1.
pub open spec fn miap(m: InterpView, op: u8) -> Outcome {
    let s = m.state;
    if m.depth() < 2 {
        Err(ScalerError::StackUnderflow(m.pc))
    } else {
        let n = m.top(0) as int;
        let p = m.top(1);
        if n >= m.cv_table.len() || !m.has_point(s.zp0, p as int) {
            Err(ScalerError::InvalidGlyph)
        } else {
            let value = m.cv_table[n].0 as int;
            let placed = if s.zp0 == 0 {
                m.popped(2).place_point(s.zp0, p as int, point_along(s, value))
            } else {
                m.popped(2)
            };
            let k = coordinate(s.project_vec, placed.cur(s.zp0, p as int));
            let target = if op % 2 == 1 {
                rounded(
                    s.round_state,
                    if magnitude(value - k) > s.cvt_cutin.0 {
                        k
                    } else {
                        value
                    },
                )
            } else {
                value
            };
            Ok(
                with_refs(
                    placed.move_point(s.zp0, p as int, wrap_i32(target - k)),
                    p as usize,
                    p as usize,
                    s.rp2,
                ),
            )
        }
    }
}

/// The reference points after `MDRP` and `MIRP` have moved the point `p`:
/// reference point 1 is what reference point 0 was, reference point 2 is
/// `p`, and reference point 0 becomes `p` where bit 4 of the instruction
/// code is set.
pub open spec fn refs_after_move(m: InterpView, s: InterpState, op: u8, p: usize) -> InterpView {
    with_refs(
        m,
        if (op / 16) % 2 == 1 {
            p
        } else {
            s.rp0
        },
        s.rp0,
        p,
    )
}

/// The machine after `MDRP` (`0xC0` to `0xDF`), which takes a point of zone
/// pointer 1 and moves it so that its distance from reference point 0 is
/// what it was originally. Bit 2 of the instruction code asks for the
/// distance to be rounded, bit 3 for the minimum distance to be kept.
pub open spec fn mdrp(m: InterpView, op: u8) -> Outcome {
    let s = m.state;
    if m.depth() < 1 {
        Err(ScalerError::StackUnderflow(m.pc))
    } else {
        let p = m.top(0);
        if !m.has_point(s.zp1, p as int) || !m.has_point(s.zp0, s.rp0 as int) {
            Err(ScalerError::InvalidGlyph)
        } else {
            let original = single_width(
                s,
                measure(s.dual_prj_vec, m.org(s.zp1, p as int), m.org(s.zp0, s.rp0 as int)),
            );
            let round_it = if (op / 4) % 2 == 1 {
                rounded(s.round_state, original)
            } else {
                original
            };
            let distance = if (op / 8) % 2 == 1 {
                min_distance(s, round_it, original)
            } else {
                round_it
            };
            let now = measure(s.project_vec, m.cur(s.zp1, p as int), m.cur(s.zp0, s.rp0 as int));
            Ok(
                refs_after_move(
                    m.popped(1).move_point(s.zp1, p as int, wrap_i32(distance - now)),
                    s,
                    op,
                    p as usize,
                ),
            )
        }
    }
}

/// The control value `value` as `MIRP` uses it for a point whose original
/// distance is `original`: with the sign of the original distance where
/// automatic flipping is on.
pub open spec fn flipped(s: InterpState, value: int, original: int) -> int {
    if s.auto_flip && ((original < 0 && value >= 0) || (original >= 0 && value < 0)) {
        wrap_i32(-value)
    } else {
        value
    }
}

/// The machine after `MIRP` (`0xE0` to `0xFF`), which takes the number of a
/// control value, then a point of zone pointer 1, and moves the point so
/// that its distance from reference point 0 is the control value. A point of
/// the twilight zone is first put at that distance from the reference point
/// along the freedom vector. Bit 2 of the instruction code asks for the
/// cut-in test, where both zone pointers name one zone, and for rounding;
/// bit 3 for the minimum distance to be kept.
pub open spec fn mirp(m: InterpView, op: u8) -> Outcome {
    let s = m.state;
    if m.depth() < 2 {
        Err(ScalerError::StackUnderflow(m.pc))
    } else {
        let n = m.top(0) as int;
        let p = m.top(1);
        if n >= m.cv_table.len() || !m.has_point(s.zp1, p as int) || !m.has_point(
            s.zp0,
            s.rp0 as int,
        ) {
            Err(ScalerError::InvalidGlyph)
        } else {
            let value = single_width(s, m.cv_table[n].0 as int);
            let base = m.org(s.zp0, s.rp0 as int);
            let placed = if s.zp1 == 0 {
                m.popped(2).place_point(
                    s.zp1,
                    p as int,
                    Point {
                        x: plus(base.x, along(value, s.freedom_vec.x)),
                        y: plus(base.y, along(value, s.freedom_vec.y)),
                    },
                )
            } else {
                m.popped(2)
            };
            let original = measure(
                s.dual_prj_vec,
                placed.org(s.zp1, p as int),
                placed.org(s.zp0, s.rp0 as int),
            );
            let now = measure(
                s.project_vec,
                placed.cur(s.zp1, p as int),
                placed.cur(s.zp0, s.rp0 as int),
            );
            let signed_value = flipped(s, value, original);
            let round_it = if (op / 4) % 2 == 1 {
                rounded(
                    s.round_state,
                    if s.zp0 == s.zp1 && magnitude(signed_value - original) > s.cvt_cutin.0 {
                        original
                    } else {
                        signed_value
                    },
                )
            } else {
                signed_value
            };
            let distance = if (op / 8) % 2 == 1 {
                min_distance(s, round_it, original)
            } else {
                round_it
            };
            Ok(
                refs_after_move(
                    placed.move_point(s.zp1, p as int, wrap_i32(distance - now)),
                    s,
                    op,
                    p as usize,
                ),
            )
        }
    }
}

/// The machine after `MSIRP` (`0x3A`, `0x3B`), which takes a distance, then
/// a point of zone pointer 1, and moves the point to that distance from
/// reference point 0. A point of the twilight zone is first put at the
/// reference point. Reference point 1 becomes what reference point 0 was,
/// reference point 2 the point, and reference point 0 the point too where
/// the instruction code is odd.
pub open spec fn msirp(m: InterpView, op: u8) -> Outcome {
    let s = m.state;
    if m.depth() < 2 {
        Err(ScalerError::StackUnderflow(m.pc))
    } else {
        let d = signed(m.top(0));
        let p = m.top(1);
        if !m.has_point(s.zp1, p as int) || !m.has_point(s.zp0, s.rp0 as int) {
            Err(ScalerError::InvalidGlyph)
        } else {
            let placed = if s.zp1 == 0 {
                m.popped(2).place_point(s.zp1, p as int, m.org(s.zp0, s.rp0 as int))
            } else {
                m.popped(2)
            };
            let now = measure(
                s.project_vec,
                placed.cur(s.zp1, p as int),
                placed.cur(s.zp0, s.rp0 as int),
            );
            Ok(
                with_refs(
                    placed.move_point(s.zp1, p as int, wrap_i32(d - now)),
                    if op % 2 == 1 {
                        p as usize
                    } else {
                        s.rp0
                    },
                    s.rp0,
                    p as usize,
                ),
            )
        }
    }
}

/// The machine after `SCFS` (`0x48`), which takes a coordinate, then a
/// point of zone pointer 2, and moves the point to that coordinate along the
/// projection vector. A point of the twilight zone is then where it was
/// originally.
pub open spec fn scfs(m: InterpView) -> Outcome {
    let s = m.state;
    if m.depth() < 2 {
        Err(ScalerError::StackUnderflow(m.pc))
    } else {
        let v = signed(m.top(0));
        let p = m.top(1) as int;
        if !m.has_point(s.zp2, p) {
            Err(ScalerError::InvalidGlyph)
        } else {
            let k = coordinate(s.project_vec, m.cur(s.zp2, p));
            let moved = m.popped(2).move_point(s.zp2, p, wrap_i32(v - k));
            if s.zp2 == 0 {
                Ok(moved.settle_point(s.zp2, p))
            } else {
                Ok(moved)
            }
        }
    }
}

/// The machine after `ALIGNPTS` (`0x27`), which takes a point of zone
/// pointer 0, then a point of zone pointer 1, and moves each of them half
/// their distance towards the other.
pub open spec fn alignpts(m: InterpView) -> Outcome {
    let s = m.state;
    if m.depth() < 2 {
        Err(ScalerError::StackUnderflow(m.pc))
    } else {
        let p2 = m.top(0) as int;
        let p1 = m.top(1) as int;
        if !m.has_point(s.zp0, p2) || !m.has_point(s.zp1, p1) {
            Err(ScalerError::InvalidGlyph)
        } else {
            let half = div_toward_zero(
                measure(s.project_vec, m.cur(s.zp0, p2), m.cur(s.zp1, p1)),
                2,
            );
            Ok(m.popped(2).move_point(s.zp1, p1, half).move_point(s.zp0, p2, -half))
        }
    }
}

/// The flag `f` of a point that `UTP` has untouched along the axes on which
/// the freedom vector has a share.
pub open spec fn untouched(f: u8, s: InterpState) -> u8 {
    let fx = if s.freedom_vec.x.0 != 0 {
        f & !TOUCHED_X
    } else {
        f
    };
    if s.freedom_vec.y.0 != 0 {
        fx & !TOUCHED_Y
    } else {
        fx
    }
}

/// The machine after `UTP` (`0x29`), which takes a point of zone pointer 0
/// and marks it as not touched.
pub open spec fn utp(m: InterpView) -> Outcome {
    let s = m.state;
    if m.depth() < 1 {
        Err(ScalerError::StackUnderflow(m.pc))
    } else {
        let p = m.top(0) as int;
        if !m.has_point(s.zp0, p) {
            Err(ScalerError::InvalidGlyph)
        } else {
            let zone = m.zone(s.zp0);
            Ok(
                m.popped(1).with_zone(
                    s.zp0,
                    ZoneView {
                        flags: zone.flags.update(p, untouched(zone.flags[p], s)),
                        ..zone
                    },
                ),
            )
        }
    }
}

/// The machine after an instruction that moves one point: `MDAP`, `MIAP`,
/// `MDRP`, `MIRP`, `MSIRP`, `SCFS`, `ALIGNPTS` or `UTP`.
pub open spec fn move_op(m: InterpView, op: u8) -> Outcome {
    if op == 0x2E || op == 0x2F {
        mdap(m, op)
    } else if op == 0x3E || op == 0x3F {
        miap(m, op)
    } else if 0xC0 <= op <= 0xDF {
        mdrp(m, op)
    } else if op >= 0xE0 {
        mirp(m, op)
    } else if op == 0x3A || op == 0x3B {
        msirp(m, op)
    } else if op == 0x48 {
        scfs(m)
    } else if op == 0x27 {
        alignpts(m)
    } else {
        utp(m)
    }
}

/// Whether `op` is an instruction that moves one point.
pub open spec fn is_move_op(op: u8) -> bool {
    op == 0x2E || op == 0x2F || op == 0x3E || op == 0x3F || op >= 0xC0 || op == 0x3A || op == 0x3B
        || op == 0x48 || op == 0x27 || op == 0x29
}

fn abs_difference(a: i32, b: i32) -> (r: i64)
    ensures
        r == magnitude(a - b),
{
    let d: i64 = a as i64 - b as i64;
    if d < 0 {
        -d
    } else {
        d
    }
}

fn apply_single_width(s: &InterpState, d: i32) -> (r: i32)
    ensures
        r == single_width(*s, d as int),
{
    if abs_difference(d, s.single_width_value.0) < s.single_width_cut_in.0 as i64 {
        if d >= 0 {
            s.single_width_value.0
        } else {
            wrap_to_i32(-(s.single_width_value.0 as i64))
        }
    } else {
        d
    }
}

fn apply_min_distance(s: &InterpState, d: i32, original: i32) -> (r: i32)
    ensures
        r == min_distance(*s, d as int, original as int),
{
    if original >= 0 {
        if d < s.min_dist.0 {
            s.min_dist.0
        } else {
            d
        }
    } else {
        if (d as i64) > -(s.min_dist.0 as i64) {
            wrap_to_i32(-(s.min_dist.0 as i64))
        } else {
            d
        }
    }
}

fn apply_flip(s: &InterpState, value: i32, original: i32) -> (r: i32)
    ensures
        r == flipped(*s, value as int, original as int),
{
    if s.auto_flip && ((original < 0 && value >= 0) || (original >= 0 && value < 0)) {
        wrap_to_i32(-(value as i64))
    } else {
        value
    }
}

impl Interp {
    /// Runs an instruction that measures.
    pub(crate) fn do_measure_op(&mut self, op: u8) -> (r: Result<(), ScalerError>)
        requires
            old(self)@.wf(),
            is_measure_op(op),
        ensures
            agrees(r, final(self)@, measure_op(old(self)@, op)),
            r is Ok ==> final(self)@.wf(),
    {
        let depth = self.stack.len();
        let s = self.state;
        if depth < 1 {
            return Err(ScalerError::StackUnderflow(self.pc));
        }
        if op == 0x46 || op == 0x47 {
            let p = self.stack[depth - 1] as usize;
            if p >= self.zone_len(s.zp2) {
                return Err(ScalerError::InvalidGlyph);
            }
            let v = if op == 0x46 {
                coordinate_along(s.project_vec, self.cur_point(s.zp2, p))
            } else {
                coordinate_along(s.dual_prj_vec, self.org_point(s.zp2, p))
            };
            let _ = self.pop()?;
            self.stack.push(to_word(v));
            Ok(())
        } else if depth < 2 {
            Err(ScalerError::StackUnderflow(self.pc))
        } else {
            let k = self.stack[depth - 1] as usize;
            let l = self.stack[depth - 2] as usize;
            if k >= self.zone_len(s.zp1) || l >= self.zone_len(s.zp0) {
                return Err(ScalerError::InvalidGlyph);
            }
            let v = if op == 0x49 {
                measure_along(s.project_vec, self.cur_point(s.zp0, l), self.cur_point(s.zp1, k))
            } else {
                measure_along(s.dual_prj_vec, self.org_point(s.zp0, l), self.org_point(s.zp1, k))
            };
            let w = to_word(v);
            let _ = self.pop()?;
            let _ = self.pop()?;
            self.stack.push(w);
            assert(self@.stack =~= old(self)@.popped(2).pushed(w).stack);
            Ok(())
        }
    }

    /// Runs an instruction that sets a vector along a line.
    pub(crate) fn do_line_op(&mut self, op: u8) -> (r: Result<(), ScalerError>)
        requires
            old(self)@.wf(),
            is_line_op(op),
        ensures
            agrees(r, final(self)@, line_op(old(self)@, op)),
            r is Ok ==> final(self)@.wf(),
    {
        let depth = self.stack.len();
        let s = self.state;
        if depth < 2 {
            return Err(ScalerError::StackUnderflow(self.pc));
        }
        let a = self.stack[depth - 1] as usize;
        let b = self.stack[depth - 2] as usize;
        if a >= self.zone_len(s.zp2) || b >= self.zone_len(s.zp1) {
            return Err(ScalerError::InvalidGlyph);
        }
        let across = op % 2 == 1;
        let now = vector_of_line(self.cur_point(s.zp1, b), self.cur_point(s.zp2, a), across);
        let before = vector_of_line(self.org_point(s.zp1, b), self.org_point(s.zp2, a), across);
        let _ = self.pop()?;
        let _ = self.pop()?;
        assert(self@ == old(self)@.popped(2)) by {
            assert(self@.stack =~= old(self)@.popped(2).stack);
        }
        if op == 0x06 || op == 0x07 {
            self.state.project_vec = now;
            self.state.dual_prj_vec = now;
        } else if op == 0x08 || op == 0x09 {
            self.state.freedom_vec = now;
        } else {
            self.state.project_vec = now;
            self.state.dual_prj_vec = before;
        }
        Ok(())
    }

    fn pop_two(&mut self)
        requires
            old(self)@.depth() >= 2,
        ensures
            final(self)@ == old(self)@.popped(2),
    {
        let _ = self.stack.pop();
        let _ = self.stack.pop();
        assert(self@.stack =~= old(self)@.popped(2).stack);
    }

    fn pop_one(&mut self)
        requires
            old(self)@.depth() >= 1,
        ensures
            final(self)@ == old(self)@.popped(1),
    {
        let _ = self.stack.pop();
        assert(self@.stack =~= old(self)@.popped(1).stack);
    }

    fn do_mdap(&mut self, op: u8) -> (r: Result<(), ScalerError>)
        requires
            old(self)@.wf(),
        ensures
            agrees(r, final(self)@, mdap(old(self)@, op)),
            r is Ok ==> final(self)@.wf(),
    {
        let depth = self.stack.len();
        let s = self.state;
        if depth < 1 {
            return Err(ScalerError::StackUnderflow(self.pc));
        }
        let p = self.stack[depth - 1] as usize;
        if p >= self.zone_len(s.zp0) {
            return Err(ScalerError::InvalidGlyph);
        }
        let k = coordinate_along(s.project_vec, self.cur_point(s.zp0, p));
        let d = if op % 2 == 1 {
            wrap_to_i32(round(s.round_state, k) as i64 - k as i64)
        } else {
            0
        };
        self.pop_one();
        self.move_point(s.zp0, p, d);
        self.state.rp0 = p;
        self.state.rp1 = p;
        Ok(())
    }

    fn do_miap(&mut self, op: u8) -> (r: Result<(), ScalerError>)
        requires
            old(self)@.wf(),
        ensures
            agrees(r, final(self)@, miap(old(self)@, op)),
            r is Ok ==> final(self)@.wf(),
    {
        let depth = self.stack.len();
        let s = self.state;
        if depth < 2 {
            return Err(ScalerError::StackUnderflow(self.pc));
        }
        let n = self.stack[depth - 1] as usize;
        let p = self.stack[depth - 2] as usize;
        if n >= self.cv_table.len() || p >= self.zone_len(s.zp0) {
            return Err(ScalerError::InvalidGlyph);
        }
        let value = self.cv_table[n].0;
        self.pop_two();
        if s.zp0 == 0 {
            let at = Point {
                x: F26d6(lay_along(value, s.freedom_vec.x)),
                y: F26d6(lay_along(value, s.freedom_vec.y)),
            };
            self.place_point(s.zp0, p, at);
        }
        let k = coordinate_along(s.project_vec, self.cur_point(s.zp0, p));
        let target = if op % 2 == 1 {
            let chosen = if abs_difference(value, k) > s.cvt_cutin.0 as i64 { k } else { value };
            round(s.round_state, chosen)
        } else {
            value
        };
        self.move_point(s.zp0, p, wrap_to_i32(target as i64 - k as i64));
        self.state.rp0 = p;
        self.state.rp1 = p;
        Ok(())
    }

    fn set_refs_after_move(&mut self, s: InterpState, op: u8, p: usize)
        requires
            old(self)@.wf(),
            old(self)@.point_in_range(p),
            old(self)@.point_in_range(s.rp0),
            old(self).state == s,
        ensures
            final(self)@ == refs_after_move(old(self)@, s, op, p),
            final(self)@.wf(),
    {
        self.state.rp1 = s.rp0;
        self.state.rp2 = p;
        if (op / 16) % 2 == 1 {
            self.state.rp0 = p;
        }
    }

    fn do_mdrp(&mut self, op: u8) -> (r: Result<(), ScalerError>)
        requires
            old(self)@.wf(),
        ensures
            agrees(r, final(self)@, mdrp(old(self)@, op)),
            r is Ok ==> final(self)@.wf(),
    {
        let depth = self.stack.len();
        let s = self.state;
        if depth < 1 {
            return Err(ScalerError::StackUnderflow(self.pc));
        }
        let p = self.stack[depth - 1] as usize;
        if p >= self.zone_len(s.zp1) || s.rp0 >= self.zone_len(s.zp0) {
            return Err(ScalerError::InvalidGlyph);
        }
        let original = apply_single_width(
            &s,
            measure_along(s.dual_prj_vec, self.org_point(s.zp1, p), self.org_point(s.zp0, s.rp0)),
        );
        let round_it = if (op / 4) % 2 == 1 { round(s.round_state, original) } else { original };
        let distance = if (op / 8) % 2 == 1 {
            apply_min_distance(&s, round_it, original)
        } else {
            round_it
        };
        let now = measure_along(
            s.project_vec,
            self.cur_point(s.zp1, p),
            self.cur_point(s.zp0, s.rp0),
        );
        self.pop_one();
        self.move_point(s.zp1, p, wrap_to_i32(distance as i64 - now as i64));
        self.set_refs_after_move(s, op, p);
        Ok(())
    }

    fn do_mirp(&mut self, op: u8) -> (r: Result<(), ScalerError>)
        requires
            old(self)@.wf(),
        ensures
            agrees(r, final(self)@, mirp(old(self)@, op)),
            r is Ok ==> final(self)@.wf(),
    {
        let depth = self.stack.len();
        let s = self.state;
        if depth < 2 {
            return Err(ScalerError::StackUnderflow(self.pc));
        }
        let n = self.stack[depth - 1] as usize;
        let p = self.stack[depth - 2] as usize;
        if n >= self.cv_table.len() || p >= self.zone_len(s.zp1) || s.rp0 >= self.zone_len(s.zp0) {
            return Err(ScalerError::InvalidGlyph);
        }
        let value = apply_single_width(&s, self.cv_table[n].0);
        let base = self.org_point(s.zp0, s.rp0);
        self.pop_two();
        if s.zp1 == 0 {
            let at = Point {
                x: base.x + F26d6(lay_along(value, s.freedom_vec.x)),
                y: base.y + F26d6(lay_along(value, s.freedom_vec.y)),
            };
            self.place_point(s.zp1, p, at);
        }
        let original = measure_along(
            s.dual_prj_vec,
            self.org_point(s.zp1, p),
            self.org_point(s.zp0, s.rp0),
        );
        let now = measure_along(
            s.project_vec,
            self.cur_point(s.zp1, p),
            self.cur_point(s.zp0, s.rp0),
        );
        let signed_value = apply_flip(&s, value, original);
        let round_it = if (op / 4) % 2 == 1 {
            let chosen = if s.zp0 == s.zp1 && abs_difference(signed_value, original)
                > s.cvt_cutin.0 as i64 {
                original
            } else {
                signed_value
            };
            round(s.round_state, chosen)
        } else {
            signed_value
        };
        let distance = if (op / 8) % 2 == 1 {
            apply_min_distance(&s, round_it, original)
        } else {
            round_it
        };
        self.move_point(s.zp1, p, wrap_to_i32(distance as i64 - now as i64));
        self.set_refs_after_move(s, op, p);
        Ok(())
    }

    fn do_msirp(&mut self, op: u8) -> (r: Result<(), ScalerError>)
        requires
            old(self)@.wf(),
        ensures
            agrees(r, final(self)@, msirp(old(self)@, op)),
            r is Ok ==> final(self)@.wf(),
    {
        let depth = self.stack.len();
        let s = self.state;
        if depth < 2 {
            return Err(ScalerError::StackUnderflow(self.pc));
        }
        let d = to_signed(self.stack[depth - 1]);
        let p = self.stack[depth - 2] as usize;
        if p >= self.zone_len(s.zp1) || s.rp0 >= self.zone_len(s.zp0) {
            return Err(ScalerError::InvalidGlyph);
        }
        let base = self.org_point(s.zp0, s.rp0);
        self.pop_two();
        if s.zp1 == 0 {
            self.place_point(s.zp1, p, base);
        }
        let now = measure_along(
            s.project_vec,
            self.cur_point(s.zp1, p),
            self.cur_point(s.zp0, s.rp0),
        );
        self.move_point(s.zp1, p, wrap_to_i32(d as i64 - now as i64));
        self.state.rp1 = s.rp0;
        self.state.rp2 = p;
        if op % 2 == 1 {
            self.state.rp0 = p;
        }
        Ok(())
    }

    fn do_scfs(&mut self) -> (r: Result<(), ScalerError>)
        requires
            old(self)@.wf(),
        ensures
            agrees(r, final(self)@, scfs(old(self)@)),
            r is Ok ==> final(self)@.wf(),
    {
        let depth = self.stack.len();
        let s = self.state;
        if depth < 2 {
            return Err(ScalerError::StackUnderflow(self.pc));
        }
        let v = to_signed(self.stack[depth - 1]);
        let p = self.stack[depth - 2] as usize;
        if p >= self.zone_len(s.zp2) {
            return Err(ScalerError::InvalidGlyph);
        }
        let k = coordinate_along(s.project_vec, self.cur_point(s.zp2, p));
        self.pop_two();
        self.move_point(s.zp2, p, wrap_to_i32(v as i64 - k as i64));
        if s.zp2 == 0 {
            self.settle_point(s.zp2, p);
        }
        Ok(())
    }

    fn do_alignpts(&mut self) -> (r: Result<(), ScalerError>)
        requires
            old(self)@.wf(),
        ensures
            agrees(r, final(self)@, alignpts(old(self)@)),
            r is Ok ==> final(self)@.wf(),
    {
        let depth = self.stack.len();
        let s = self.state;
        if depth < 2 {
            return Err(ScalerError::StackUnderflow(self.pc));
        }
        let p2 = self.stack[depth - 1] as usize;
        let p1 = self.stack[depth - 2] as usize;
        if p2 >= self.zone_len(s.zp0) || p1 >= self.zone_len(s.zp1) {
            return Err(ScalerError::InvalidGlyph);
        }
        let between = measure_along(
            s.project_vec,
            self.cur_point(s.zp0, p2),
            self.cur_point(s.zp1, p1),
        );
        let half: i32 = div_i64_toward_zero(between as i64, 2) as i32;
        self.pop_two();
        self.move_point(s.zp1, p1, half);
        self.move_point(s.zp0, p2, -half);
        Ok(())
    }

    fn do_utp(&mut self) -> (r: Result<(), ScalerError>)
        requires
            old(self)@.wf(),
        ensures
            agrees(r, final(self)@, utp(old(self)@)),
            r is Ok ==> final(self)@.wf(),
    {
        let depth = self.stack.len();
        let s = self.state;
        if depth < 1 {
            return Err(ScalerError::StackUnderflow(self.pc));
        }
        let p = self.stack[depth - 1] as usize;
        if p >= self.zone_len(s.zp0) {
            return Err(ScalerError::InvalidGlyph);
        }
        self.pop_one();
        if s.zp0 == 0 {
            let f = self.twilight.flags[p];
            let fx = if s.freedom_vec.x.0 != 0 { f & !TOUCHED_X } else { f };
            let fy = if s.freedom_vec.y.0 != 0 { fx & !TOUCHED_Y } else { fx };
            self.twilight.flags.set(p, fy);
        } else {
            let f = self.glyph.flags[p];
            let fx = if s.freedom_vec.x.0 != 0 { f & !TOUCHED_X } else { f };
            let fy = if s.freedom_vec.y.0 != 0 { fx & !TOUCHED_Y } else { fx };
            self.glyph.flags.set(p, fy);
        }
        Ok(())
    }

    /// Runs an instruction that moves one point.
    pub(crate) fn do_move_op(&mut self, op: u8) -> (r: Result<(), ScalerError>)
        requires
            old(self)@.wf(),
            is_move_op(op),
        ensures
            agrees(r, final(self)@, move_op(old(self)@, op)),
            r is Ok ==> final(self)@.wf(),
    {
        if op == 0x2E || op == 0x2F {
            self.do_mdap(op)
        } else if op == 0x3E || op == 0x3F {
            self.do_miap(op)
        } else if 0xC0 <= op && op <= 0xDF {
            self.do_mdrp(op)
        } else if op >= 0xE0 {
            self.do_mirp(op)
        } else if op == 0x3A || op == 0x3B {
            self.do_msirp(op)
        } else if op == 0x48 {
            self.do_scfs()
        } else if op == 0x27 {
            self.do_alignpts()
        } else {
            self.do_utp()
        }
    }
}

} // verus!

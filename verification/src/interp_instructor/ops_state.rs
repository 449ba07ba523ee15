//! Instructions that read and change the graphics state, the storage area
//! and the control values.

use vstd::prelude::*;

use crate::interp_instructor::rounding::decode_super_round;
use crate::interp_instructor::rounding::super_round;
use crate::interp_instructor::rounding::RoundState;
use crate::interp_instructor::state::agrees;
use crate::interp_instructor::state::signed;
use crate::interp_instructor::state::to_signed;
use crate::interp_instructor::state::to_word;
use crate::interp_instructor::state::word_of;
use crate::interp_instructor::state::Interp;
use crate::interp_instructor::state::InterpState;
use crate::interp_instructor::state::InterpView;
use crate::interp_instructor::state::Outcome;
use crate::interp_instructor::state::CVT_PROGRAM;
use crate::interp_instructor::vector::normalize;
use crate::interp_instructor::vector::normalized;
use crate::interp_instructor::vector::Vector;
use crate::interp_instructor::ScalerError;
use crate::numerics::wrap_i32;
use crate::numerics::wrap_to_i32;
use crate::numerics::F26d6;
use crate::truetype_loader::F2dot14;

verus! {

/// The length `v` in font units as raw pixel units, where one font unit is
/// `num / den` pixels: `v` times 64 times `num / den`, rounded to the nearest
/// unit, halves away from zero, in 32 bits.
pub open spec fn scaled(v: int, num: int, den: int) -> int {
    if v >= 0 {
        wrap_i32((v * 64 * num + den / 2) / den)
    } else {
        wrap_i32(-(((-v) * 64 * num + den / 2) / den))
    }
}

/// Scales a length in font units to raw pixel units.
pub fn scale_funits(v: i32, num: u64, den: u64) -> (r: i32)
    requires
        den > 0,
    ensures
        r == scaled(v as int, num as int, den as int),
{
    let magnitude: u128 = if v >= 0 { v as u128 } else { (-(v as i64)) as u128 };
    let wide: u128 = magnitude * 64;
    assert(wide * num <= 0x20_0000_0000 * 0xFFFF_FFFF_FFFF_FFFF) by (nonlinear_arith)
        requires
            wide <= 0x20_0000_0000,
            num <= 0xFFFF_FFFF_FFFF_FFFF,
    ;
    assert(wide * num == magnitude * 64 * num) by (nonlinear_arith)
        requires
            wide == magnitude * 64,
    ;
    let q: u128 = (wide * (num as u128) + (den as u128) / 2) / (den as u128);
    let low: u64 = (q % 0x1_0000_0000) as u64;
    let ghost full = q as int;
    if v >= 0 {
        let r = wrap_to_i32(low as i64);
        assert(wrap_i32(low as int) == wrap_i32(full)) by {
            assert((full + 0x8000_0000) % 0x1_0000_0000 == (full % 0x1_0000_0000 + 0x8000_0000)
                % 0x1_0000_0000) by (nonlinear_arith);
        }
        r
    } else {
        let r = wrap_to_i32(-(low as i64));
        assert(wrap_i32(-(low as int)) == wrap_i32(-full)) by {
            assert((-full + 0x8000_0000) % 0x1_0000_0000 == (-(full % 0x1_0000_0000)
                + 0x8000_0000) % 0x1_0000_0000) by (nonlinear_arith);
        }
        r
    }
}

/// The graphics state after an instruction that takes nothing from the
/// stack: the vectors set to an axis (`0x00` to `0x05`), the freedom vector
/// set to the projection vector (`0x0E`), a round state chosen (`0x18`,
/// `0x19`, `0x3D`, `0x7A`, `0x7C`, `0x7D`), or automatic flipping switched
/// (`0x4D`, `0x4E`).
pub open spec fn plain_state(s: InterpState, op: u8) -> InterpState {
    let y = Vector { x: F2dot14(0), y: F2dot14(0x4000) };
    let x = Vector { x: F2dot14(0x4000), y: F2dot14(0) };
    if op == 0x00 {
        InterpState { project_vec: y, dual_prj_vec: y, freedom_vec: y, ..s }
    } else if op == 0x01 {
        InterpState { project_vec: x, dual_prj_vec: x, freedom_vec: x, ..s }
    } else if op == 0x02 {
        InterpState { project_vec: y, dual_prj_vec: y, ..s }
    } else if op == 0x03 {
        InterpState { project_vec: x, dual_prj_vec: x, ..s }
    } else if op == 0x04 {
        InterpState { freedom_vec: y, ..s }
    } else if op == 0x05 {
        InterpState { freedom_vec: x, ..s }
    } else if op == 0x0E {
        InterpState { freedom_vec: s.project_vec, ..s }
    } else if op == 0x18 {
        InterpState { round_state: RoundState::Grid, ..s }
    } else if op == 0x19 {
        InterpState { round_state: RoundState::HalfGrid, ..s }
    } else if op == 0x3D {
        InterpState { round_state: RoundState::DoubleGrid, ..s }
    } else if op == 0x7A {
        InterpState { round_state: RoundState::Off, ..s }
    } else if op == 0x7C {
        InterpState { round_state: RoundState::UpToGrid, ..s }
    } else if op == 0x7D {
        InterpState { round_state: RoundState::DownToGrid, ..s }
    } else if op == 0x4D {
        InterpState { auto_flip: true, ..s }
    } else if op == 0x4E {
        InterpState { auto_flip: false, ..s }
    } else {
        s
    }
}

/// Whether `op` is an instruction that `plain_state` describes, or `EIF`
/// (`0x59`), which does nothing where it is reached.
pub open spec fn is_plain(op: u8) -> bool {
    op <= 0x05 || op == 0x0E || op == 0x18 || op == 0x19 || op == 0x3D || op == 0x7A || op == 0x7C
        || op == 0x7D || op == 0x4D || op == 0x4E || op == 0x59
}

/// Whether dropout control is on after `SCANCTRL` with the argument `n` at
/// `ppem` pixels per em, when it was `before`. The low byte of `n` is a
/// threshold: 255 switches it on, 0 off. Bit 8 switches it on at sizes up to
/// the threshold, bit 11 off at sizes above it.
pub open spec fn scan_rule(n: u32, ppem: u32, before: bool) -> bool {
    let threshold = n % 256;
    if threshold == 255 {
        true
    } else if threshold == 0 {
        false
    } else {
        let on = if (n / 256) % 2 == 1 && ppem <= threshold {
            true
        } else {
            before
        };
        if (n / 2048) % 2 == 1 && ppem > threshold {
            false
        } else {
            on
        }
    }
}

/// The graphics state after an instruction that takes the value `v` from
/// the stack and sets a part of the state by it; `None` where `v` is out of
/// range: a reference point that is no point (`0x10` to `0x12`), a zone
/// other than 0 and 1 (`0x13` to `0x16`), a delta shift above 6 (`0x5F`).
pub open spec fn set_state(m: InterpView, op: u8, v: u32) -> Option<InterpState> {
    let s = m.state;
    let f = F26d6(signed(v) as i32);
    if op == 0x10 {
        if m.point_in_range(v as usize) {
            Some(InterpState { rp0: v as usize, ..s })
        } else {
            None
        }
    } else if op == 0x11 {
        if m.point_in_range(v as usize) {
            Some(InterpState { rp1: v as usize, ..s })
        } else {
            None
        }
    } else if op == 0x12 {
        if m.point_in_range(v as usize) {
            Some(InterpState { rp2: v as usize, ..s })
        } else {
            None
        }
    } else if op == 0x13 {
        if v <= 1 {
            Some(InterpState { zp0: v as usize, ..s })
        } else {
            None
        }
    } else if op == 0x14 {
        if v <= 1 {
            Some(InterpState { zp1: v as usize, ..s })
        } else {
            None
        }
    } else if op == 0x15 {
        if v <= 1 {
            Some(InterpState { zp2: v as usize, ..s })
        } else {
            None
        }
    } else if op == 0x16 {
        if v <= 1 {
            Some(InterpState { zp0: v as usize, zp1: v as usize, zp2: v as usize, ..s })
        } else {
            None
        }
    } else if op == 0x17 {
        Some(InterpState { loopv: v, ..s })
    } else if op == 0x1A {
        Some(InterpState { min_dist: f, ..s })
    } else if op == 0x1D {
        Some(InterpState { cvt_cutin: f, ..s })
    } else if op == 0x1E {
        Some(InterpState { single_width_cut_in: f, ..s })
    } else if op == 0x1F {
        Some(
            InterpState {
                single_width_value: F26d6(
                    scaled(signed(v), m.scale_num as int, m.scale_den as int) as i32,
                ),
                ..s
            },
        )
    } else if op == 0x5E {
        Some(InterpState { delta_base: v, ..s })
    } else if op == 0x5F {
        if v <= 6 {
            Some(InterpState { delta_shift: v, ..s })
        } else {
            None
        }
    } else if op == 0x76 {
        Some(InterpState { round_state: super_round(v, 64), ..s })
    } else if op == 0x77 {
        Some(InterpState { round_state: super_round(v, 45), ..s })
    } else if op == 0x85 {
        Some(InterpState { scan_ctrl: scan_rule(v, m.ppem, s.scan_ctrl), ..s })
    } else {
        Some(s)
    }
}

/// Whether `op` is an instruction that takes one value and sets a part of
/// the graphics state, or one that takes one value and does nothing with it
/// (`0x4F`, `0x7E`, `0x7F`, `0x8D`).
pub open spec fn is_setter(op: u8) -> bool {
    (0x10 <= op <= 0x17) || op == 0x1A || op == 0x1D || op == 0x1E || op == 0x1F || op == 0x5E
        || op == 0x5F || op == 0x76 || op == 0x77 || op == 0x85 || op == 0x4F || op == 0x7E || op
        == 0x7F || op == 0x8D
}

/// The machine after an instruction that takes nothing from the stack.
pub open spec fn plain(m: InterpView, op: u8) -> Outcome {
    Ok(m.with_state(plain_state(m.state, op)))
}

/// The machine after an instruction that takes one value and sets a part of
/// the graphics state. A value out of range makes the glyph invalid.
pub open spec fn setter(m: InterpView, op: u8) -> Outcome {
    if m.depth() < 1 {
        Err(ScalerError::StackUnderflow(m.pc))
    } else {
        match set_state(m.popped(1), op, m.top(0)) {
            Some(s) => Ok(m.popped(1).with_state(s)),
            None => Err(ScalerError::InvalidGlyph),
        }
    }
}

/// The word that holds a component of a vector.
pub open spec fn component_word(c: F2dot14) -> u32 {
    word_of(c.0 as i32)
}

/// The machine after an instruction that moves values between the stack and
/// the state:
///
/// * `SPVFS` (`0x0A`) and `SFVFS` (`0x0B`) take y, then x, and set the
///   projection vectors or the freedom vector to their direction;
/// * `GPV` (`0x0C`) and `GFV` (`0x0D`) push x, then y, of a vector;
/// * `MPPEM` (`0x4B`) pushes the pixels per em, `MPS` (`0x4C`) the point
///   size;
/// * `GETINFO` (`0x88`) takes a selector and pushes 0;
/// * `WS` (`0x42`) takes a value and an index and stores the value, `RS`
///   (`0x43`) takes an index and pushes the stored value;
/// * `WCVTP` (`0x44`) and `WCVTF` (`0x70`) take a value, in pixels or in
///   font units, and an index and set a control value, `RCVT` (`0x45`) takes
///   an index and pushes the control value;
/// * `INSTCTRL` (`0x8E`) takes a selector from 1 to 3 and a value and
///   switches instruction control on if the value is not zero; it is valid
///   in the control value program only.
///
/// An index without an entry, and a selector out of range, make the glyph
/// invalid.
pub open spec fn transfer(m: InterpView, op: u8) -> Outcome {
    if op == 0x0C {
        if m.depth() + 2 > m.max_stack {
            Err(ScalerError::InvalidGlyph)
        } else {
            Ok(
                m.pushed(component_word(m.state.project_vec.x)).pushed(
                    component_word(m.state.project_vec.y),
                ),
            )
        }
    } else if op == 0x0D {
        if m.depth() + 2 > m.max_stack {
            Err(ScalerError::InvalidGlyph)
        } else {
            Ok(
                m.pushed(component_word(m.state.freedom_vec.x)).pushed(
                    component_word(m.state.freedom_vec.y),
                ),
            )
        }
    } else if op == 0x4B {
        m.push(m.ppem)
    } else if op == 0x4C {
        m.push(m.point_size)
    } else if op == 0x8E && m.program != CVT_PROGRAM {
        Err(ScalerError::InvalidInstruction(m.pc, op))
    } else if m.depth() < 1 {
        Err(ScalerError::StackUnderflow(m.pc))
    } else if op == 0x88 {
        Ok(m.popped(1).pushed(0))
    } else if op == 0x43 {
        if m.top(0) < m.storage.len() {
            Ok(m.popped(1).pushed(m.storage[m.top(0) as int]))
        } else {
            Err(ScalerError::InvalidGlyph)
        }
    } else if op == 0x45 {
        if m.top(0) < m.cv_table.len() {
            Ok(m.popped(1).pushed(word_of(m.cv_table[m.top(0) as int].0)))
        } else {
            Err(ScalerError::InvalidGlyph)
        }
    } else if m.depth() < 2 {
        Err(ScalerError::StackUnderflow(m.pc))
    } else if op == 0x0A {
        let v = normalized(signed(m.top(1)), signed(m.top(0)));
        Ok(m.popped(2).with_state(InterpState { project_vec: v, dual_prj_vec: v, ..m.state }))
    } else if op == 0x0B {
        let v = normalized(signed(m.top(1)), signed(m.top(0)));
        Ok(m.popped(2).with_state(InterpState { freedom_vec: v, ..m.state }))
    } else if op == 0x42 {
        if m.top(1) < m.storage.len() {
            Ok(InterpView { storage: m.storage.update(m.top(1) as int, m.top(0)), ..m.popped(2) })
        } else {
            Err(ScalerError::InvalidGlyph)
        }
    } else if op == 0x44 {
        if m.top(1) < m.cv_table.len() {
            Ok(
                InterpView {
                    cv_table: m.cv_table.update(
                        m.top(1) as int,
                        F26d6(signed(m.top(0)) as i32),
                    ),
                    ..m.popped(2)
                },
            )
        } else {
            Err(ScalerError::InvalidGlyph)
        }
    } else if op == 0x70 {
        if m.top(1) < m.cv_table.len() {
            Ok(
                InterpView {
                    cv_table: m.cv_table.update(
                        m.top(1) as int,
                        F26d6(
                            scaled(signed(m.top(0)), m.scale_num as int, m.scale_den as int) as i32,
                        ),
                    ),
                    ..m.popped(2)
                },
            )
        } else {
            Err(ScalerError::InvalidGlyph)
        }
    } else {
        if 1 <= m.top(0) <= 3 {
            Ok(
                m.popped(2).with_state(
                    InterpState { instruct_ctrl: m.top(1) != 0, ..m.state },
                ),
            )
        } else {
            Err(ScalerError::InvalidGlyph)
        }
    }
}

/// Whether `op` is an instruction that `transfer` describes.
pub open spec fn is_transfer(op: u8) -> bool {
    (0x0A <= op <= 0x0D) || op == 0x4B || op == 0x4C || op == 0x88 || (0x42 <= op <= 0x45) || op
        == 0x70 || op == 0x8E
}

fn compute_plain(s: InterpState, op: u8) -> (r: InterpState)
    ensures
        r == plain_state(s, op),
{
    let y = Vector { x: F2dot14(0), y: F2dot14(0x4000) };
    let x = Vector { x: F2dot14(0x4000), y: F2dot14(0) };
    let mut r = s;
    if op == 0x00 {
        r.project_vec = y;
        r.dual_prj_vec = y;
        r.freedom_vec = y;
    } else if op == 0x01 {
        r.project_vec = x;
        r.dual_prj_vec = x;
        r.freedom_vec = x;
    } else if op == 0x02 {
        r.project_vec = y;
        r.dual_prj_vec = y;
    } else if op == 0x03 {
        r.project_vec = x;
        r.dual_prj_vec = x;
    } else if op == 0x04 {
        r.freedom_vec = y;
    } else if op == 0x05 {
        r.freedom_vec = x;
    } else if op == 0x0E {
        r.freedom_vec = s.project_vec;
    } else if op == 0x18 {
        r.round_state = RoundState::Grid;
    } else if op == 0x19 {
        r.round_state = RoundState::HalfGrid;
    } else if op == 0x3D {
        r.round_state = RoundState::DoubleGrid;
    } else if op == 0x7A {
        r.round_state = RoundState::Off;
    } else if op == 0x7C {
        r.round_state = RoundState::UpToGrid;
    } else if op == 0x7D {
        r.round_state = RoundState::DownToGrid;
    } else if op == 0x4D {
        r.auto_flip = true;
    } else if op == 0x4E {
        r.auto_flip = false;
    }
    r
}

fn compute_scan_rule(n: u32, ppem: u32, before: bool) -> (r: bool)
    ensures
        r == scan_rule(n, ppem, before),
{
    let threshold = n % 256;
    if threshold == 255 {
        true
    } else if threshold == 0 {
        false
    } else {
        let on = if (n / 256) % 2 == 1 && ppem <= threshold { true } else { before };
        if (n / 2048) % 2 == 1 && ppem > threshold {
            false
        } else {
            on
        }
    }
}

impl Interp {
    /// Whether `p` names a point of one of the zones.
    pub fn point_in_range(&self, p: usize) -> (b: bool)
        ensures
            b == self@.point_in_range(p),
    {
        p == 0 || p < self.twilight.points.len() || p < self.glyph.points.len()
    }

    fn compute_set(&self, op: u8, v: u32) -> (r: Option<InterpState>)
        requires
            self@.scale_den > 0,
        ensures
            r == set_state(self@, op, v),
    {
        let mut s = self.state;
        let f = F26d6(to_signed(v));
        let p = v as usize;
        if op == 0x10 || op == 0x11 || op == 0x12 {
            if !self.point_in_range(p) {
                return None;
            }
            if op == 0x10 {
                s.rp0 = p;
            } else if op == 0x11 {
                s.rp1 = p;
            } else {
                s.rp2 = p;
            }
        } else if op == 0x13 || op == 0x14 || op == 0x15 || op == 0x16 {
            if v > 1 {
                return None;
            }
            if op == 0x13 {
                s.zp0 = p;
            } else if op == 0x14 {
                s.zp1 = p;
            } else if op == 0x15 {
                s.zp2 = p;
            } else {
                s.zp0 = p;
                s.zp1 = p;
                s.zp2 = p;
            }
        } else if op == 0x17 {
            s.loopv = v;
        } else if op == 0x1A {
            s.min_dist = f;
        } else if op == 0x1D {
            s.cvt_cutin = f;
        } else if op == 0x1E {
            s.single_width_cut_in = f;
        } else if op == 0x1F {
            s.single_width_value = F26d6(
                scale_funits(to_signed(v), self.scale_num, self.scale_den),
            );
        } else if op == 0x5E {
            s.delta_base = v;
        } else if op == 0x5F {
            if v > 6 {
                return None;
            }
            s.delta_shift = v;
        } else if op == 0x76 {
            s.round_state = decode_super_round(v, 64);
        } else if op == 0x77 {
            s.round_state = decode_super_round(v, 45);
        } else if op == 0x85 {
            s.scan_ctrl = compute_scan_rule(v, self.ppem, s.scan_ctrl);
        }
        Some(s)
    }

    /// Runs an instruction that takes nothing from the stack.
    pub(crate) fn do_plain(&mut self, op: u8) -> (r: Result<(), ScalerError>)
        requires
            old(self)@.wf(),
        ensures
            agrees(r, final(self)@, plain(old(self)@, op)),
            r is Ok ==> final(self)@.wf(),
    {
        self.state = compute_plain(self.state, op);
        Ok(())
    }

    /// Runs an instruction that takes one value and sets a part of the
    /// graphics state.
    pub(crate) fn do_setter(&mut self, op: u8) -> (r: Result<(), ScalerError>)
        requires
            old(self)@.wf(),
        ensures
            agrees(r, final(self)@, setter(old(self)@, op)),
            r is Ok ==> final(self)@.wf(),
    {
        let v = self.pop()?;
        match self.compute_set(op, v) {
            Some(s) => {
                self.state = s;
                Ok(())
            },
            None => Err(ScalerError::InvalidGlyph),
        }
    }

    /// Runs an instruction that moves values between the stack and the
    /// state.
    pub(crate) fn do_transfer(&mut self, op: u8) -> (r: Result<(), ScalerError>)
        requires
            old(self)@.wf(),
            is_transfer(op),
        ensures
            agrees(r, final(self)@, transfer(old(self)@, op)),
            r is Ok ==> final(self)@.wf(),
    {
        let depth = self.stack.len();
        if op == 0x0C || op == 0x0D {
            if self.max_stack - depth < 2 {
                return Err(ScalerError::InvalidGlyph);
            }
            let v = if op == 0x0C { self.state.project_vec } else { self.state.freedom_vec };
            self.stack.push(to_word(v.x.0 as i32));
            self.stack.push(to_word(v.y.0 as i32));
            Ok(())
        } else if op == 0x4B {
            let v = self.ppem;
            self.push(v)
        } else if op == 0x4C {
            let v = self.point_size;
            self.push(v)
        } else if op == 0x8E && self.program != CVT_PROGRAM {
            Err(ScalerError::InvalidInstruction(self.pc, op))
        } else if depth < 1 {
            Err(ScalerError::StackUnderflow(self.pc))
        } else if op == 0x88 {
            let _ = self.pop()?;
            self.stack.push(0);
            Ok(())
        } else if op == 0x43 {
            let i = self.stack[depth - 1] as usize;
            if i < self.storage.len() {
                let v = self.storage[i];
                let _ = self.pop()?;
                self.stack.push(v);
                Ok(())
            } else {
                Err(ScalerError::InvalidGlyph)
            }
        } else if op == 0x45 {
            let i = self.stack[depth - 1] as usize;
            if i < self.cv_table.len() {
                let v = to_word(self.cv_table[i].0);
                let _ = self.pop()?;
                self.stack.push(v);
                Ok(())
            } else {
                Err(ScalerError::InvalidGlyph)
            }
        } else if depth < 2 {
            Err(ScalerError::StackUnderflow(self.pc))
        } else {
            let b = self.pop()?;
            let a = self.pop()?;
            assert(self@ == old(self)@.popped(2)) by {
                assert(self@.stack =~= old(self)@.popped(2).stack);
            }
            if op == 0x0A {
                let v = normalize(to_signed(a), to_signed(b));
                self.state.project_vec = v;
                self.state.dual_prj_vec = v;
                Ok(())
            } else if op == 0x0B {
                let v = normalize(to_signed(a), to_signed(b));
                self.state.freedom_vec = v;
                Ok(())
            } else if op == 0x42 {
                let i = a as usize;
                if i < self.storage.len() {
                    self.storage.set(i, b);
                    Ok(())
                } else {
                    Err(ScalerError::InvalidGlyph)
                }
            } else if op == 0x44 {
                let i = a as usize;
                if i < self.cv_table.len() {
                    self.cv_table.set(i, F26d6(to_signed(b)));
                    Ok(())
                } else {
                    Err(ScalerError::InvalidGlyph)
                }
            } else if op == 0x70 {
                let i = a as usize;
                if i < self.cv_table.len() {
                    let v = F26d6(scale_funits(to_signed(b), self.scale_num, self.scale_den));
                    self.cv_table.set(i, v);
                    Ok(())
                } else {
                    Err(ScalerError::InvalidGlyph)
                }
            } else {
                if 1 <= b && b <= 3 {
                    self.state.instruct_ctrl = a != 0;
                    Ok(())
                } else {
                    Err(ScalerError::InvalidGlyph)
                }
            }
        }
    }
}

} // verus!

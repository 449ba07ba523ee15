//! Instructions that work on the stack alone: pushing, rearranging,
//! arithmetic and comparison.

use vstd::prelude::*;

use crate::interp_instructor::rounding::round;
use crate::interp_instructor::rounding::rounded;
use crate::interp_instructor::rounding::RoundState;
use crate::interp_instructor::state::agrees;
use crate::interp_instructor::state::signed;
use crate::interp_instructor::state::to_signed;
use crate::interp_instructor::state::to_word;
use crate::interp_instructor::state::word;
use crate::interp_instructor::state::Interp;
use crate::interp_instructor::state::InterpView;
use crate::interp_instructor::state::Outcome;
use crate::interp_instructor::ScalerError;
use crate::numerics::div_i64_toward_zero;
use crate::numerics::div_toward_zero;
use crate::numerics::wrap_to_i32;
use crate::truetype_loader::binary_reader::be_u16;
use crate::truetype_loader::binary_reader::BinaryReader;

verus! {

/// The word that stands for a truth value.
pub open spec fn truth(b: bool) -> u32 {
    if b {
        1
    } else {
        0
    }
}

/// What the instruction `op` makes of the two topmost values of the stack,
/// `a` below `b`; `None` where it has no result. Comparisons and extremes
/// read the words as signed numbers, arithmetic as 26.6 numbers and wraps.
pub open spec fn binary_result(op: u8, a: u32, b: u32) -> Option<u32> {
    let x = signed(a);
    let y = signed(b);
    if op == 0x50 {
        Some(truth(x < y))
    } else if op == 0x51 {
        Some(truth(x <= y))
    } else if op == 0x52 {
        Some(truth(x > y))
    } else if op == 0x53 {
        Some(truth(x >= y))
    } else if op == 0x54 {
        Some(truth(a == b))
    } else if op == 0x55 {
        Some(truth(a != b))
    } else if op == 0x5A {
        Some(truth(a != 0 && b != 0))
    } else if op == 0x5B {
        Some(truth(a != 0 || b != 0))
    } else if op == 0x60 {
        Some(word(x + y))
    } else if op == 0x61 {
        Some(word(x - y))
    } else if op == 0x62 {
        if b == 0 {
            None
        } else {
            Some(word(div_toward_zero(x * 64, y)))
        }
    } else if op == 0x63 {
        Some(word((x * y) / 64))
    } else if op == 0x8B {
        Some(if x > y {
            a
        } else {
            b
        })
    } else if op == 0x8C {
        Some(if x < y {
            a
        } else {
            b
        })
    } else {
        None
    }
}

/// Whether `op` is an instruction that takes two values and gives one.
pub open spec fn is_binary(op: u8) -> bool {
    (0x50 <= op <= 0x55) || op == 0x5A || op == 0x5B || (0x60 <= op <= 0x63) || op == 0x8B || op
        == 0x8C
}

/// What the instruction `op` makes of the top `a` of the stack under the
/// round state `state`.
pub open spec fn unary_result(op: u8, a: u32, state: RoundState) -> u32 {
    let x = signed(a);
    if op == 0x56 {
        truth(rounded(state, x) % 128 == 64)
    } else if op == 0x57 {
        truth(rounded(state, x) % 128 == 0)
    } else if op == 0x5C {
        truth(a == 0)
    } else if op == 0x64 {
        word(if x < 0 {
            -x
        } else {
            x
        })
    } else if op == 0x65 {
        word(-x)
    } else if op == 0x66 {
        word(64 * (x / 64))
    } else if op == 0x67 {
        word(64 * ((x + 63) / 64))
    } else if 0x68 <= op <= 0x6B {
        word(rounded(state, x))
    } else {
        a
    }
}

/// Whether `op` is an instruction that takes one value and gives one.
pub open spec fn is_unary(op: u8) -> bool {
    op == 0x56 || op == 0x57 || op == 0x5C || (0x64 <= op <= 0x6F)
}

/// The machine after the instruction `op`, which takes two values and gives
/// one. Dividing by zero is no valid instruction.
pub open spec fn binary(m: InterpView, op: u8) -> Outcome {
    if m.depth() < 2 {
        Err(ScalerError::StackUnderflow(m.pc))
    } else {
        match binary_result(op, m.top(1), m.top(0)) {
            Some(v) => Ok(m.popped(2).pushed(v)),
            None => Err(ScalerError::InvalidInstruction(m.pc, op)),
        }
    }
}

/// The machine after the instruction `op`, which takes one value and gives
/// one.
pub open spec fn unary(m: InterpView, op: u8) -> Outcome {
    if m.depth() < 1 {
        Err(ScalerError::StackUnderflow(m.pc))
    } else {
        Ok(m.popped(1).pushed(unary_result(op, m.top(0), m.state.round_state)))
    }
}

fn truth_word(b: bool) -> (w: u32)
    ensures
        w == truth(b),
{
    if b {
        1
    } else {
        0
    }
}

fn wrapped_word(v: i64) -> (w: u32)
    ensures
        w == word(v as int),
{
    to_word(wrap_to_i32(v))
}

fn compute_binary(op: u8, a: u32, b: u32) -> (r: Option<u32>)
    ensures
        r == binary_result(op, a, b),
{
    let x: i64 = to_signed(a) as i64;
    let y: i64 = to_signed(b) as i64;
    if op == 0x50 {
        Some(truth_word(x < y))
    } else if op == 0x51 {
        Some(truth_word(x <= y))
    } else if op == 0x52 {
        Some(truth_word(x > y))
    } else if op == 0x53 {
        Some(truth_word(x >= y))
    } else if op == 0x54 {
        Some(truth_word(a == b))
    } else if op == 0x55 {
        Some(truth_word(a != b))
    } else if op == 0x5A {
        Some(truth_word(a != 0 && b != 0))
    } else if op == 0x5B {
        Some(truth_word(a != 0 || b != 0))
    } else if op == 0x60 {
        Some(wrapped_word(x + y))
    } else if op == 0x61 {
        Some(wrapped_word(x - y))
    } else if op == 0x62 {
        if b == 0 {
            None
        } else {
            Some(wrapped_word(div_i64_toward_zero(x * 64, y)))
        }
    } else if op == 0x63 {
        assert(-0x4000_0000_0000_0000 <= x * y <= 0x4000_0000_0000_0000) by (nonlinear_arith)
            requires
                -0x8000_0000 <= x <= 0x7FFF_FFFF,
                -0x8000_0000 <= y <= 0x7FFF_FFFF,
        ;
        let p: i64 = x * y;
        assert(p >> 6 == p / 64) by (bit_vector);
        Some(wrapped_word(p >> 6))
    } else if op == 0x8B {
        Some(if x > y { a } else { b })
    } else if op == 0x8C {
        Some(if x < y { a } else { b })
    } else {
        None
    }
}

fn compute_unary(op: u8, a: u32, state: RoundState) -> (r: u32)
    ensures
        r == unary_result(op, a, state),
{
    let v: i32 = to_signed(a);
    let x: i64 = v as i64;
    if op == 0x56 || op == 0x57 {
        let r: i64 = round(state, v) as i64;
        let m: i64 = (r + 0x8000_0000) % 128;
        assert(m == (r as int) % 128) by {
            assert((r + 0x8000_0000) % 128 == (r as int) % 128) by (nonlinear_arith)
                requires
                    -0x8000_0000 <= r <= 0x7FFF_FFFF,
            ;
        }
        if op == 0x56 {
            truth_word(m == 64)
        } else {
            truth_word(m == 0)
        }
    } else if op == 0x5C {
        truth_word(a == 0)
    } else if op == 0x64 {
        wrapped_word(if x < 0 { -x } else { x })
    } else if op == 0x65 {
        wrapped_word(-x)
    } else if op == 0x66 {
        assert(x >> 6 == x / 64) by (bit_vector);
        wrapped_word(64 * (x >> 6))
    } else if op == 0x67 {
        let y: i64 = x + 63;
        assert(y >> 6 == y / 64) by (bit_vector);
        wrapped_word(64 * (y >> 6))
    } else if 0x68 <= op && op <= 0x6B {
        to_word(round(state, v))
    } else {
        a
    }
}

/// The 16-bit number `v`, read as a signed number and extended to the 32
/// bits of a word of the stack.
pub open spec fn sign_extended(v: u16) -> u32 {
    if v >= 0x8000 {
        (v + 0xFFFF_0000) as u32
    } else {
        v as u32
    }
}

/// Extends a signed 16-bit number to 32 bits.
pub fn sign_extend(v: u16) -> (w: u32)
    ensures
        w == sign_extended(v),
{
    if v >= 0x8000 {
        v as u32 + 0xFFFF_0000
    } else {
        v as u32
    }
}

/// The word of the stack that the two bytes of `code` at `at` stand for: a
/// signed 16-bit number, extended to 32 bits.
pub open spec fn code_word(code: Seq<u8>, at: int) -> u32 {
    sign_extended(be_u16(code, at))
}

fn read_code_word(code: &Vec<u8>, at: usize) -> (w: u32)
    requires
        at + 2 <= code@.len(),
    ensures
        w == code_word(code@, at as int),
{
    let mut reader = BinaryReader { data: code.as_slice(), pos: at };
    match reader.read_u16() {
        Ok(v) => sign_extend(v),
        Err(_) => 0,
    }
}

/// The machine after `n` bytes of the program from `from` on have been put
/// on the stack, each as a word of its own. The program goes on behind them.
pub open spec fn push_bytes(m: InterpView, op: u8, from: int, n: int) -> Outcome {
    if from + n > m.code().len() {
        Err(ScalerError::InvalidInstruction(m.pc, op))
    } else if m.depth() + n > m.max_stack {
        Err(ScalerError::InvalidGlyph)
    } else {
        Ok(
            InterpView {
                stack: m.stack + Seq::new(n as nat, |i: int| m.code()[from + i] as u32),
                pc: (from + n) as usize,
                ..m
            },
        )
    }
}

/// The machine after `n` words of the program from `from` on have been put
/// on the stack. The program goes on behind them.
pub open spec fn push_words(m: InterpView, op: u8, from: int, n: int) -> Outcome {
    if from + 2 * n > m.code().len() {
        Err(ScalerError::InvalidInstruction(m.pc, op))
    } else if m.depth() + n > m.max_stack {
        Err(ScalerError::InvalidGlyph)
    } else {
        Ok(
            InterpView {
                stack: m.stack + Seq::new(n as nat, |i: int| code_word(m.code(), from + 2 * i)),
                pc: (from + 2 * n) as usize,
                ..m
            },
        )
    }
}

/// The machine after a push instruction. The instructions `0xB0` to `0xB7`
/// push one to eight bytes, `0xB8` to `0xBF` one to eight words; `0x40` and
/// `0x41` push as many bytes or words as the byte behind them says.
pub open spec fn push_op(m: InterpView, op: u8) -> Outcome {
    if op == 0x40 {
        if m.pc + 1 >= m.code().len() {
            Err(ScalerError::InvalidInstruction(m.pc, op))
        } else {
            push_bytes(m, op, m.pc + 2, m.code()[m.pc + 1] as int)
        }
    } else if op == 0x41 {
        if m.pc + 1 >= m.code().len() {
            Err(ScalerError::InvalidInstruction(m.pc, op))
        } else {
            push_words(m, op, m.pc + 2, m.code()[m.pc + 1] as int)
        }
    } else if op < 0xB8 {
        push_bytes(m, op, m.pc + 1, op - 0xAF)
    } else {
        push_words(m, op, m.pc + 1, op - 0xB7)
    }
}

/// Whether `op` is a push instruction.
pub open spec fn is_push(op: u8) -> bool {
    op == 0x40 || op == 0x41 || 0xB0 <= op <= 0xBF
}

/// The machine after an instruction that rearranges the stack: `DUP`
/// (0x20), `POP` (0x21), `CLEAR` (0x22), `SWAP` (0x23), `DEPTH` (0x24),
/// `CINDEX` (0x25), `MINDEX` (0x26) and `ROLL` (0x8A). The index of `CINDEX`
/// and `MINDEX` counts from the top, from 1 on, once the index itself is
/// taken away; an index without a value makes the glyph invalid.
pub open spec fn rearrange(m: InterpView, op: u8) -> Outcome {
    if op == 0x22 {
        Ok(InterpView { stack: Seq::empty(), ..m })
    } else if op == 0x24 {
        m.push(m.depth() as u32)
    } else if m.depth() < 1 {
        Err(ScalerError::StackUnderflow(m.pc))
    } else if op == 0x20 {
        m.push(m.top(0))
    } else if op == 0x21 {
        Ok(m.popped(1))
    } else if op == 0x25 {
        let k = m.top(0) as int;
        if 1 <= k <= m.depth() - 1 {
            Ok(m.popped(1).pushed(m.top(k)))
        } else {
            Err(ScalerError::InvalidGlyph)
        }
    } else if op == 0x26 {
        let k = m.top(0) as int;
        if 1 <= k <= m.depth() - 1 {
            Ok(
                InterpView {
                    stack: m.stack.subrange(0, m.depth() - 1).remove(m.depth() - 1 - k).push(
                        m.top(k),
                    ),
                    ..m
                },
            )
        } else {
            Err(ScalerError::InvalidGlyph)
        }
    } else if m.depth() < 2 {
        Err(ScalerError::StackUnderflow(m.pc))
    } else if op == 0x23 {
        Ok(m.popped(2).pushed(m.top(0)).pushed(m.top(1)))
    } else if m.depth() < 3 {
        Err(ScalerError::StackUnderflow(m.pc))
    } else {
        Ok(m.popped(3).pushed(m.top(1)).pushed(m.top(0)).pushed(m.top(2)))
    }
}

/// Whether `op` is an instruction that rearranges the stack.
pub open spec fn is_rearrange(op: u8) -> bool {
    (0x20 <= op <= 0x26) || op == 0x8A
}

impl Interp {
    /// Runs an instruction that takes two values and gives one.
    pub(crate) fn do_binary(&mut self, op: u8) -> (r: Result<(), ScalerError>)
        requires
            old(self)@.wf(),
        ensures
            agrees(r, final(self)@, binary(old(self)@, op)),
            r is Ok ==> final(self)@.wf(),
    {
        if self.stack.len() < 2 {
            return Err(ScalerError::StackUnderflow(self.pc));
        }
        let b = self.pop()?;
        let a = self.pop()?;
        match compute_binary(op, a, b) {
            Some(v) => {
                self.stack.push(v);
                assert(self@.stack =~= old(self)@.popped(2).pushed(v).stack);
                Ok(())
            },
            None => Err(ScalerError::InvalidInstruction(self.pc, op)),
        }
    }

    /// Runs an instruction that takes one value and gives one.
    pub(crate) fn do_unary(&mut self, op: u8) -> (r: Result<(), ScalerError>)
        requires
            old(self)@.wf(),
        ensures
            agrees(r, final(self)@, unary(old(self)@, op)),
            r is Ok ==> final(self)@.wf(),
    {
        let a = self.pop()?;
        let v = compute_unary(op, a, self.state.round_state);
        self.stack.push(v);
        Ok(())
    }

    fn do_push_bytes(&mut self, op: u8, from: usize, n: usize) -> (r: Result<(), ScalerError>)
        requires
            old(self)@.wf(),
            n <= 255,
            from <= old(self)@.code().len() + 1,
        ensures
            agrees(r, final(self)@, push_bytes(old(self)@, op, from as int, n as int)),
            r is Ok ==> final(self)@.wf(),
    {
        let len = self.code().len();
        if from > len || len - from < n {
            return Err(ScalerError::InvalidInstruction(self.pc, op));
        }
        if self.max_stack - self.stack.len() < n {
            return Err(ScalerError::InvalidGlyph);
        }
        let mut i: usize = 0;
        while i < n
            invariant
                i <= n,
                from + n <= old(self)@.code().len(),
                len == old(self)@.code().len(),
                old(self)@.depth() + n <= old(self)@.max_stack,
                self@ == (InterpView {
                    stack: old(self)@.stack + Seq::new(
                        i as nat,
                        |k: int| old(self)@.code()[from + k] as u32,
                    ),
                    ..old(self)@
                }),
            decreases n - i,
        {
            let b = self.code()[from + i];
            self.stack.push(b as u32);
            i = i + 1;
            assert(self@.stack =~= old(self)@.stack + Seq::new(
                i as nat,
                |k: int| old(self)@.code()[from + k] as u32,
            ));
        }
        self.pc = from + n;
        Ok(())
    }

    fn do_push_words(&mut self, op: u8, from: usize, n: usize) -> (r: Result<(), ScalerError>)
        requires
            old(self)@.wf(),
            n <= 255,
            from <= old(self)@.code().len() + 1,
        ensures
            agrees(r, final(self)@, push_words(old(self)@, op, from as int, n as int)),
            r is Ok ==> final(self)@.wf(),
    {
        let len = self.code().len();
        if from > len || len - from < 2 * n {
            return Err(ScalerError::InvalidInstruction(self.pc, op));
        }
        if self.max_stack - self.stack.len() < n {
            return Err(ScalerError::InvalidGlyph);
        }
        let mut i: usize = 0;
        while i < n
            invariant
                i <= n,
                from + 2 * n <= old(self)@.code().len(),
                len == old(self)@.code().len(),
                old(self)@.depth() + n <= old(self)@.max_stack,
                self@ == (InterpView {
                    stack: old(self)@.stack + Seq::new(
                        i as nat,
                        |k: int| code_word(old(self)@.code(), from + 2 * k),
                    ),
                    ..old(self)@
                }),
            decreases n - i,
        {
            let w = read_code_word(self.code(), from + 2 * i);
            self.stack.push(w);
            i = i + 1;
            assert(self@.stack =~= old(self)@.stack + Seq::new(
                i as nat,
                |k: int| code_word(old(self)@.code(), from + 2 * k),
            ));
        }
        self.pc = from + 2 * n;
        Ok(())
    }

    /// Runs a push instruction.
    pub(crate) fn do_push(&mut self, op: u8) -> (r: Result<(), ScalerError>)
        requires
            old(self)@.wf(),
            is_push(op),
            old(self).pc < old(self)@.code().len(),
        ensures
            agrees(r, final(self)@, push_op(old(self)@, op)),
            r is Ok ==> final(self)@.wf(),
    {
        let pc = self.pc;
        let len = self.code().len();
        if op == 0x40 || op == 0x41 {
            if pc + 1 >= len {
                return Err(ScalerError::InvalidInstruction(pc, op));
            }
            let n = self.code()[pc + 1] as usize;
            if op == 0x40 {
                self.do_push_bytes(op, pc + 2, n)
            } else {
                self.do_push_words(op, pc + 2, n)
            }
        } else if op < 0xB8 {
            self.do_push_bytes(op, pc + 1, (op - 0xAF) as usize)
        } else {
            self.do_push_words(op, pc + 1, (op - 0xB7) as usize)
        }
    }

    /// Runs an instruction that rearranges the stack.
    pub(crate) fn do_rearrange(&mut self, op: u8) -> (r: Result<(), ScalerError>)
        requires
            old(self)@.wf(),
            is_rearrange(op),
        ensures
            agrees(r, final(self)@, rearrange(old(self)@, op)),
            r is Ok ==> final(self)@.wf(),
    {
        let depth = self.stack.len();
        if op == 0x22 {
            self.stack.clear();
            Ok(())
        } else if op == 0x24 {
            self.push(depth as u32)
        } else if depth < 1 {
            Err(ScalerError::StackUnderflow(self.pc))
        } else if op == 0x20 {
            let v = self.stack[depth - 1];
            self.push(v)
        } else if op == 0x21 {
            let _ = self.pop()?;
            Ok(())
        } else if op == 0x25 {
            let k = self.stack[depth - 1] as usize;
            if 1 <= k && k <= depth - 1 {
                let v = self.stack[depth - 1 - k];
                let _ = self.pop()?;
                self.stack.push(v);
                Ok(())
            } else {
                Err(ScalerError::InvalidGlyph)
            }
        } else if op == 0x26 {
            let k = self.stack[depth - 1] as usize;
            if 1 <= k && k <= depth - 1 {
                let _ = self.pop()?;
                let v = self.stack.remove(depth - 1 - k);
                self.stack.push(v);
                Ok(())
            } else {
                Err(ScalerError::InvalidGlyph)
            }
        } else if depth < 2 {
            Err(ScalerError::StackUnderflow(self.pc))
        } else if op == 0x23 {
            let b = self.pop()?;
            let a = self.pop()?;
            self.stack.push(b);
            self.stack.push(a);
            assert(self@.stack =~= old(self)@.popped(2).pushed(b).pushed(a).stack);
            Ok(())
        } else if depth < 3 {
            Err(ScalerError::StackUnderflow(self.pc))
        } else {
            let a = self.pop()?;
            let b = self.pop()?;
            let c = self.pop()?;
            self.stack.push(b);
            self.stack.push(a);
            self.stack.push(c);
            assert(self@.stack =~= old(self)@.popped(3).pushed(b).pushed(a).pushed(c).stack);
            Ok(())
        }
    }
}

} // verus!

//! Instructions that decide where the program goes on: branches, jumps,
//! and the definition and call of functions and user instructions.

use vstd::prelude::*;

use crate::interp_instructor::state::agrees;
use crate::interp_instructor::state::signed;
use crate::interp_instructor::state::Definition;
use crate::interp_instructor::state::Frame;
use crate::interp_instructor::state::Interp;
use crate::interp_instructor::state::InterpView;
use crate::interp_instructor::state::Outcome;
use crate::interp_instructor::state::GLYPH_PROGRAM;
use crate::interp_instructor::state::MAX_CALLS;
use crate::interp_instructor::ScalerError;

verus! {

/// The number of bytes that the instruction at `pos` takes with the data
/// that follows it in the program.
pub open spec fn instruction_length(code: Seq<u8>, pos: int) -> int {
    let op = code[pos];
    if op == 0x40 {
        if pos + 1 < code.len() {
            2 + code[pos + 1]
        } else {
            2
        }
    } else if op == 0x41 {
        if pos + 1 < code.len() {
            2 + 2 * code[pos + 1]
        } else {
            2
        }
    } else if 0xB0 <= op <= 0xB7 {
        2 + (op - 0xB0)
    } else if 0xB8 <= op <= 0xBF {
        1 + 2 * (op - 0xB7)
    } else {
        1
    }
}

/// The place behind the instruction that ends the branch which is being
/// passed over from `pos` on, `depth` conditionals deep: the `EIF` that
/// matches, or, where `stop_at_else` is set, the `ELSE` that matches if it
/// comes first. `None` where the program ends before, or in the middle of
/// an instruction.
pub open spec fn branch_end(code: Seq<u8>, pos: int, depth: nat, stop_at_else: bool) -> Option<int>
    decreases code.len() - pos,
{
    if pos < 0 || pos >= code.len() || pos + instruction_length(code, pos) > code.len() {
        None
    } else {
        let next = pos + instruction_length(code, pos);
        if code[pos] == 0x58 {
            branch_end(code, next, depth + 1, stop_at_else)
        } else if code[pos] == 0x59 {
            if depth == 0 {
                Some(next)
            } else {
                branch_end(code, next, (depth - 1) as nat, stop_at_else)
            }
        } else if code[pos] == 0x1B && depth == 0 && stop_at_else {
            Some(next)
        } else {
            branch_end(code, next, depth, stop_at_else)
        }
    }
}

/// The place behind the `ENDF` that ends the definition whose body begins
/// at `pos`. `None` where the program ends before, or where another
/// definition begins inside the body.
pub open spec fn definition_end(code: Seq<u8>, pos: int) -> Option<int>
    decreases code.len() - pos,
{
    if pos < 0 || pos >= code.len() || pos + instruction_length(code, pos) > code.len() {
        None
    } else if code[pos] == 0x2D {
        Some(pos + 1)
    } else if code[pos] == 0x2C || code[pos] == 0x89 {
        None
    } else {
        definition_end(code, pos + instruction_length(code, pos))
    }
}

fn length_at(code: &Vec<u8>, pos: usize) -> (n: usize)
    requires
        pos < code@.len(),
    ensures
        n == instruction_length(code@, pos as int),
        1 <= n <= 512,
{
    let op = code[pos];
    let len = code.len();
    if op == 0x40 {
        if pos + 1 < len {
            2 + code[pos + 1] as usize
        } else {
            2
        }
    } else if op == 0x41 {
        if pos + 1 < len {
            2 + 2 * (code[pos + 1] as usize)
        } else {
            2
        }
    } else if 0xB0 <= op && op <= 0xB7 {
        2 + (op - 0xB0) as usize
    } else if 0xB8 <= op && op <= 0xBF {
        1 + 2 * ((op - 0xB7) as usize)
    } else {
        1
    }
}

fn find_branch_end(code: &Vec<u8>, start: usize, stop_at_else: bool) -> (r: Option<usize>)
    ensures
        match r {
            Some(t) => branch_end(code@, start as int, 0, stop_at_else) == Some(t as int),
            None => branch_end(code@, start as int, 0, stop_at_else) is None,
        },
{
    let len = code.len();
    let mut pos: usize = start;
    let mut depth: usize = 0;
    while pos < len
        invariant
            len == code@.len(),
            depth <= pos,
            branch_end(code@, start as int, 0, stop_at_else) == branch_end(
                code@,
                pos as int,
                depth as nat,
                stop_at_else,
            ),
        decreases len - pos,
    {
        let op = code[pos];
        let n = length_at(code, pos);
        if len - pos < n {
            return None;
        }
        let next: usize = pos + n;
        if op == 0x58 {
            depth = depth + 1;
        } else if op == 0x59 {
            if depth == 0 {
                return Some(next);
            }
            depth = depth - 1;
        } else if op == 0x1B && depth == 0 && stop_at_else {
            return Some(next);
        }
        pos = next;
    }
    None
}

fn find_definition_end(code: &Vec<u8>, start: usize) -> (r: Option<usize>)
    ensures
        match r {
            Some(t) => definition_end(code@, start as int) == Some(t as int),
            None => definition_end(code@, start as int) is None,
        },
{
    let len = code.len();
    let mut pos: usize = start;
    while pos < len
        invariant
            len == code@.len(),
            definition_end(code@, start as int) == definition_end(code@, pos as int),
        decreases len - pos,
    {
        let op = code[pos];
        let n = length_at(code, pos);
        if len - pos < n {
            return None;
        }
        if op == 0x2D {
            return Some(pos + 1);
        }
        if op == 0x2C || op == 0x89 {
            return None;
        }
        pos = pos + n;
    }
    None
}

/// The place that lies `offset` bytes from `pc`, if it lies inside the
/// program `code` or just behind it.
pub open spec fn jump_target(code: Seq<u8>, pc: usize, offset: int) -> Option<usize> {
    if 0 <= pc + offset <= code.len() {
        Some((pc + offset) as usize)
    } else {
        None
    }
}

/// The machine after a branch or a jump:
///
/// * `IF` (`0x58`) takes a value; where it is zero the program goes on
///   behind the `ELSE` or `EIF` that matches;
/// * `ELSE` (`0x1B`), reached at the end of the branch that was taken, goes
///   on behind the `EIF` that matches;
/// * `JMPR` (`0x1C`) takes an offset and jumps by it, counted from the
///   instruction itself;
/// * `JROT` (`0x78`) and `JROF` (`0x79`) take a value and an offset and jump
///   if the value is not zero, or zero.
///
/// A branch without end, and a jump out of the program, are no valid
/// instructions.
pub open spec fn branch(m: InterpView, op: u8) -> Outcome {
    let next = (m.pc + 1) as usize;
    if op == 0x1B {
        match branch_end(m.code(), m.pc + 1, 0, false) {
            Some(t) => Ok(m.at(t as usize)),
            None => Err(ScalerError::InvalidInstruction(m.pc, op)),
        }
    } else if m.depth() < 1 {
        Err(ScalerError::StackUnderflow(m.pc))
    } else if op == 0x58 {
        if m.top(0) != 0 {
            Ok(m.popped(1).at(next))
        } else {
            match branch_end(m.code(), m.pc + 1, 0, true) {
                Some(t) => Ok(m.popped(1).at(t as usize)),
                None => Err(ScalerError::InvalidInstruction(m.pc, op)),
            }
        }
    } else if op == 0x1C {
        match jump_target(m.code(), m.pc, signed(m.top(0))) {
            Some(t) => Ok(m.popped(1).at(t)),
            None => Err(ScalerError::InvalidInstruction(m.pc, op)),
        }
    } else if m.depth() < 2 {
        Err(ScalerError::StackUnderflow(m.pc))
    } else if (op == 0x78) == (m.top(0) != 0) {
        match jump_target(m.code(), m.pc, signed(m.top(1))) {
            Some(t) => Ok(m.popped(2).at(t)),
            None => Err(ScalerError::InvalidInstruction(m.pc, op)),
        }
    } else {
        Ok(m.popped(2).at(next))
    }
}

/// Whether `op` is a branch or a jump.
pub open spec fn is_branch(op: u8) -> bool {
    op == 0x1B || op == 0x58 || op == 0x1C || op == 0x78 || op == 0x79
}

/// The machine after the call of the definition `def`, whose body is to run
/// `times` times, `times` not zero. The call is noted so that the `ENDF` of
/// the body finds its way back behind the instruction that made the call.
/// A definition that was never made, and a call beyond the greatest number
/// of open calls, make the glyph invalid.
pub open spec fn enter(m: InterpView, def: Definition, times: u32) -> Outcome {
    if !def.defined || m.frames.len() >= MAX_CALLS {
        Err(ScalerError::InvalidGlyph)
    } else {
        Ok(
            InterpView {
                frames: m.frames.push(
                    Frame {
                        return_program: m.program,
                        return_pc: (m.pc + 1) as usize,
                        body_program: def.program,
                        body_start: def.start,
                        remaining: (times - 1) as u32,
                    },
                ),
                program: def.program,
                pc: def.start,
                ..m
            },
        )
    }
}

/// The machine after an instruction of the call machinery:
///
/// * `FDEF` (`0x2C`) takes a function number and notes that the function
///   begins behind the instruction; the program goes on behind the `ENDF`
///   that ends the body. `IDEF` (`0x89`) does the same for the instruction
///   code that it takes. Neither is valid in a glyph program.
/// * `CALL` (`0x2B`) takes a function number and calls the function,
///   `LOOPCALL` (`0x2A`) takes a function number and a count and calls the
///   function that many times.
/// * `ENDF` (`0x2D`) runs the body again if it is to run more often, and
///   else goes back to where the call was made. Outside a call it is no
///   valid instruction.
///
/// A number without an entry makes the glyph invalid.
pub open spec fn call_op(m: InterpView, op: u8) -> Outcome {
    let next = (m.pc + 1) as usize;
    if op == 0x2D {
        if m.frames.len() == 0 {
            Err(ScalerError::InvalidInstruction(m.pc, op))
        } else {
            let f = m.frames[m.frames.len() - 1];
            if f.remaining > 0 {
                Ok(
                    InterpView {
                        frames: m.frames.update(
                            m.frames.len() - 1,
                            Frame { remaining: (f.remaining - 1) as u32, ..f },
                        ),
                        program: f.body_program,
                        pc: f.body_start,
                        ..m
                    },
                )
            } else {
                Ok(
                    InterpView {
                        frames: m.frames.subrange(0, m.frames.len() - 1),
                        program: f.return_program,
                        pc: f.return_pc,
                        ..m
                    },
                )
            }
        }
    } else if (op == 0x2C || op == 0x89) && m.program == GLYPH_PROGRAM {
        Err(ScalerError::InvalidInstruction(m.pc, op))
    } else if m.depth() < 1 {
        Err(ScalerError::StackUnderflow(m.pc))
    } else if op == 0x2C {
        if m.top(0) >= m.functions.len() {
            Err(ScalerError::InvalidGlyph)
        } else {
            match definition_end(m.code(), m.pc + 1) {
                Some(t) => Ok(
                    InterpView {
                        functions: m.functions.update(
                            m.top(0) as int,
                            Definition { defined: true, program: m.program, start: next },
                        ),
                        pc: t as usize,
                        ..m.popped(1)
                    },
                ),
                None => Err(ScalerError::InvalidInstruction(m.pc, op)),
            }
        }
    } else if op == 0x89 {
        if m.top(0) >= m.instructions.len() {
            Err(ScalerError::InvalidGlyph)
        } else {
            match definition_end(m.code(), m.pc + 1) {
                Some(t) => Ok(
                    InterpView {
                        instructions: m.instructions.update(
                            m.top(0) as int,
                            Definition { defined: true, program: m.program, start: next },
                        ),
                        pc: t as usize,
                        ..m.popped(1)
                    },
                ),
                None => Err(ScalerError::InvalidInstruction(m.pc, op)),
            }
        }
    } else if op == 0x2B {
        if m.top(0) >= m.functions.len() {
            Err(ScalerError::InvalidGlyph)
        } else {
            enter(m.popped(1), m.functions[m.top(0) as int], 1)
        }
    } else if m.depth() < 2 {
        Err(ScalerError::StackUnderflow(m.pc))
    } else if m.top(0) >= m.functions.len() {
        Err(ScalerError::InvalidGlyph)
    } else if m.top(1) == 0 {
        Ok(m.popped(2).at(next))
    } else {
        enter(m.popped(2), m.functions[m.top(0) as int], m.top(1))
    }
}

/// Whether `op` is an instruction of the call machinery.
pub open spec fn is_call_op(op: u8) -> bool {
    0x2A <= op <= 0x2D || op == 0x89
}

/// The machine after the byte `op`, which is no instruction of its own: the
/// call of the user instruction that was defined for it, or an invalid
/// instruction where none was.
pub open spec fn user_instruction(m: InterpView, op: u8) -> Outcome {
    if op < m.instructions.len() && m.instructions[op as int].defined {
        enter(m, m.instructions[op as int], 1)
    } else {
        Err(ScalerError::InvalidInstruction(m.pc, op))
    }
}

impl Interp {
    fn jump(&mut self, op: u8, offset: i32) -> (r: Result<(), ScalerError>)
        requires
            old(self).pc < old(self)@.code().len(),
        ensures
            match r {
                Ok(_) => jump_target(old(self)@.code(), old(self).pc, offset as int) == Some(
                    final(self).pc,
                ) && final(self)@ == old(self)@.at(final(self).pc),
                Err(e) => jump_target(old(self)@.code(), old(self).pc, offset as int) is None && e
                    == ScalerError::InvalidInstruction(old(self).pc, op),
            },
    {
        let len = self.code().len();
        let target: i128 = self.pc as i128 + offset as i128;
        if 0 <= target && target <= len as i128 {
            self.pc = target as usize;
            Ok(())
        } else {
            Err(ScalerError::InvalidInstruction(self.pc, op))
        }
    }

    /// Runs a branch or a jump.
    pub(crate) fn do_branch(&mut self, op: u8) -> (r: Result<(), ScalerError>)
        requires
            old(self)@.wf(),
            is_branch(op),
            old(self).pc < old(self)@.code().len(),
        ensures
            agrees(r, final(self)@, branch(old(self)@, op)),
            r is Ok ==> final(self)@.wf(),
    {
        let pc = self.pc;
        let depth = self.stack.len();
        let len = self.code().len();
        if op == 0x1B {
            match find_branch_end(self.code(), pc + 1, false) {
                Some(t) => {
                    self.pc = t;
                    Ok(())
                },
                None => Err(ScalerError::InvalidInstruction(pc, op)),
            }
        } else if depth < 1 {
            Err(ScalerError::StackUnderflow(pc))
        } else if op == 0x58 {
            let c = self.pop()?;
            if c != 0 {
                self.pc = pc + 1;
                Ok(())
            } else {
                match find_branch_end(self.code(), pc + 1, true) {
                    Some(t) => {
                        self.pc = t;
                        Ok(())
                    },
                    None => Err(ScalerError::InvalidInstruction(pc, op)),
                }
            }
        } else if op == 0x1C {
            let offset = self.pop_signed()?;
            self.jump(op, offset)
        } else if depth < 2 {
            Err(ScalerError::StackUnderflow(pc))
        } else {
            let e = self.pop()?;
            let offset = self.pop_signed()?;
            assert(self@ == old(self)@.popped(2)) by {
                assert(self@.stack =~= old(self)@.popped(2).stack);
            }
            if (op == 0x78) == (e != 0) {
                self.jump(op, offset)
            } else {
                self.pc = pc + 1;
                Ok(())
            }
        }
    }

    fn do_enter(&mut self, def: Definition, times: u32) -> (r: Result<(), ScalerError>)
        requires
            old(self)@.wf(),
            times > 0,
            old(self).pc < old(self)@.code().len(),
        ensures
            agrees(r, final(self)@, enter(old(self)@, def, times)),
            r is Ok ==> final(self)@.wf(),
    {
        if !def.defined || self.frames.len() >= MAX_CALLS {
            return Err(ScalerError::InvalidGlyph);
        }
        let len = self.code().len();
        self.frames.push(
            Frame {
                return_program: self.program,
                return_pc: self.pc + 1,
                body_program: def.program,
                body_start: def.start,
                remaining: times - 1,
            },
        );
        self.program = def.program;
        self.pc = def.start;
        Ok(())
    }

    /// Runs an instruction of the call machinery.
    pub(crate) fn do_call_op(&mut self, op: u8) -> (r: Result<(), ScalerError>)
        requires
            old(self)@.wf(),
            is_call_op(op),
            old(self).pc < old(self)@.code().len(),
        ensures
            agrees(r, final(self)@, call_op(old(self)@, op)),
            r is Ok ==> final(self)@.wf(),
    {
        let pc = self.pc;
        let depth = self.stack.len();
        let len = self.code().len();
        if op == 0x2D {
            let n = self.frames.len();
            if n == 0 {
                return Err(ScalerError::InvalidInstruction(pc, op));
            }
            let f = self.frames[n - 1];
            if f.remaining > 0 {
                self.frames.set(n - 1, Frame { remaining: f.remaining - 1, ..f });
                self.program = f.body_program;
                self.pc = f.body_start;
            } else {
                let _ = self.frames.pop();
                assert(self.frames@ =~= old(self).frames@.subrange(0, n - 1));
                self.program = f.return_program;
                self.pc = f.return_pc;
            }
            Ok(())
        } else if (op == 0x2C || op == 0x89) && self.program == GLYPH_PROGRAM {
            Err(ScalerError::InvalidInstruction(pc, op))
        } else if depth < 1 {
            Err(ScalerError::StackUnderflow(pc))
        } else if op == 0x2C || op == 0x89 {
            let k = self.stack[depth - 1] as usize;
            let limit = if op == 0x2C { self.functions.len() } else { self.instructions.len() };
            if k >= limit {
                return Err(ScalerError::InvalidGlyph);
            }
            match find_definition_end(self.code(), pc + 1) {
                Some(t) => {
                    let _ = self.pop()?;
                    let def = Definition { defined: true, program: self.program, start: pc + 1 };
                    if op == 0x2C {
                        self.functions.set(k, def);
                    } else {
                        self.instructions.set(k, def);
                    }
                    self.pc = t;
                    Ok(())
                },
                None => Err(ScalerError::InvalidInstruction(pc, op)),
            }
        } else if op == 0x2B {
            let k = self.stack[depth - 1] as usize;
            if k >= self.functions.len() {
                return Err(ScalerError::InvalidGlyph);
            }
            let def = self.functions[k];
            let _ = self.pop()?;
            self.do_enter(def, 1)
        } else if depth < 2 {
            Err(ScalerError::StackUnderflow(pc))
        } else {
            let k = self.stack[depth - 1] as usize;
            let count = self.stack[depth - 2];
            if k >= self.functions.len() {
                return Err(ScalerError::InvalidGlyph);
            }
            let def = self.functions[k];
            let _ = self.pop()?;
            let _ = self.pop()?;
            assert(self@ == old(self)@.popped(2)) by {
                assert(self@.stack =~= old(self)@.popped(2).stack);
            }
            if count == 0 {
                self.pc = pc + 1;
                Ok(())
            } else {
                self.do_enter(def, count)
            }
        }
    }

    /// Runs the user instruction that was defined for the byte `op`.
    pub(crate) fn do_user_instruction(&mut self, op: u8) -> (r: Result<(), ScalerError>)
        requires
            old(self)@.wf(),
            old(self).pc < old(self)@.code().len(),
        ensures
            agrees(r, final(self)@, user_instruction(old(self)@, op)),
            r is Ok ==> final(self)@.wf(),
    {
        if (op as usize) < self.instructions.len() && self.instructions[op as usize].defined {
            let def = self.instructions[op as usize];
            self.do_enter(def, 1)
        } else {
            Err(ScalerError::InvalidInstruction(self.pc, op))
        }
    }
}

} // verus!

//! The interpreter: what one instruction does to the machine, and the run
//! of a whole program.

use vstd::prelude::*;

use crate::interp_instructor::ops_flow::branch;
use crate::interp_instructor::ops_flow::call_op;
use crate::interp_instructor::ops_flow::is_branch;
use crate::interp_instructor::ops_flow::is_call_op;
use crate::interp_instructor::ops_flow::user_instruction;
use crate::interp_instructor::ops_loops::delta_op;
use crate::interp_instructor::ops_loops::is_delta_op;
use crate::interp_instructor::ops_loops::is_loop_op;
use crate::interp_instructor::ops_loops::is_range_op;
use crate::interp_instructor::ops_loops::loop_op;
use crate::interp_instructor::ops_loops::range_op;
use crate::interp_instructor::ops_outline::is_outline_op;
use crate::interp_instructor::ops_outline::outline_op;
use crate::interp_instructor::ops_points::is_line_op;
use crate::interp_instructor::ops_points::is_measure_op;
use crate::interp_instructor::ops_points::is_move_op;
use crate::interp_instructor::ops_points::line_op;
use crate::interp_instructor::ops_points::measure_op;
use crate::interp_instructor::ops_points::move_op;
use crate::interp_instructor::ops_stack::binary;
use crate::interp_instructor::ops_stack::is_binary;
use crate::interp_instructor::ops_stack::is_push;
use crate::interp_instructor::ops_stack::is_rearrange;
use crate::interp_instructor::ops_stack::is_unary;
use crate::interp_instructor::ops_stack::push_op;
use crate::interp_instructor::ops_stack::rearrange;
use crate::interp_instructor::ops_stack::unary;
use crate::interp_instructor::ops_state::is_plain;
use crate::interp_instructor::ops_state::is_setter;
use crate::interp_instructor::ops_state::is_transfer;
use crate::interp_instructor::ops_state::plain;
use crate::interp_instructor::ops_state::setter;
use crate::interp_instructor::ops_state::transfer;
use crate::interp_instructor::state::agrees;
use crate::interp_instructor::state::Interp;
use crate::interp_instructor::state::InterpView;
use crate::interp_instructor::state::Outcome;
use crate::interp_instructor::state::GLYPH_PROGRAM;
use crate::interp_instructor::ScalerError;

verus! {

/// The greatest number of instructions that one run of a program may
/// execute. A program that needs more is given up as invalid.
pub const STEP_LIMIT: u64 = 1_000_000;

/// The outcome `r` of an instruction that stands at `pc`, with the machine
/// set to the instruction behind it.
pub open spec fn advance(r: Outcome, pc: usize) -> Outcome {
    match r {
        Ok(m) => Ok(m.at((pc + 1) as usize)),
        Err(e) => Err(e),
    }
}

/// Whether the effect of `op` is one that leaves the program counter alone,
/// so that the program goes on with the next instruction.
pub open spec fn is_simple(op: u8) -> bool {
    is_binary(op) || is_unary(op) || is_rearrange(op) || is_plain(op) || is_setter(op)
        || is_transfer(op) || is_measure_op(op) || is_line_op(op) || is_move_op(op) || is_loop_op(
        op,
    ) || is_range_op(op) || is_delta_op(op) || is_outline_op(op)
}

/// What the instruction `op` does to the stack, the graphics state and the
/// points, where it is one that leaves the program counter alone.
pub open spec fn effect(m: InterpView, op: u8) -> Outcome {
    if is_binary(op) {
        binary(m, op)
    } else if is_unary(op) {
        unary(m, op)
    } else if is_rearrange(op) {
        rearrange(m, op)
    } else if is_plain(op) {
        plain(m, op)
    } else if is_setter(op) {
        setter(m, op)
    } else if is_transfer(op) {
        transfer(m, op)
    } else if is_measure_op(op) {
        measure_op(m, op)
    } else if is_line_op(op) {
        line_op(m, op)
    } else if is_move_op(op) {
        move_op(m, op)
    } else if is_loop_op(op) {
        loop_op(m, op)
    } else if is_range_op(op) {
        range_op(m, op)
    } else if is_delta_op(op) {
        delta_op(m, op)
    } else {
        outline_op(m, op)
    }
}

/// The machine after the instruction `op`, which stands at the program
/// counter. Pushes, branches and calls say themselves where the program
/// goes on; after any other instruction it goes on with the next. A byte
/// that is no instruction runs the user instruction defined for it.
pub open spec fn execute(m: InterpView, op: u8) -> Outcome {
    if is_push(op) {
        push_op(m, op)
    } else if is_branch(op) {
        branch(m, op)
    } else if is_call_op(op) {
        call_op(m, op)
    } else if is_simple(op) {
        advance(effect(m, op), m.pc)
    } else {
        user_instruction(m, op)
    }
}

/// Whether the program has come to its end.
pub open spec fn halted(m: InterpView) -> bool {
    m.pc >= m.code().len()
}

/// The machine after the instruction at the program counter.
pub open spec fn step(m: InterpView) -> Outcome {
    execute(m, m.code()[m.pc as int])
}

/// The machine after the program has run to its end, executing at most
/// `fuel` instructions. The first error ends the run. A program that ends
/// inside a call, and one that has not ended when the fuel is spent, make
/// the glyph invalid.
pub open spec fn run(m: InterpView, fuel: nat) -> Outcome
    decreases fuel,
{
    if halted(m) {
        if m.frames.len() == 0 {
            Ok(m)
        } else {
            Err(ScalerError::InvalidGlyph)
        }
    } else if fuel == 0 {
        Err(ScalerError::InvalidGlyph)
    } else {
        match step(m) {
            Ok(after) => run(after, (fuel - 1) as nat),
            Err(e) => Err(e),
        }
    }
}

/// The machine at the start of the program number `program`, with no call
/// open.
pub open spec fn started(m: InterpView, program: u8) -> InterpView {
    InterpView { program, pc: 0, frames: Seq::empty(), ..m }
}

/// The machine with `instructions` as its glyph program, at the start of
/// that program.
pub open spec fn loaded(m: InterpView, instructions: Seq<u8>) -> InterpView {
    started(InterpView { glyph_program: instructions, ..m }, GLYPH_PROGRAM)
}

impl Interp {
    fn do_effect(&mut self, op: u8) -> (r: Result<(), ScalerError>)
        requires
            old(self)@.wf(),
            is_simple(op),
        ensures
            agrees(r, final(self)@, effect(old(self)@, op)),
            r is Ok ==> final(self)@.wf(),
    {
        if (0x50 <= op && op <= 0x55) || op == 0x5A || op == 0x5B || (0x60 <= op && op <= 0x63)
            || op == 0x8B || op == 0x8C {
            self.do_binary(op)
        } else if op == 0x56 || op == 0x57 || op == 0x5C || (0x64 <= op && op <= 0x6F) {
            self.do_unary(op)
        } else if (0x20 <= op && op <= 0x26) || op == 0x8A {
            self.do_rearrange(op)
        } else if op <= 0x05 || op == 0x0E || op == 0x18 || op == 0x19 || op == 0x3D || op == 0x7A
            || op == 0x7C || op == 0x7D || op == 0x4D || op == 0x4E || op == 0x59 {
            self.do_plain(op)
        } else if (0x10 <= op && op <= 0x17) || op == 0x1A || op == 0x1D || op == 0x1E || op
            == 0x1F || op == 0x5E || op == 0x5F || op == 0x76 || op == 0x77 || op == 0x85 || op
            == 0x4F || op == 0x7E || op == 0x7F || op == 0x8D {
            self.do_setter(op)
        } else if (0x0A <= op && op <= 0x0D) || op == 0x4B || op == 0x4C || op == 0x88 || (0x42
            <= op && op <= 0x45) || op == 0x70 || op == 0x8E {
            self.do_transfer(op)
        } else if op == 0x46 || op == 0x47 || op == 0x49 || op == 0x4A {
            self.do_measure_op(op)
        } else if (0x06 <= op && op <= 0x09) || op == 0x86 || op == 0x87 {
            self.do_line_op(op)
        } else if op == 0x2E || op == 0x2F || op == 0x3E || op == 0x3F || op >= 0xC0 || op == 0x3A
            || op == 0x3B || op == 0x48 || op == 0x27 || op == 0x29 {
            self.do_move_op(op)
        } else if op == 0x32 || op == 0x33 || op == 0x38 || op == 0x39 || op == 0x3C || op == 0x80 {
            self.do_loop_op(op)
        } else if op == 0x81 || op == 0x82 || (0x34 <= op && op <= 0x37) {
            self.do_range_op(op)
        } else if op == 0x5D || (0x71 <= op && op <= 0x75) {
            self.do_delta_op(op)
        } else {
            self.do_outline_op(op)
        }
    }

    /// Runs the instruction at the program counter.
    pub fn step(&mut self) -> (r: Result<(), ScalerError>)
        requires
            old(self)@.wf(),
            !halted(old(self)@),
        ensures
            agrees(r, final(self)@, step(old(self)@)),
            r is Ok ==> final(self)@.wf(),
    {
        let pc = self.pc;
        let len = self.code().len();
        let op = self.code()[pc];
        if op == 0x40 || op == 0x41 || (0xB0 <= op && op <= 0xBF) {
            self.do_push(op)
        } else if op == 0x1B || op == 0x58 || op == 0x1C || op == 0x78 || op == 0x79 {
            self.do_branch(op)
        } else if (0x2A <= op && op <= 0x2D) || op == 0x89 {
            self.do_call_op(op)
        } else if op == 0x28 || op == 0x7B || op == 0x83 || op == 0x84 || (0x8F <= op && op <= 0xAF) {
            self.do_user_instruction(op)
        } else {
            self.do_effect(op)?;
            self.pc = pc + 1;
            Ok(())
        }
    }

    /// Runs the program at the program counter to its end.
    pub fn run(&mut self) -> (r: Result<(), ScalerError>)
        requires
            old(self)@.wf(),
        ensures
            agrees(r, final(self)@, run(old(self)@, STEP_LIMIT as nat)),
            r is Ok ==> final(self)@.wf(),
    {
        let mut fuel: u64 = STEP_LIMIT;
        loop
            invariant
                self@.wf(),
                run(old(self)@, STEP_LIMIT as nat) == run(self@, fuel as nat),
            decreases fuel,
        {
            if self.pc >= self.code().len() {
                if self.frames.len() == 0 {
                    return Ok(());
                } else {
                    return Err(ScalerError::InvalidGlyph);
                }
            }
            if fuel == 0 {
                return Err(ScalerError::InvalidGlyph);
            }
            self.step()?;
            fuel = fuel - 1;
        }
    }

    /// Runs the program number `program` from its start.
    pub fn run_program(&mut self, program: u8) -> (r: Result<(), ScalerError>)
        requires
            old(self)@.wf(),
        ensures
            agrees(r, final(self)@, run(started(old(self)@, program), STEP_LIMIT as nat)),
            r is Ok ==> final(self)@.wf(),
    {
        self.program = program;
        self.pc = 0;
        self.frames.clear();
        self.run()
    }

    /// Runs `instructions` as the program of a glyph, from their start to
    /// their end. What lies on the stack stays there for the program.
    pub fn interpret(&mut self, instructions: &Vec<u8>) -> (r: Result<(), ScalerError>)
        requires
            old(self)@.wf(),
        ensures
            agrees(
                r,
                final(self)@,
                run(loaded(old(self)@, instructions@), STEP_LIMIT as nat),
            ),
            r is Ok ==> final(self)@.wf(),
    {
        self.glyph_program = instructions.clone();
        self.run_program(GLYPH_PROGRAM)
    }
}

} // verus!

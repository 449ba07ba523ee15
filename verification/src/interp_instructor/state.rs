//! The state of the hinting engine: the graphics state, the zones of
//! points, and the machine that holds them together with its stack.

use vstd::prelude::*;

use crate::interp_instructor::rounding::RoundState;
use crate::interp_instructor::vector::Vector;
use crate::interp_instructor::ScalerError;
use crate::numerics::wrap_i32;
use crate::numerics::F26d6;
use crate::outline::Point;
use crate::truetype_loader::F2dot14;

verus! {

/// The graphics state: the settings that instructions read and change.
#[derive(Clone, Copy, Debug, PartialEq, Eq, Structural)]
pub struct InterpState {
    pub auto_flip: bool,
    pub cvt_cutin: F26d6,
    pub delta_base: u32,
    pub delta_shift: u32,
    pub dual_prj_vec: Vector,
    pub freedom_vec: Vector,
    pub instruct_ctrl: bool,
    pub loopv: u32,
    pub min_dist: F26d6,
    pub project_vec: Vector,
    pub round_state: RoundState,
    pub rp0: usize,
    pub rp1: usize,
    pub rp2: usize,
    pub scan_ctrl: bool,
    pub single_width_cut_in: F26d6,
    pub single_width_value: F26d6,
    pub zp0: usize,
    pub zp1: usize,
    pub zp2: usize,
}

impl InterpState {
    /// The graphics state at the start of a program: both vectors along the
    /// x axis, rounding to the grid, a cut-in of 17/16 pixels, a minimum
    /// distance of one pixel, all zone pointers on the glyph zone.
    pub open spec fn initial() -> InterpState {
        InterpState {
            auto_flip: true,
            cvt_cutin: F26d6(68),
            delta_base: 9,
            delta_shift: 3,
            dual_prj_vec: Vector { x: F2dot14(0x4000), y: F2dot14(0) },
            freedom_vec: Vector { x: F2dot14(0x4000), y: F2dot14(0) },
            instruct_ctrl: false,
            loopv: 1,
            min_dist: F26d6(64),
            project_vec: Vector { x: F2dot14(0x4000), y: F2dot14(0) },
            round_state: RoundState::Grid,
            rp0: 0,
            rp1: 0,
            rp2: 0,
            scan_ctrl: false,
            single_width_cut_in: F26d6(0),
            single_width_value: F26d6(0),
            zp0: 1,
            zp1: 1,
            zp2: 1,
        }
    }

    pub fn new() -> (s: InterpState)
        ensures
            s == InterpState::initial(),
    {
        InterpState {
            auto_flip: true,
            cvt_cutin: F26d6(68),
            delta_base: 9,
            delta_shift: 3,
            dual_prj_vec: Vector { x: F2dot14(0x4000), y: F2dot14(0) },
            freedom_vec: Vector { x: F2dot14(0x4000), y: F2dot14(0) },
            instruct_ctrl: false,
            loopv: 1,
            min_dist: F26d6(64),
            project_vec: Vector { x: F2dot14(0x4000), y: F2dot14(0) },
            round_state: RoundState::Grid,
            rp0: 0,
            rp1: 0,
            rp2: 0,
            scan_ctrl: false,
            single_width_cut_in: F26d6(0),
            single_width_value: F26d6(0),
            zp0: 1,
            zp1: 1,
            zp2: 1,
        }
    }
}

/// Flag of a point in a zone: the point lies on the curve.
pub const ON_CURVE: u8 = 0x01;

/// Flag of a point in a zone: an instruction has moved it along x.
pub const TOUCHED_X: u8 = 0x02;

/// Flag of a point in a zone: an instruction has moved it along y.
pub const TOUCHED_Y: u8 = 0x04;

/// A set of points that instructions work on: where each point is now,
/// where it was before any instruction ran, its flags, and the last point of
/// each contour.
#[derive(Clone, Debug)]
pub struct Zone {
    pub points: Vec<Point>,
    pub original: Vec<Point>,
    pub flags: Vec<u8>,
    pub ends: Vec<u16>,
}

/// What a `Zone` holds.
pub struct ZoneView {
    pub points: Seq<Point>,
    pub original: Seq<Point>,
    pub flags: Seq<u8>,
    pub ends: Seq<u16>,
}

impl View for Zone {
    type V = ZoneView;

    open spec fn view(&self) -> ZoneView {
        ZoneView {
            points: self.points@,
            original: self.original@,
            flags: self.flags@,
            ends: self.ends@,
        }
    }
}

impl ZoneView {
    /// Every point has an original position and a flag.
    pub open spec fn wf(self) -> bool {
        self.points.len() == self.original.len() && self.points.len() == self.flags.len()
    }

    /// The number of points.
    pub open spec fn len(self) -> int {
        self.points.len() as int
    }
}

/// Where a function or a user instruction begins.
#[derive(Clone, Copy, Debug, PartialEq, Eq, Structural)]
pub struct Definition {
    pub defined: bool,
    /// The program that holds the body.
    pub program: u8,
    /// The place of the first instruction of the body.
    pub start: usize,
}

/// A call that has not returned yet.
#[derive(Clone, Copy, Debug, PartialEq, Eq, Structural)]
pub struct Frame {
    /// The program and the place to go on at after the call.
    pub return_program: u8,
    pub return_pc: usize,
    /// The program and the place of the body that is called.
    pub body_program: u8,
    pub body_start: usize,
    /// How many more times the body is to run after this time.
    pub remaining: u32,
}

/// The number of the font program among the programs of the machine.
pub const FONT_PROGRAM: u8 = 0;

/// The number of the control value program.
pub const CVT_PROGRAM: u8 = 1;

/// The number of the glyph program.
pub const GLYPH_PROGRAM: u8 = 2;

/// The greatest number of calls that may be open at one time.
pub const MAX_CALLS: usize = 64;

/// The hinting machine.
#[derive(Clone, Debug)]
pub struct Interp {
    pub stack: Vec<u32>,
    pub pc: usize,
    /// The program that runs.
    pub program: u8,
    pub state: InterpState,
    pub storage: Vec<u32>,
    /// The control values, scaled to pixels.
    pub cv_table: Vec<F26d6>,
    pub functions: Vec<Definition>,
    pub instructions: Vec<Definition>,
    pub frames: Vec<Frame>,
    pub font_program: Vec<u8>,
    pub cvt_program: Vec<u8>,
    pub glyph_program: Vec<u8>,
    pub twilight: Zone,
    pub glyph: Zone,
    /// The greatest depth that the stack may reach.
    pub max_stack: usize,
    pub ppem: u32,
    pub point_size: u32,
    /// One font unit is `scale_num / scale_den` pixels.
    pub scale_num: u64,
    pub scale_den: u64,
}

/// What an `Interp` holds.
pub struct InterpView {
    pub stack: Seq<u32>,
    pub pc: usize,
    pub program: u8,
    pub state: InterpState,
    pub storage: Seq<u32>,
    pub cv_table: Seq<F26d6>,
    pub functions: Seq<Definition>,
    pub instructions: Seq<Definition>,
    pub frames: Seq<Frame>,
    pub font_program: Seq<u8>,
    pub cvt_program: Seq<u8>,
    pub glyph_program: Seq<u8>,
    pub twilight: ZoneView,
    pub glyph: ZoneView,
    pub max_stack: usize,
    pub ppem: u32,
    pub point_size: u32,
    pub scale_num: u64,
    pub scale_den: u64,
}

impl View for Interp {
    type V = InterpView;

    open spec fn view(&self) -> InterpView {
        InterpView {
            stack: self.stack@,
            pc: self.pc,
            program: self.program,
            state: self.state,
            storage: self.storage@,
            cv_table: self.cv_table@,
            functions: self.functions@,
            instructions: self.instructions@,
            frames: self.frames@,
            font_program: self.font_program@,
            cvt_program: self.cvt_program@,
            glyph_program: self.glyph_program@,
            twilight: self.twilight@,
            glyph: self.glyph@,
            max_stack: self.max_stack,
            ppem: self.ppem,
            point_size: self.point_size,
            scale_num: self.scale_num,
            scale_den: self.scale_den,
        }
    }
}

/// What an instruction gives: the machine after it, or the error that ends
/// the program.
pub type Outcome = Result<InterpView, ScalerError>;

/// Whether the result `r` of running an instruction on a machine that is
/// `after` afterwards is what `expected` says.
pub open spec fn agrees(r: Result<(), ScalerError>, after: InterpView, expected: Outcome) -> bool {
    match r {
        Ok(_) => expected == Ok::<InterpView, ScalerError>(after),
        Err(e) => expected == Err::<InterpView, ScalerError>(e),
    }
}

impl InterpView {
    /// Whether the reference point `rp` names a point of one of the zones.
    /// Point 0 is always accepted.
    pub open spec fn point_in_range(self, rp: usize) -> bool {
        rp == 0 || rp < self.twilight.len() || rp < self.glyph.len()
    }

    /// The invariant of the machine: the stack is not deeper than allowed,
    /// the zone pointers name a zone, the reference points name a point, the
    /// zones are consistent, no more calls are open than allowed, and the
    /// scale is defined.
    pub open spec fn wf(self) -> bool {
        &&& self.stack.len() <= self.max_stack
        &&& self.state.zp0 <= 1
        &&& self.state.zp1 <= 1
        &&& self.state.zp2 <= 1
        &&& self.point_in_range(self.state.rp0)
        &&& self.point_in_range(self.state.rp1)
        &&& self.point_in_range(self.state.rp2)
        &&& self.twilight.wf()
        &&& self.glyph.wf()
        &&& self.frames.len() <= MAX_CALLS
        &&& self.scale_den > 0
    }

    /// The bytes of the program number `program`.
    pub open spec fn code_of(self, program: u8) -> Seq<u8> {
        if program == FONT_PROGRAM {
            self.font_program
        } else if program == CVT_PROGRAM {
            self.cvt_program
        } else {
            self.glyph_program
        }
    }

    /// The bytes of the program that runs.
    pub open spec fn code(self) -> Seq<u8> {
        self.code_of(self.program)
    }

    /// The depth of the stack.
    pub open spec fn depth(self) -> int {
        self.stack.len() as int
    }

    /// The `k`-th value from the top of the stack; the top is number 0.
    pub open spec fn top(self, k: int) -> u32 {
        self.stack[self.stack.len() - 1 - k]
    }

    /// The machine with the `n` topmost values taken from the stack.
    pub open spec fn popped(self, n: int) -> InterpView {
        InterpView { stack: self.stack.subrange(0, self.stack.len() - n), ..self }
    }

    /// The machine with `v` put on the stack.
    pub open spec fn pushed(self, v: u32) -> InterpView {
        InterpView { stack: self.stack.push(v), ..self }
    }

    /// The machine at the place `pc` of its program.
    pub open spec fn at(self, pc: usize) -> InterpView {
        InterpView { pc, ..self }
    }

    /// The machine with the graphics state `state`.
    pub open spec fn with_state(self, state: InterpState) -> InterpView {
        InterpView { state, ..self }
    }

    /// The zone number `z`: 0 is the twilight zone, any other number the
    /// glyph zone.
    pub open spec fn zone(self, z: usize) -> ZoneView {
        if z == 0 {
            self.twilight
        } else {
            self.glyph
        }
    }

    /// The machine with `zone` in place of its zone number `z`.
    pub open spec fn with_zone(self, z: usize, zone: ZoneView) -> InterpView {
        if z == 0 {
            InterpView { twilight: zone, ..self }
        } else {
            InterpView { glyph: zone, ..self }
        }
    }

    /// What putting `v` on the stack gives: a stack that is full already
    /// makes the glyph invalid.
    pub open spec fn push(self, v: u32) -> Outcome {
        if self.stack.len() < self.max_stack {
            Ok(self.pushed(v))
        } else {
            Err(ScalerError::InvalidGlyph)
        }
    }
}

/// The signed number that the word `w` stands for.
pub open spec fn signed(w: u32) -> int {
    if w >= 0x8000_0000 {
        w - 0x1_0000_0000
    } else {
        w as int
    }
}

/// The word that stands for the signed number `v`.
pub open spec fn word_of(v: i32) -> u32 {
    (if v < 0 {
        v + 0x1_0000_0000
    } else {
        v as int
    }) as u32
}

/// The word that stands for the number `v` reduced to 32 bits.
pub open spec fn word(v: int) -> u32 {
    word_of(wrap_i32(v) as i32)
}

/// Reads a word of the stack as a signed number.
pub fn to_signed(w: u32) -> (v: i32)
    ensures
        v == signed(w),
{
    if w >= 0x8000_0000 {
        ((w - 0x8000_0000) as i32) + i32::MIN
    } else {
        w as i32
    }
}

/// Makes a signed number a word of the stack.
pub fn to_word(v: i32) -> (w: u32)
    ensures
        w == word_of(v),
        signed(w) == v,
{
    if v < 0 {
        ((v - i32::MIN) as u32) + 0x8000_0000
    } else {
        v as u32
    }
}

impl Interp {
    /// The program that runs.
    pub fn code(&self) -> (c: &Vec<u8>)
        ensures
            c@ == self@.code(),
    {
        if self.program == FONT_PROGRAM {
            &self.font_program
        } else if self.program == CVT_PROGRAM {
            &self.cvt_program
        } else {
            &self.glyph_program
        }
    }

    /// The program number `program`.
    pub fn code_of(&self, program: u8) -> (c: &Vec<u8>)
        ensures
            c@ == self@.code_of(program),
    {
        if program == FONT_PROGRAM {
            &self.font_program
        } else if program == CVT_PROGRAM {
            &self.cvt_program
        } else {
            &self.glyph_program
        }
    }

    /// Takes the top of the stack.
    pub fn pop(&mut self) -> (r: Result<u32, ScalerError>)
        ensures
            old(self)@.depth() > 0 ==> r == Ok::<u32, ScalerError>(old(self)@.top(0)) && final(self)@ == old(self)@.popped(1),
            old(self)@.depth() == 0 ==> r == Err::<u32, ScalerError>(
                ScalerError::StackUnderflow(old(self).pc),
            ) && final(self)@ == old(self)@,
    {
        match self.stack.pop() {
            Some(v) => {
                assert(self.stack@ =~= old(self).stack@.subrange(0, old(self).stack@.len() - 1));
                Ok(v)
            },
            None => Err(ScalerError::StackUnderflow(self.pc)),
        }
    }

    /// Takes the top of the stack as a signed number.
    pub fn pop_signed(&mut self) -> (r: Result<i32, ScalerError>)
        ensures
            old(self)@.depth() > 0 ==> r is Ok && r->Ok_0 == signed(old(self)@.top(0)) && final(self)@ == old(self)@.popped(1),
            old(self)@.depth() == 0 ==> r == Err::<i32, ScalerError>(
                ScalerError::StackUnderflow(old(self).pc),
            ) && final(self)@ == old(self)@,
    {
        let w = self.pop()?;
        Ok(to_signed(w))
    }

    /// Takes the top of the stack as a 26.6 number.
    pub fn pop_f26dot6(&mut self) -> (r: Result<F26d6, ScalerError>)
        ensures
            old(self)@.depth() > 0 ==> r is Ok && r->Ok_0 == F26d6(signed(old(self)@.top(0)) as i32)
                && final(self)@ == old(self)@.popped(1),
            old(self)@.depth() == 0 ==> r == Err::<F26d6, ScalerError>(
                ScalerError::StackUnderflow(old(self).pc),
            ) && final(self)@ == old(self)@,
    {
        let w = self.pop()?;
        Ok(F26d6(to_signed(w)))
    }

    /// Puts `v` on the stack.
    pub fn push(&mut self, v: u32) -> (r: Result<(), ScalerError>)
        ensures
            agrees(r, final(self)@, old(self)@.push(v)),
            r is Err ==> final(self)@ == old(self)@,
    {
        if self.stack.len() < self.max_stack {
            self.stack.push(v);
            Ok(())
        } else {
            Err(ScalerError::InvalidGlyph)
        }
    }

    /// Empties the stack and goes back to the start of the program.
    pub fn reset(&mut self)
        ensures
            final(self)@ == (InterpView { stack: Seq::empty(), pc: 0, ..old(self)@ }),
    {
        self.stack.clear();
        self.pc = 0;
    }
}

} // verus!

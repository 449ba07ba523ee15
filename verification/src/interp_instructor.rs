//! The hinting engine: the interpreter of the font's programs, and the
//! scaler that runs it on the glyphs of a font.

use vstd::prelude::*;

use crate::truetype_loader::TableTag;

pub mod laws;
pub mod machine;
pub mod ops_flow;
pub mod ops_loops;
pub mod ops_outline;
pub mod ops_points;
pub mod ops_stack;
pub mod ops_state;
pub mod rounding;
pub mod scaler;
pub mod state;
pub mod vector;
pub mod zone_ops;

pub use scaler::InstructedGlyphScaler;
pub use state::Interp;
pub use state::InterpState;
pub use vector::Vector;

verus! {

/// Why a glyph could not be scaled.
#[derive(Clone, Copy, Debug, PartialEq, Eq, Structural)]
pub enum ScalerError {
    /// The font lacks a table that the scaler needs.
    MissingTable(TableTag),
    /// The byte at the given place of the program is no instruction, or one
    /// that may not stand there.
    InvalidInstruction(usize, u8),
    /// The instruction at the given place took a value from an empty stack.
    StackUnderflow(usize),
    /// The glyph does not exist, or its data or its program do not fit the
    /// limits of the font.
    InvalidGlyph,
}

impl ScalerError {
    /// A short description of the kind of error.
    pub fn description(&self) -> (s: &'static str)
        ensures
            s@ == (match *self {
                ScalerError::MissingTable(_) => "missing font data table"@,
                ScalerError::InvalidInstruction(_, _) => "invalid instruction encountered"@,
                ScalerError::StackUnderflow(_) => "stack underflow"@,
                ScalerError::InvalidGlyph => "glyph data invalid"@,
            }),
    {
        match self {
            ScalerError::MissingTable(_) => "missing font data table",
            ScalerError::InvalidInstruction(_, _) => "invalid instruction encountered",
            ScalerError::StackUnderflow(_) => "stack underflow",
            ScalerError::InvalidGlyph => "glyph data invalid",
        }
    }
}

} // verus!

//! Faults that stop an instruction from taking effect.
use vstd::prelude::*;

verus! {

/// Why a tick or a load did not complete.
#[derive(Debug, Clone, Copy, PartialEq, Eq, Structural)]
pub enum Chip8Error {
    /// The instruction word matches no instruction of the machine.
    InvalidInstruction(u16),
    /// A call was made with sixteen return addresses already stacked.
    StackOverflow,
    /// A return was made with no return address stacked.
    StackUnderflow,
    /// The program counter or the index register addressed bytes past the
    /// end of memory.
    MemoryOutOfRange,
    /// A store would have overwritten the built-in font glyphs.
    FontOverwrite,
    /// A program does not fit between its load address and the end of memory.
    ProgramTooLarge,
}

} // verus!

//! The failures that the machine reports.

use vstd::prelude::*;

verus! {

/// Why loading a program or executing an instruction was refused.
///
/// A refused operation leaves the machine exactly as it was.
#[derive(Clone, Copy, Debug, PartialEq, Eq, Structural)]
pub enum Chip8Error {
    /// The program does not fit between the start address and the end of memory.
    RomTooLarge,
    /// A return was executed with an empty call stack.
    StackUnderflow,
    /// A call was executed with all sixteen stack slots in use.
    StackOverflow,
    /// An instruction would read or write memory past address 0xFFF.
    MemoryOutOfBounds,
    /// Adding a register to the index register would exceed sixteen bits.
    IndexOverflow,
}

impl Chip8Error {
    /// The text that describes each failure.
    pub open spec fn message_of(self) -> Seq<char> {
        match self {
            Chip8Error::RomTooLarge => "ROM too large to fit in memory"@,
            Chip8Error::StackUnderflow => "return with an empty call stack"@,
            Chip8Error::StackOverflow => "call with a full call stack"@,
            Chip8Error::MemoryOutOfBounds => "memory access past the end of memory"@,
            Chip8Error::IndexOverflow => "index register overflow"@,
        }
    }

    /// A short description of the failure, for display by the caller.
    pub fn message(&self) -> (text: &'static str)
        ensures
            text@ == self.message_of(),
    {
        match self {
            Chip8Error::RomTooLarge => "ROM too large to fit in memory",
            Chip8Error::StackUnderflow => "return with an empty call stack",
            Chip8Error::StackOverflow => "call with a full call stack",
            Chip8Error::MemoryOutOfBounds => "memory access past the end of memory",
            Chip8Error::IndexOverflow => "index register overflow",
        }
    }
}

} // verus!

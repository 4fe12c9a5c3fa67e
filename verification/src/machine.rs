//! The mathematical model of the machine state.
//!
//! [`Machine`] is what every contract of the interpreter speaks about: plain
//! sequences and integers, with no notion of how the state is stored.

use vstd::prelude::*;

verus! {

/// Number of addressable bytes.
pub const MEMORY_SIZE: usize = 4096;

/// Number of general registers. Register 15 is the flag register.
pub const REGISTER_COUNT: usize = 16;

/// Number of return addresses that the call stack holds.
pub const STACK_SIZE: usize = 16;

/// Number of keys on the pad.
pub const KEY_COUNT: usize = 16;

/// Width of the framebuffer in pixels.
pub const VIDEO_WIDTH: usize = 64;

/// Height of the framebuffer in pixels.
pub const VIDEO_HEIGHT: usize = 32;

/// Number of framebuffer cells, stored row by row.
pub const VIDEO_SIZE: usize = 2048;

/// Address at which programs are loaded and execution starts.
pub const START_ADDRESS: u16 = 0x200;

/// Number of bytes in the built-in font.
pub const FONTSET_SIZE: usize = 80;

/// Address of the first font byte.
pub const FONTSET_START_ADDRESS: u16 = 0x50;

/// Largest program, in bytes, that fits above the start address.
pub const MAX_ROM_SIZE: usize = 3584;

/// Value of a lit framebuffer cell. An unlit cell is zero.
pub const PIXEL_ON: u32 = 0xFFFF_FFFF;

/// Index of the flag register.
pub const FLAG: usize = 0xF;

/// The built-in font: sixteen glyphs of five bytes each, for the digits 0 to F.
pub const FONTSET: [u8; 80] = [
    0xF0, 0x90, 0x90, 0x90, 0xF0,
    0x20, 0x60, 0x20, 0x20, 0x70,
    0xF0, 0x10, 0xF0, 0x80, 0xF0,
    0xF0, 0x10, 0xF0, 0x10, 0xF0,
    0x90, 0x90, 0xF0, 0x10, 0x10,
    0xF0, 0x80, 0xF0, 0x10, 0xF0,
    0xF0, 0x80, 0xF0, 0x90, 0xF0,
    0xF0, 0x10, 0x20, 0x40, 0x40,
    0xF0, 0x90, 0xF0, 0x90, 0xF0,
    0xF0, 0x90, 0xF0, 0x10, 0xF0,
    0xF0, 0x90, 0xF0, 0x90, 0x90,
    0xE0, 0x90, 0xE0, 0x90, 0xE0,
    0xF0, 0x80, 0x80, 0x80, 0xF0,
    0xE0, 0x90, 0x90, 0x90, 0xE0,
    0xF0, 0x80, 0xF0, 0x80, 0xF0,
    0xF0, 0x80, 0xF0, 0x80, 0x80,
];

/// The whole state of the machine, but for its random source.
#[verifier::ext_equal]
pub struct Machine {
    /// The sixteen general registers.
    pub registers: Seq<u8>,
    /// The 4096 bytes of memory.
    pub memory: Seq<u8>,
    /// The index register.
    pub index: u16,
    /// The program counter.
    pub pc: u16,
    /// The sixteen slots of the call stack.
    pub stack: Seq<u16>,
    /// The number of stack slots in use.
    pub sp: u8,
    /// The delay timer.
    pub delay_timer: u8,
    /// The sound timer.
    pub sound_timer: u8,
    /// Which of the sixteen keys are held down.
    pub keypad: Seq<bool>,
    /// The framebuffer, row by row: cell `y * 64 + x` is the pixel at `(x, y)`.
    pub video: Seq<u32>,
}

impl Machine {
    /// The shape that every reachable state has: the right number of
    /// registers, bytes, stack slots, keys and cells, a stack pointer that
    /// does not pass the last slot, and cells that are either lit or unlit.
    pub open spec fn valid(self) -> bool {
        &&& self.registers.len() == REGISTER_COUNT
        &&& self.memory.len() == MEMORY_SIZE
        &&& self.stack.len() == STACK_SIZE
        &&& self.sp <= STACK_SIZE
        &&& self.keypad.len() == KEY_COUNT
        &&& self.video.len() == VIDEO_SIZE
        &&& forall|cell: int|
            0 <= cell < VIDEO_SIZE ==> self.video[cell] == 0 || self.video[cell] == PIXEL_ON
    }

    /// The state after construction: everything zero, the font in place and
    /// the program counter at the start address.
    pub open spec fn initial() -> Machine {
        Machine {
            registers: Seq::new(REGISTER_COUNT as nat, |i: int| 0u8),
            memory: Seq::new(
                MEMORY_SIZE as nat,
                |a: int|
                    if FONTSET_START_ADDRESS <= a < FONTSET_START_ADDRESS + FONTSET_SIZE {
                        FONTSET[a - FONTSET_START_ADDRESS]
                    } else {
                        0u8
                    },
            ),
            index: 0,
            pc: START_ADDRESS,
            stack: Seq::new(STACK_SIZE as nat, |i: int| 0u16),
            sp: 0,
            delay_timer: 0,
            sound_timer: 0,
            keypad: Seq::new(KEY_COUNT as nat, |i: int| false),
            video: Seq::new(VIDEO_SIZE as nat, |i: int| 0u32),
        }
    }

    /// This state with register `i` set to `value`.
    pub open spec fn with_register(self, i: int, value: u8) -> Machine {
        Machine { registers: self.registers.update(i, value), ..self }
    }

    /// This state with the program counter set to `pc`.
    pub open spec fn with_pc(self, pc: u16) -> Machine {
        Machine { pc, ..self }
    }

    /// This state with the program counter moved past one more instruction
    /// when `taken` holds.
    pub open spec fn skip_if(self, taken: bool) -> Machine {
        if taken {
            self.with_pc((self.pc + 2) as u16)
        } else {
            self
        }
    }

    /// This state with `program` copied to memory from the start address on.
    pub open spec fn with_program(self, program: Seq<u8>) -> Machine {
        Machine {
            memory: Seq::new(
                MEMORY_SIZE as nat,
                |a: int|
                    if START_ADDRESS <= a < START_ADDRESS + program.len() {
                        program[a - START_ADDRESS]
                    } else {
                        self.memory[a]
                    },
            ),
            ..self
        }
    }

    /// Whether key number `key` exists and is held down.
    pub open spec fn key_down(self, key: int) -> bool {
        0 <= key < KEY_COUNT && self.keypad[key]
    }
}

} // verus!

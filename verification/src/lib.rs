//! A CHIP-8 virtual machine: sixteen 8-bit registers, 4 KiB of memory, a
//! 64x32 monochrome framebuffer, a sixteen-key pad and two countdown timers.
//!
//! Every instruction is specified as a function on a mathematical model of
//! the machine state, and the interpreter is proved to follow that model.

pub mod chip8;
pub mod display;
pub mod entropy;
pub mod error;
pub mod laws;
pub mod machine;
pub mod opcode;
pub mod platform;
pub mod semantics;

pub use crate::chip8::Chip8;
pub use crate::error::Chip8Error;
pub use crate::machine::Machine;
pub use crate::platform::Platform;

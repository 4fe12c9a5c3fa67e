//! Positional fields of a 16-bit instruction word.
//!
//! The word is read as four nibbles. The highest selects the instruction
//! group, the next two usually name the registers X and Y, and the lowest is
//! a sub-opcode or a sprite height. The low byte doubles as an 8-bit
//! immediate and the low twelve bits as an address.

use vstd::prelude::*;

verus! {

/// The instruction group: bits 12 to 15.
pub open spec fn group_of(opcode: u16) -> int {
    opcode as int / 0x1000
}

/// The register operand X: bits 8 to 11.
pub open spec fn x_of(opcode: u16) -> int {
    (opcode as int / 0x100) % 0x10
}

/// The register operand Y: bits 4 to 7.
pub open spec fn y_of(opcode: u16) -> int {
    (opcode as int / 0x10) % 0x10
}

/// The lowest nibble: bits 0 to 3.
pub open spec fn n_of(opcode: u16) -> int {
    opcode as int % 0x10
}

/// The 8-bit immediate: bits 0 to 7.
pub open spec fn kk_of(opcode: u16) -> u8 {
    (opcode as int % 0x100) as u8
}

/// The 12-bit address: bits 0 to 11.
pub open spec fn nnn_of(opcode: u16) -> u16 {
    (opcode as int % 0x1000) as u16
}

/// Combines two consecutive bytes into the big-endian word they encode.
pub open spec fn word_of(high: u8, low: u8) -> u16 {
    (high as int * 0x100 + low as int) as u16
}

pub fn group(opcode: u16) -> (g: u16)
    ensures
        g == group_of(opcode),
        g < 16,
{
    let g: u16 = (opcode & 0xF000) >> 12;
    assert(((opcode & 0xF000) >> 12) == opcode / 0x1000) by (bit_vector);
    g
}

pub fn reg_x(opcode: u16) -> (x: usize)
    ensures
        x == x_of(opcode),
        x < 16,
{
    let x: u16 = (opcode & 0x0F00) >> 8;
    assert(((opcode & 0x0F00) >> 8) == (opcode / 0x100) % 0x10) by (bit_vector);
    x as usize
}

pub fn reg_y(opcode: u16) -> (y: usize)
    ensures
        y == y_of(opcode),
        y < 16,
{
    let y: u16 = (opcode & 0x00F0) >> 4;
    assert(((opcode & 0x00F0) >> 4) == (opcode / 0x10) % 0x10) by (bit_vector);
    y as usize
}

pub fn nibble(opcode: u16) -> (n: usize)
    ensures
        n == n_of(opcode),
        n < 16,
{
    let n: u16 = opcode & 0x000F;
    assert(opcode & 0x000F == opcode % 0x10) by (bit_vector);
    n as usize
}

pub fn immediate(opcode: u16) -> (kk: u8)
    ensures
        kk == kk_of(opcode),
{
    let low: u16 = opcode & 0x00FF;
    assert(opcode & 0x00FF == opcode % 0x100) by (bit_vector);
    low as u8
}

pub fn address(opcode: u16) -> (nnn: u16)
    ensures
        nnn == nnn_of(opcode),
        nnn < 0x1000,
{
    let nnn: u16 = opcode & 0x0FFF;
    assert(opcode & 0x0FFF == opcode % 0x1000) by (bit_vector);
    nnn
}

pub fn word(high: u8, low: u8) -> (w: u16)
    ensures
        w == word_of(high, low),
{
    let h: u16 = high as u16;
    let l: u16 = low as u16;
    assert((h << 8) | l == h * 0x100 + l) by (bit_vector)
        requires
            h < 0x100,
            l < 0x100,
    ;
    (h << 8) | l
}

} // verus!

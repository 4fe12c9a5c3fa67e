//! What holds of every machine, stated over the model and proved from the
//! definitions of the instructions.

use vstd::prelude::*;
use crate::display::{collides_at, draw_left, draw_top, sprite_covers};
use crate::machine::{
    Machine, FLAG, FONTSET, FONTSET_SIZE, FONTSET_START_ADDRESS, MAX_ROM_SIZE, MEMORY_SIZE,
    PIXEL_ON, START_ADDRESS, VIDEO_SIZE,
};
use crate::opcode::{group_of, kk_of, n_of, x_of, y_of};

verus! {

/// The initial state is valid and holds the font, byte for byte, from
/// address 0x050 on.
pub proof fn lemma_initial_state()
    ensures
        Machine::initial().valid(),
        Machine::initial().memory.subrange(
            FONTSET_START_ADDRESS as int,
            FONTSET_START_ADDRESS + FONTSET_SIZE,
        ) == FONTSET@,
{
    assert(Machine::initial().memory.subrange(
        FONTSET_START_ADDRESS as int,
        FONTSET_START_ADDRESS + FONTSET_SIZE,
    ) =~= FONTSET@);
}

/// A loaded program can be read back from the start address, byte for
/// byte, and every byte outside it is as it was.
pub proof fn lemma_program_reads_back(m: Machine, program: Seq<u8>)
    requires
        m.valid(),
        program.len() <= MAX_ROM_SIZE,
    ensures
        m.with_program(program).valid(),
        m.with_program(program).memory.subrange(
            START_ADDRESS as int,
            START_ADDRESS + program.len(),
        ) == program,
        forall|a: int|
            0 <= a < START_ADDRESS || START_ADDRESS + program.len() <= a < MEMORY_SIZE
                ==> m.with_program(program).memory[a] == m.memory[a],
{
    assert(m.with_program(program).memory.subrange(
        START_ADDRESS as int,
        START_ADDRESS + program.len(),
    ) =~= program);
}

/// Flipping a cell that is lit or unlit leaves it lit or unlit, and
/// flipping it twice gives it back.
pub proof fn lemma_flip(pixel: u32)
    ensures
        (pixel ^ PIXEL_ON) ^ PIXEL_ON == pixel,
        pixel == 0 ==> pixel ^ PIXEL_ON == PIXEL_ON,
        pixel == PIXEL_ON ==> pixel ^ PIXEL_ON == 0,
{
    assert((pixel ^ 0xFFFF_FFFFu32) ^ 0xFFFF_FFFFu32 == pixel) by (bit_vector);
    assert(0u32 ^ 0xFFFF_FFFFu32 == 0xFFFF_FFFFu32) by (bit_vector);
    assert(0xFFFF_FFFFu32 ^ 0xFFFF_FFFFu32 == 0u32) by (bit_vector);
}

/// An instruction that can be executed takes a valid state to a valid
/// state: no register, byte, stack slot or cell is added or lost, the stack
/// pointer stays within the stack and every cell stays lit or unlit.
pub proof fn lemma_execute_preserves_valid(m: Machine, opcode: u16, random: u8)
    requires
        m.valid(),
        m.fault(opcode) is None,
    ensures
        m.execute(opcode, random).valid(),
{
    let after = m.execute(opcode, random);
    if group_of(opcode) == 0xD {
        assert forall|cell: int| 0 <= cell < VIDEO_SIZE implies after.video[cell] == 0
            || after.video[cell] == PIXEL_ON by {
            lemma_flip(m.video[cell]);
        }
    }
}

/// A step takes a valid state to a valid state.
pub proof fn lemma_step_preserves_valid(m: Machine, random: u8)
    requires
        m.valid(),
    ensures
        m.step(random).valid(),
{
    if m.can_fetch() && m.step_fault() is None {
        let advanced = m.with_pc((m.pc + 2) as u16);
        assert(advanced.fault(m.fetch()) == m.fault(m.fetch()));
        lemma_execute_preserves_valid(advanced, m.fetch(), random);
    }
}

/// A step that reports a failure, or that finds the program counter on or
/// past the last byte of memory, changes nothing.
pub proof fn lemma_refused_step_changes_nothing(m: Machine, random: u8)
    requires
        !m.can_fetch() || m.step_fault() is Some,
    ensures
        m.step(random) == m,
{
}

/// Only the random instruction reads the random byte.
pub proof fn lemma_step_ignores_random(m: Machine, first: u8, second: u8)
    requires
        !m.fetches_random(),
    ensures
        m.step(first) == m.step(second),
{
}

/// On every step that executes an instruction, each timer that is not zero
/// goes down by exactly one, whatever the instruction, unless the
/// instruction is the one that sets that timer.
pub proof fn lemma_timers_tick(m: Machine, random: u8)
    requires
        m.valid(),
        m.can_fetch(),
        m.step_fault() is None,
    ensures
        !(group_of(m.fetch()) == 0xF && kk_of(m.fetch()) == 0x15) ==> m.step(random).delay_timer
            == if m.delay_timer > 0 {
            m.delay_timer - 1
        } else {
            0
        },
        !(group_of(m.fetch()) == 0xF && kk_of(m.fetch()) == 0x18) ==> m.step(random).sound_timer
            == if m.sound_timer > 0 {
            m.sound_timer - 1
        } else {
            0
        },
{
}

/// Waiting for a key with no key down: the step leaves the program counter
/// where it was, so the same instruction runs again. Only the timers move.
pub proof fn lemma_wait_key_repeats(m: Machine, random: u8)
    requires
        m.valid(),
        m.can_fetch(),
        group_of(m.fetch()) == 0xF,
        kk_of(m.fetch()) == 0x0A,
        !m.any_key_down(),
    ensures
        m.step(random).pc == m.pc,
        m.step(random) == m.tick(),
{
    let advanced = m.with_pc((m.pc + 2) as u16);
    assert(!advanced.any_key_down()) by {
        if advanced.any_key_down() {
            let key = choose|key: int| advanced.key_down(key);
            assert(m.key_down(key));
        }
    }
    assert(advanced.wait_key(m.fetch()) == m);
}

/// Waiting for a key with `key` the lowest key down: the step stores `key`
/// in Vx and goes on to the next instruction.
pub proof fn lemma_wait_key_takes_first(m: Machine, random: u8, key: int)
    requires
        m.valid(),
        m.can_fetch(),
        group_of(m.fetch()) == 0xF,
        kk_of(m.fetch()) == 0x0A,
        m.is_first_key_down(key),
    ensures
        m.step(random).pc == m.pc + 2,
        m.step(random).registers == m.registers.update(x_of(m.fetch()), key as u8),
{
    let advanced = m.with_pc((m.pc + 2) as u16);
    assert(advanced.key_down(key));
    assert(advanced.is_first_key_down(key)) by {
        assert forall|other: int| 0 <= other < key implies !advanced.key_down(other) by {
            assert(!m.key_down(other));
        }
    }
    let first = advanced.first_key_down();
    assert(advanced.is_first_key_down(first));
    assert(first == key) by {
        if first < key {
            assert(!advanced.key_down(first));
        } else if key < first {
            assert(!advanced.key_down(key));
        }
    }
}

/// Skip if Vx equals `kk`: the step moves the program counter by 4 when
/// they are equal and by 2 when they are not.
pub proof fn lemma_skip_eq_byte_advance(m: Machine, random: u8)
    requires
        m.valid(),
        m.can_fetch(),
        group_of(m.fetch()) == 0x3,
    ensures
        m.step(random).pc == m.pc + if m.vx(m.fetch()) == kk_of(m.fetch()) {
            4int
        } else {
            2int
        },
{
}

/// The three digits that the BCD instruction stores are decimal digits and
/// spell the value.
pub proof fn lemma_bcd_digits(value: u8)
    ensures
        value / 100 <= 2,
        (value / 10) % 10 <= 9,
        value % 10 <= 9,
        100 * (value / 100) + 10 * ((value / 10) % 10) + value % 10 == value,
{
}

/// Drawing a sprite a second time at the same place gives back the
/// framebuffer that was there before the first draw, provided that neither
/// coordinate is read from the flag register, which the first draw writes.
pub proof fn lemma_draw_twice_restores(m: Machine, opcode: u16)
    requires
        m.valid(),
        x_of(opcode) != FLAG,
        y_of(opcode) != FLAG,
    ensures
        m.draw(opcode).draw(opcode).video == m.video,
        m.draw(opcode).draw(opcode).registers[FLAG as int] == 1 <==> exists|cell: int|
            0 <= cell < VIDEO_SIZE && sprite_covers(m, opcode, cell) && m.video[cell] == 0,
{
    let once = m.draw(opcode);
    let twice = once.draw(opcode);
    assert(draw_left(once, opcode) == draw_left(m, opcode));
    assert(draw_top(once, opcode) == draw_top(m, opcode));
    assert forall|cell: int| 0 <= cell < VIDEO_SIZE implies sprite_covers(once, opcode, cell)
        == sprite_covers(m, opcode, cell) by {}
    assert forall|cell: int| 0 <= cell < VIDEO_SIZE implies twice.video[cell]
        == m.video[cell] by {
        lemma_flip(m.video[cell]);
    }
    assert(twice.video =~= m.video);
    let n = n_of(opcode);
    if exists|cell: int|
        0 <= cell < VIDEO_SIZE && sprite_covers(m, opcode, cell) && m.video[cell] == 0 {
        let cell = choose|cell: int|
            0 <= cell < VIDEO_SIZE && sprite_covers(m, opcode, cell) && m.video[cell] == 0;
        lemma_flip(m.video[cell]);
        assert(collides_at(once, opcode, cell, n, 0));
    }
    if exists|cell: int| collides_at(once, opcode, cell, n, 0) {
        let cell = choose|cell: int| collides_at(once, opcode, cell, n, 0);
        lemma_flip(m.video[cell]);
        assert(sprite_covers(m, opcode, cell));
        assert(m.video[cell] == 0);
    }
}

} // verus!

//! What each instruction does to the machine.
//!
//! Every instruction is a function from a [`Machine`] and an instruction word
//! to the next [`Machine`]. The functions that describe one instruction take
//! the state after the program counter has moved past that instruction, as
//! the interpreter advances before it dispatches.

use vstd::prelude::*;
use crate::display::{draw_collides, draw_video};
use crate::error::Chip8Error;
use crate::machine::{
    Machine, FLAG, FONTSET_START_ADDRESS, MAX_ROM_SIZE, MEMORY_SIZE, REGISTER_COUNT, STACK_SIZE,
    VIDEO_SIZE,
};
use crate::opcode::{group_of, kk_of, n_of, nnn_of, word_of, x_of, y_of};

verus! {

/// The 8-bit value that `i` wraps to.
pub open spec fn wrap8(i: int) -> u8 {
    (i % 0x100) as u8
}

/// What a function returns for a failure that it did or did not run into.
pub open spec fn outcome(fault: Option<Chip8Error>) -> Result<(), Chip8Error> {
    match fault {
        Some(fault) => Err(fault),
        None => Ok(()),
    }
}

/// The failure that loading `program` runs into: it must fit between the
/// start address and the end of memory.
pub open spec fn load_fault(program: Seq<u8>) -> Option<Chip8Error> {
    if program.len() > MAX_ROM_SIZE {
        Some(Chip8Error::RomTooLarge)
    } else {
        None
    }
}

/// One when `b` holds and zero when it does not.
pub open spec fn flag_of(b: bool) -> u8 {
    if b {
        1
    } else {
        0
    }
}

impl Machine {
    /// Register X of the instruction.
    pub open spec fn vx(self, opcode: u16) -> u8 {
        self.registers[x_of(opcode)]
    }

    /// Register Y of the instruction.
    pub open spec fn vy(self, opcode: u16) -> u8 {
        self.registers[y_of(opcode)]
    }

    /// 00E0: every cell of the framebuffer is unlit.
    pub open spec fn clear_screen(self) -> Machine {
        Machine { video: Seq::new(VIDEO_SIZE as nat, |cell: int| 0u32), ..self }
    }

    /// 00EE: the top of the call stack becomes the program counter.
    pub open spec fn ret(self) -> Machine {
        Machine { sp: (self.sp - 1) as u8, pc: self.stack[self.sp - 1], ..self }
    }

    /// 1nnn: the program counter becomes `nnn`.
    pub open spec fn jump(self, opcode: u16) -> Machine {
        self.with_pc(nnn_of(opcode))
    }

    /// 2nnn: the program counter is pushed and becomes `nnn`.
    pub open spec fn call(self, opcode: u16) -> Machine {
        Machine {
            stack: self.stack.update(self.sp as int, self.pc),
            sp: (self.sp + 1) as u8,
            pc: nnn_of(opcode),
            ..self
        }
    }

    /// 3xkk: skips the next instruction when Vx equals `kk`.
    pub open spec fn skip_eq_byte(self, opcode: u16) -> Machine {
        self.skip_if(self.vx(opcode) == kk_of(opcode))
    }

    /// 4xkk: skips the next instruction when Vx differs from `kk`.
    pub open spec fn skip_ne_byte(self, opcode: u16) -> Machine {
        self.skip_if(self.vx(opcode) != kk_of(opcode))
    }

    /// 5xy0: skips the next instruction when Vx equals Vy.
    pub open spec fn skip_eq_reg(self, opcode: u16) -> Machine {
        self.skip_if(self.vx(opcode) == self.vy(opcode))
    }

    /// 6xkk: Vx becomes `kk`.
    pub open spec fn load_byte(self, opcode: u16) -> Machine {
        self.with_register(x_of(opcode), kk_of(opcode))
    }

    /// 7xkk: Vx becomes Vx plus `kk`, wrapped to eight bits. No flag changes.
    pub open spec fn add_byte(self, opcode: u16) -> Machine {
        self.with_register(x_of(opcode), wrap8(self.vx(opcode) + kk_of(opcode)))
    }

    /// 8xy0: Vx becomes Vy.
    pub open spec fn load_reg(self, opcode: u16) -> Machine {
        self.with_register(x_of(opcode), self.vy(opcode))
    }

    /// 8xy1: Vx becomes Vx OR Vy.
    pub open spec fn or_reg(self, opcode: u16) -> Machine {
        self.with_register(x_of(opcode), self.vx(opcode) | self.vy(opcode))
    }

    /// 8xy2: Vx becomes Vx AND Vy.
    pub open spec fn and_reg(self, opcode: u16) -> Machine {
        self.with_register(x_of(opcode), self.vx(opcode) & self.vy(opcode))
    }

    /// 8xy3: Vx becomes Vx XOR Vy.
    pub open spec fn xor_reg(self, opcode: u16) -> Machine {
        self.with_register(x_of(opcode), self.vx(opcode) ^ self.vy(opcode))
    }

    /// 8xy4: the flag becomes the carry of Vx plus Vy, then Vx becomes the
    /// sum wrapped to eight bits. With X = 15 the sum is what stays.
    pub open spec fn add_reg(self, opcode: u16) -> Machine {
        let sum = self.vx(opcode) + self.vy(opcode);
        self.with_register(FLAG as int, flag_of(sum > 0xFF)).with_register(
            x_of(opcode),
            wrap8(sum),
        )
    }

    /// 8xy5: the flag becomes one when Vx exceeds Vy, then Vx becomes Vx
    /// minus Vy, wrapped. The subtraction reads the registers after the flag
    /// was written, which matters only when X or Y is 15.
    pub open spec fn sub_reg(self, opcode: u16) -> Machine {
        let flagged = self.with_register(
            FLAG as int,
            flag_of(self.vx(opcode) > self.vy(opcode)),
        );
        flagged.with_register(x_of(opcode), wrap8(flagged.vx(opcode) - flagged.vy(opcode)))
    }

    /// 8xy6: the flag becomes the lowest bit of Vx, then Vx is halved.
    pub open spec fn shift_right(self, opcode: u16) -> Machine {
        let flagged = self.with_register(FLAG as int, self.vx(opcode) % 2);
        flagged.with_register(x_of(opcode), flagged.vx(opcode) / 2)
    }

    /// 8xy7: the flag becomes one when Vy exceeds Vx, then Vx becomes Vy
    /// minus Vx, wrapped. The subtraction reads the registers after the flag
    /// was written.
    pub open spec fn sub_reversed(self, opcode: u16) -> Machine {
        let flagged = self.with_register(
            FLAG as int,
            flag_of(self.vy(opcode) > self.vx(opcode)),
        );
        flagged.with_register(x_of(opcode), wrap8(flagged.vy(opcode) - flagged.vx(opcode)))
    }

    /// 8xyE: the flag becomes the highest bit of Vx, then Vx is doubled and
    /// wrapped to eight bits.
    pub open spec fn shift_left(self, opcode: u16) -> Machine {
        let flagged = self.with_register(FLAG as int, self.vx(opcode) / 0x80);
        flagged.with_register(x_of(opcode), wrap8(flagged.vx(opcode) * 2))
    }

    /// 9xy0: skips the next instruction when Vx differs from Vy.
    pub open spec fn skip_ne_reg(self, opcode: u16) -> Machine {
        self.skip_if(self.vx(opcode) != self.vy(opcode))
    }

    /// Annn: the index register becomes `nnn`.
    pub open spec fn load_index(self, opcode: u16) -> Machine {
        Machine { index: nnn_of(opcode), ..self }
    }

    /// Bnnn: the program counter becomes `nnn` plus V0.
    pub open spec fn jump_offset(self, opcode: u16) -> Machine {
        self.with_pc((nnn_of(opcode) + self.registers[0]) as u16)
    }

    /// Cxkk: Vx becomes the random byte AND `kk`.
    pub open spec fn random_and(self, opcode: u16, random: u8) -> Machine {
        self.with_register(x_of(opcode), random & kk_of(opcode))
    }

    /// Dxyn: the sprite at the index register is XORed onto the framebuffer
    /// and the flag tells whether a lit cell went dark.
    pub open spec fn draw(self, opcode: u16) -> Machine {
        Machine {
            registers: self.registers.update(
                FLAG as int,
                flag_of(draw_collides(self, opcode)),
            ),
            video: draw_video(self, opcode),
            ..self
        }
    }

    /// Ex9E: skips the next instruction when the key numbered Vx is down.
    pub open spec fn skip_key(self, opcode: u16) -> Machine {
        self.skip_if(self.key_down(self.vx(opcode) as int))
    }

    /// ExA1: skips the next instruction when the key numbered Vx is not
    /// down. A value above 15 names no key, so it counts as not down.
    pub open spec fn skip_not_key(self, opcode: u16) -> Machine {
        self.skip_if(!self.key_down(self.vx(opcode) as int))
    }

    /// Fx07: Vx becomes the delay timer.
    pub open spec fn read_delay(self, opcode: u16) -> Machine {
        self.with_register(x_of(opcode), self.delay_timer)
    }

    /// Whether any key is down.
    pub open spec fn any_key_down(self) -> bool {
        exists|key: int| self.key_down(key)
    }

    /// Whether `key` is down and no key with a smaller number is.
    pub open spec fn is_first_key_down(self, key: int) -> bool {
        &&& self.key_down(key)
        &&& forall|other: int| 0 <= other < key ==> !self.key_down(other)
    }

    /// The smallest number of a key that is down.
    pub open spec fn first_key_down(self) -> int {
        choose|key: int| self.is_first_key_down(key)
    }

    /// Fx0A: with a key down, Vx becomes the smallest number of such a key.
    /// With none, the program counter goes back by one instruction, so that
    /// the same instruction runs again on the next step.
    pub open spec fn wait_key(self, opcode: u16) -> Machine {
        if self.any_key_down() {
            self.with_register(x_of(opcode), self.first_key_down() as u8)
        } else {
            self.with_pc((self.pc - 2) as u16)
        }
    }

    /// Fx15: the delay timer becomes Vx.
    pub open spec fn set_delay(self, opcode: u16) -> Machine {
        Machine { delay_timer: self.vx(opcode), ..self }
    }

    /// Fx18: the sound timer becomes Vx.
    pub open spec fn set_sound(self, opcode: u16) -> Machine {
        Machine { sound_timer: self.vx(opcode), ..self }
    }

    /// Fx1E: the index register grows by Vx. Nothing is masked.
    pub open spec fn add_index(self, opcode: u16) -> Machine {
        Machine { index: (self.index + self.vx(opcode)) as u16, ..self }
    }

    /// Fx29: the index register becomes the address of the glyph for the
    /// digit in Vx, five bytes per glyph from the start of the font.
    pub open spec fn font_address(self, opcode: u16) -> Machine {
        Machine { index: (FONTSET_START_ADDRESS + 5 * self.vx(opcode)) as u16, ..self }
    }

    /// Fx33: the hundreds, tens and ones of Vx go to memory at the index
    /// register and the two bytes after it.
    pub open spec fn store_bcd(self, opcode: u16) -> Machine {
        let value = self.vx(opcode);
        Machine {
            memory: self.memory.update(self.index + 2, value % 10).update(
                self.index + 1,
                (value / 10) % 10,
            ).update(self.index as int, value / 100),
            ..self
        }
    }

    /// Fx55: registers V0 to Vx go to memory from the index register on.
    /// The index register stays.
    pub open spec fn store_registers(self, opcode: u16) -> Machine {
        Machine {
            memory: Seq::new(
                MEMORY_SIZE as nat,
                |a: int|
                    if self.index <= a <= self.index + x_of(opcode) {
                        self.registers[a - self.index]
                    } else {
                        self.memory[a]
                    },
            ),
            ..self
        }
    }

    /// Fx65: registers V0 to Vx are read from memory from the index register
    /// on. The index register stays.
    pub open spec fn load_registers(self, opcode: u16) -> Machine {
        Machine {
            registers: Seq::new(
                REGISTER_COUNT as nat,
                |i: int|
                    if i <= x_of(opcode) {
                        self.memory[self.index + i]
                    } else {
                        self.registers[i]
                    },
            ),
            ..self
        }
    }

    /// Group 0, told apart by the low byte. Any other low byte does nothing.
    pub open spec fn execute_0(self, opcode: u16) -> Machine {
        if kk_of(opcode) == 0xE0 {
            self.clear_screen()
        } else if kk_of(opcode) == 0xEE {
            self.ret()
        } else {
            self
        }
    }

    /// Group 8, told apart by the low nibble. Any other nibble does nothing.
    pub open spec fn execute_8(self, opcode: u16) -> Machine {
        let n = n_of(opcode);
        if n == 0x0 {
            self.load_reg(opcode)
        } else if n == 0x1 {
            self.or_reg(opcode)
        } else if n == 0x2 {
            self.and_reg(opcode)
        } else if n == 0x3 {
            self.xor_reg(opcode)
        } else if n == 0x4 {
            self.add_reg(opcode)
        } else if n == 0x5 {
            self.sub_reg(opcode)
        } else if n == 0x6 {
            self.shift_right(opcode)
        } else if n == 0x7 {
            self.sub_reversed(opcode)
        } else if n == 0xE {
            self.shift_left(opcode)
        } else {
            self
        }
    }

    /// Group E, told apart by the low byte. Any other low byte does nothing.
    pub open spec fn execute_e(self, opcode: u16) -> Machine {
        if kk_of(opcode) == 0x9E {
            self.skip_key(opcode)
        } else if kk_of(opcode) == 0xA1 {
            self.skip_not_key(opcode)
        } else {
            self
        }
    }

    /// Group F, told apart by the low byte. Any other low byte does nothing.
    pub open spec fn execute_f(self, opcode: u16) -> Machine {
        let kk = kk_of(opcode);
        if kk == 0x07 {
            self.read_delay(opcode)
        } else if kk == 0x0A {
            self.wait_key(opcode)
        } else if kk == 0x15 {
            self.set_delay(opcode)
        } else if kk == 0x18 {
            self.set_sound(opcode)
        } else if kk == 0x1E {
            self.add_index(opcode)
        } else if kk == 0x29 {
            self.font_address(opcode)
        } else if kk == 0x33 {
            self.store_bcd(opcode)
        } else if kk == 0x55 {
            self.store_registers(opcode)
        } else if kk == 0x65 {
            self.load_registers(opcode)
        } else {
            self
        }
    }

    /// The effect of one instruction on the state in which the program
    /// counter has already moved past it. `random` is the byte that the
    /// random instruction uses; no other instruction reads it.
    pub open spec fn execute(self, opcode: u16, random: u8) -> Machine {
        let g = group_of(opcode);
        if g == 0x0 {
            self.execute_0(opcode)
        } else if g == 0x1 {
            self.jump(opcode)
        } else if g == 0x2 {
            self.call(opcode)
        } else if g == 0x3 {
            self.skip_eq_byte(opcode)
        } else if g == 0x4 {
            self.skip_ne_byte(opcode)
        } else if g == 0x5 {
            self.skip_eq_reg(opcode)
        } else if g == 0x6 {
            self.load_byte(opcode)
        } else if g == 0x7 {
            self.add_byte(opcode)
        } else if g == 0x8 {
            self.execute_8(opcode)
        } else if g == 0x9 {
            self.skip_ne_reg(opcode)
        } else if g == 0xA {
            self.load_index(opcode)
        } else if g == 0xB {
            self.jump_offset(opcode)
        } else if g == 0xC {
            self.random_and(opcode, random)
        } else if g == 0xD {
            self.draw(opcode)
        } else if g == 0xE {
            self.execute_e(opcode)
        } else {
            self.execute_f(opcode)
        }
    }

    /// A return needs a stack slot in use.
    pub open spec fn ret_fault(self) -> Option<Chip8Error> {
        if self.sp == 0 {
            Some(Chip8Error::StackUnderflow)
        } else {
            None
        }
    }

    /// A call needs a free stack slot.
    pub open spec fn call_fault(self) -> Option<Chip8Error> {
        if self.sp >= STACK_SIZE {
            Some(Chip8Error::StackOverflow)
        } else {
            None
        }
    }

    /// A draw reads one byte per sprite row from the index register on, and
    /// all of them lie inside memory. A sprite of no rows reads nothing.
    pub open spec fn draw_fault(self, opcode: u16) -> Option<Chip8Error> {
        if n_of(opcode) > 0 && self.index + n_of(opcode) > MEMORY_SIZE {
            Some(Chip8Error::MemoryOutOfBounds)
        } else {
            None
        }
    }

    /// The index register plus Vx fits in sixteen bits.
    pub open spec fn add_index_fault(self, opcode: u16) -> Option<Chip8Error> {
        if self.index + self.vx(opcode) > 0xFFFF {
            Some(Chip8Error::IndexOverflow)
        } else {
            None
        }
    }

    /// The three bytes from the index register on lie inside memory.
    pub open spec fn store_bcd_fault(self) -> Option<Chip8Error> {
        if self.index + 2 >= MEMORY_SIZE {
            Some(Chip8Error::MemoryOutOfBounds)
        } else {
            None
        }
    }

    /// The bytes for V0 to Vx from the index register on lie inside memory.
    pub open spec fn block_fault(self, opcode: u16) -> Option<Chip8Error> {
        if self.index + x_of(opcode) >= MEMORY_SIZE {
            Some(Chip8Error::MemoryOutOfBounds)
        } else {
            None
        }
    }

    /// The failure that executing `opcode` in this state runs into, if any.
    ///
    /// Only a return, a call, a draw and the instructions that go through
    /// the index register can fail. An instruction that fails is refused:
    /// it changes nothing.
    pub open spec fn fault(self, opcode: u16) -> Option<Chip8Error> {
        let g = group_of(opcode);
        let kk = kk_of(opcode);
        if g == 0x0 && kk == 0xEE {
            self.ret_fault()
        } else if g == 0x2 {
            self.call_fault()
        } else if g == 0xD {
            self.draw_fault(opcode)
        } else if g == 0xF && kk == 0x1E {
            self.add_index_fault(opcode)
        } else if g == 0xF && kk == 0x33 {
            self.store_bcd_fault()
        } else if g == 0xF && (kk == 0x55 || kk == 0x65) {
            self.block_fault(opcode)
        } else {
            None
        }
    }

    /// Each timer that is not zero goes down by one.
    pub open spec fn tick(self) -> Machine {
        Machine {
            delay_timer: if self.delay_timer > 0 {
                (self.delay_timer - 1) as u8
            } else {
                0
            },
            sound_timer: if self.sound_timer > 0 {
                (self.sound_timer - 1) as u8
            } else {
                0
            },
            ..self
        }
    }

    /// Whether two bytes can be fetched at the program counter.
    pub open spec fn can_fetch(self) -> bool {
        self.pc < MEMORY_SIZE - 1
    }

    /// The instruction word at the program counter, big-endian.
    pub open spec fn fetch(self) -> u16 {
        word_of(self.memory[self.pc as int], self.memory[self.pc + 1])
    }

    /// The failure that one step from this state reports, if any.
    pub open spec fn step_fault(self) -> Option<Chip8Error> {
        if self.can_fetch() {
            self.fault(self.fetch())
        } else {
            None
        }
    }

    /// The state after one step.
    ///
    /// With the program counter on or past the last byte of memory, and on a
    /// failure, nothing changes. Otherwise the program counter moves past the
    /// instruction, the instruction executes and the timers tick.
    pub open spec fn step(self, random: u8) -> Machine {
        if !self.can_fetch() || self.step_fault() is Some {
            self
        } else {
            self.with_pc((self.pc + 2) as u16).execute(self.fetch(), random).tick()
        }
    }

    /// Whether the instruction at the program counter is the random one.
    pub open spec fn fetches_random(self) -> bool {
        self.can_fetch() && group_of(self.fetch()) == 0xC
    }
}

} // verus!

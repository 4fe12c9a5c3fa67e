//! The interpreter: the machine state and the instructions that change it.

use vstd::prelude::*;
use rand::rngs::StdRng;
use crate::display::{
    collides_before, draw_left, draw_top, lemma_draw_next_row, lemma_draw_pixel,
    lemma_draw_start, pixel_drawn, sprite_covers_before, target_cell,
};
use crate::entropy::{clock_seed, rng_from_seed, rng_next_byte};
use crate::error::Chip8Error;
use crate::laws::lemma_initial_state;
use crate::machine::{
    Machine, FLAG, FONTSET, FONTSET_SIZE, FONTSET_START_ADDRESS, KEY_COUNT, MAX_ROM_SIZE,
    MEMORY_SIZE, PIXEL_ON, REGISTER_COUNT, STACK_SIZE, START_ADDRESS, VIDEO_HEIGHT, VIDEO_SIZE,
    VIDEO_WIDTH,
};
use crate::opcode::{
    address, group, group_of, immediate, n_of, nibble, reg_x, reg_y, word, x_of,
};
use crate::semantics::{flag_of, load_fault, outcome};

verus! {

/// A CHIP-8 machine.
///
/// The state is private. Contracts speak of it through the view `@`, a
/// [`Machine`], which holds everything but the random source, and of the
/// random source through [`Chip8::random_source`].
pub struct Chip8 {
    registers: [u8; 16],
    memory: [u8; 4096],
    index: u16,
    pc: u16,
    stack: [u16; 16],
    sp: u8,
    delay_timer: u8,
    sound_timer: u8,
    keypad: [bool; 16],
    video: [u32; 2048],
    rng: StdRng,
}

impl View for Chip8 {
    type V = Machine;

    closed spec fn view(&self) -> Machine {
        Machine {
            registers: self.registers@,
            memory: self.memory@,
            index: self.index,
            pc: self.pc,
            stack: self.stack@,
            sp: self.sp,
            delay_timer: self.delay_timer,
            sound_timer: self.sound_timer,
            keypad: self.keypad@,
            video: self.video@,
        }
    }
}

impl Chip8 {
    #[verifier::type_invariant]
    spec fn well_formed(self) -> bool {
        &&& self.sp <= STACK_SIZE
        &&& forall|cell: int|
            0 <= cell < VIDEO_SIZE ==> self.video[cell] == 0 || self.video[cell] == PIXEL_ON
    }

    /// A machine in its initial state whose random source is seeded from the
    /// wall clock.
    pub fn new() -> (chip8: Chip8)
        ensures
            chip8@ == Machine::initial(),
            chip8@.valid(),
            chip8@.memory.subrange(
                FONTSET_START_ADDRESS as int,
                FONTSET_START_ADDRESS + FONTSET_SIZE,
            ) == FONTSET@,
    {
        Chip8::with_seed(clock_seed())
    }

    /// A machine in its initial state whose random source is seeded with
    /// `seed`.
    pub fn with_seed(seed: u64) -> (chip8: Chip8)
        ensures
            chip8@ == Machine::initial(),
            chip8@.valid(),
            chip8@.memory.subrange(
                FONTSET_START_ADDRESS as int,
                FONTSET_START_ADDRESS + FONTSET_SIZE,
            ) == FONTSET@,
    {
        proof {
            lemma_initial_state();
        }
        let mut chip8 = Chip8 {
            registers: [0u8; 16],
            memory: [0u8; 4096],
            index: 0,
            pc: START_ADDRESS,
            stack: [0u16; 16],
            sp: 0,
            delay_timer: 0,
            sound_timer: 0,
            keypad: [false; 16],
            video: [0u32; 2048],
            rng: rng_from_seed(seed),
        };
        chip8.load_fontset();
        chip8
    }

    /// Puts the machine back into its initial state. The random source
    /// goes on from where it is.
    pub fn reset(&mut self)
        ensures
            final(self)@ == Machine::initial(),
            final(self).random_source() == old(self).random_source(),
    {
        proof {
            use_type_invariant(&*self);
        }
        self.registers = [0u8; 16];
        self.memory = [0u8; 4096];
        self.index = 0;
        self.pc = START_ADDRESS;
        self.stack = [0u16; 16];
        self.sp = 0;
        self.delay_timer = 0;
        self.sound_timer = 0;
        self.keypad = [false; 16];
        self.video = [0u32; 2048];
        self.load_fontset();
    }

    /// Draws the next byte from the random source. The machine state stays
    /// as it is.
    pub fn random_byte(&mut self) -> (byte: u8)
        ensures
            final(self)@ == old(self)@,
    {
        proof {
            use_type_invariant(&*self);
        }
        rng_next_byte(&mut self.rng)
    }

    /// The random source, of which only its identity is known: a function
    /// that does not draw from it leaves it as it was.
    pub closed spec fn random_source(&self) -> StdRng {
        self.rng
    }

    /// Loads a program at the start address.
    ///
    /// A program of more than 3584 bytes is refused and nothing changes.
    /// Otherwise its bytes are copied to memory from 0x200 on and everything
    /// else stays, the program counter included.
    pub fn load_rom(&mut self, rom_data: &[u8]) -> (result: Result<(), Chip8Error>)
        ensures
            result == outcome(load_fault(rom_data@)),
            final(self)@ == if load_fault(rom_data@) is None {
                old(self)@.with_program(rom_data@)
            } else {
                old(self)@
            },
            load_fault(rom_data@) is None ==> final(self)@.memory.subrange(
                START_ADDRESS as int,
                START_ADDRESS + rom_data@.len(),
            ) == rom_data@,
            final(self).random_source() == old(self).random_source(),
    {
        if rom_data.len() > MEMORY_SIZE - START_ADDRESS as usize {
            return Err(Chip8Error::RomTooLarge);
        }
        self.copy_program(rom_data);
        assert(self@.memory.subrange(START_ADDRESS as int, START_ADDRESS + rom_data@.len())
            =~= rom_data@);
        Ok(())
    }

    /// Loads a program given as bytes in memory, for tests and tools. It is
    /// held to the same limit as [`Chip8::load_rom`]: a program of more than
    /// 3584 bytes is refused and nothing changes.
    pub fn load_test_program(&mut self, program: &[u8]) -> (result: Result<(), Chip8Error>)
        ensures
            result == outcome(load_fault(program@)),
            final(self)@ == if load_fault(program@) is None {
                old(self)@.with_program(program@)
            } else {
                old(self)@
            },
            final(self).random_source() == old(self).random_source(),
    {
        self.load_rom(program)
    }

    fn copy_program(&mut self, program: &[u8])
        requires
            program@.len() <= MAX_ROM_SIZE,
        ensures
            final(self)@ == old(self)@.with_program(program@),
            final(self).random_source() == old(self).random_source(),
    {
        proof {
            use_type_invariant(&*self);
        }
        let start: usize = START_ADDRESS as usize;
        let count: usize = program.len();
        let mut i: usize = 0;
        while i < count
            invariant
                i <= count,
                count == program@.len(),
                count <= MAX_ROM_SIZE,
                start == START_ADDRESS,
                self.well_formed(),
                self.random_source() == old(self).random_source(),
                self@ == (Machine { memory: self@.memory, ..old(self)@ }),
                forall|a: int|
                    0 <= a < MEMORY_SIZE ==> self.memory[a] == if start <= a < start + i {
                        program@[a - start]
                    } else {
                        old(self).memory[a]
                    },
            decreases count - i,
        {
            self.memory[start + i] = program[i];
            i += 1;
        }
    }

    /// The framebuffer, row by row: 2048 cells, each zero or `PIXEL_ON`.
    pub fn get_display(&self) -> (display: &[u32])
        ensures
            display@ == self@.video,
            self@.valid(),
    {
        proof {
            use_type_invariant(self);
        }
        &self.video
    }

    /// Replaces the state of all sixteen keys.
    pub fn set_keys(&mut self, keys: &[bool; 16])
        ensures
            final(self)@ == (Machine { keypad: keys@, ..old(self)@ }),
            final(self).random_source() == old(self).random_source(),
    {
        proof {
            use_type_invariant(&*self);
        }
        self.keypad = *keys;
    }

    fn load_fontset(&mut self)
        ensures
            final(self)@ == (Machine {
                memory: Seq::new(
                    MEMORY_SIZE as nat,
                    |a: int|
                        if FONTSET_START_ADDRESS <= a < FONTSET_START_ADDRESS + FONTSET_SIZE {
                            FONTSET[a - FONTSET_START_ADDRESS]
                        } else {
                            old(self)@.memory[a]
                        },
                ),
                ..old(self)@
            }),
            final(self).random_source() == old(self).random_source(),
    {
        proof {
            use_type_invariant(&*self);
        }
        let start: usize = FONTSET_START_ADDRESS as usize;
        let mut i: usize = 0;
        while i < FONTSET_SIZE
            invariant
                i <= FONTSET_SIZE,
                start == FONTSET_START_ADDRESS,
                self.well_formed(),
                self.random_source() == old(self).random_source(),
                self@ == (Machine { memory: self@.memory, ..old(self)@ }),
                forall|a: int|
                    0 <= a < MEMORY_SIZE ==> self.memory[a] == if start <= a < start + i {
                        FONTSET[a - start]
                    } else {
                        old(self).memory[a]
                    },
            decreases FONTSET_SIZE - i,
        {
            self.memory[start + i] = FONTSET[i];
            i += 1;
        }
    }

    /// The program counter.
    pub fn get_pc(&self) -> (pc: u16)
        ensures
            pc == self@.pc,
    {
        self.pc
    }

    /// Register `index`, which must be below 16.
    pub fn get_register(&self, index: usize) -> (value: u8)
        requires
            index < REGISTER_COUNT,
        ensures
            value == self@.registers[index as int],
    {
        self.registers[index]
    }

    /// The index register.
    pub fn get_index(&self) -> (index: u16)
        ensures
            index == self@.index,
    {
        self.index
    }

    /// The number of stack slots in use, at most 16.
    pub fn get_sp(&self) -> (sp: u8)
        ensures
            sp == self@.sp,
            sp <= STACK_SIZE,
    {
        proof {
            use_type_invariant(self);
        }
        self.sp
    }

    /// Stack slot `index`, which must be below 16.
    pub fn get_stack(&self, index: usize) -> (value: u16)
        requires
            index < STACK_SIZE,
        ensures
            value == self@.stack[index as int],
    {
        self.stack[index]
    }

    /// The delay timer.
    pub fn get_delay_timer(&self) -> (value: u8)
        ensures
            value == self@.delay_timer,
    {
        self.delay_timer
    }

    /// The sound timer.
    pub fn get_sound_timer(&self) -> (value: u8)
        ensures
            value == self@.sound_timer,
    {
        self.sound_timer
    }

    /// The byte at `address`, which must be below 4096.
    pub fn get_memory(&self, address: usize) -> (value: u8)
        requires
            address < MEMORY_SIZE,
        ensures
            value == self@.memory[address as int],
    {
        self.memory[address]
    }

    /// Sets the program counter.
    pub fn set_pc(&mut self, pc: u16)
        ensures
            final(self)@ == old(self)@.with_pc(pc),
            final(self).random_source() == old(self).random_source(),
    {
        proof {
            use_type_invariant(&*self);
        }
        self.pc = pc;
    }

    /// Sets register `index`, which must be below 16.
    pub fn set_register(&mut self, index: usize, value: u8)
        requires
            index < REGISTER_COUNT,
        ensures
            final(self)@ == old(self)@.with_register(index as int, value),
            final(self).random_source() == old(self).random_source(),
    {
        proof {
            use_type_invariant(&*self);
        }
        self.registers[index] = value;
    }

    /// Sets the index register.
    pub fn set_index(&mut self, index: u16)
        ensures
            final(self)@ == (Machine { index, ..old(self)@ }),
            final(self).random_source() == old(self).random_source(),
    {
        proof {
            use_type_invariant(&*self);
        }
        self.index = index;
    }

    /// Sets the number of stack slots in use, which must be at most 16.
    pub fn set_sp(&mut self, sp: u8)
        requires
            sp <= STACK_SIZE,
        ensures
            final(self)@ == (Machine { sp, ..old(self)@ }),
            final(self).random_source() == old(self).random_source(),
    {
        proof {
            use_type_invariant(&*self);
        }
        self.sp = sp;
    }

    /// Sets stack slot `index`, which must be below 16.
    pub fn set_stack(&mut self, index: usize, value: u16)
        requires
            index < STACK_SIZE,
        ensures
            final(self)@ == (Machine {
                stack: old(self)@.stack.update(index as int, value),
                ..old(self)@
            }),
            final(self).random_source() == old(self).random_source(),
    {
        proof {
            use_type_invariant(&*self);
        }
        self.stack[index] = value;
    }

    /// Sets the delay timer.
    pub fn set_delay_timer(&mut self, value: u8)
        ensures
            final(self)@ == (Machine { delay_timer: value, ..old(self)@ }),
            final(self).random_source() == old(self).random_source(),
    {
        proof {
            use_type_invariant(&*self);
        }
        self.delay_timer = value;
    }

    /// Sets the sound timer.
    pub fn set_sound_timer(&mut self, value: u8)
        ensures
            final(self)@ == (Machine { sound_timer: value, ..old(self)@ }),
            final(self).random_source() == old(self).random_source(),
    {
        proof {
            use_type_invariant(&*self);
        }
        self.sound_timer = value;
    }

    /// Sets the byte at `address`, which must be below 4096.
    pub fn set_memory(&mut self, address: usize, value: u8)
        requires
            address < MEMORY_SIZE,
        ensures
            final(self)@ == (Machine {
                memory: old(self)@.memory.update(address as int, value),
                ..old(self)@
            }),
            final(self).random_source() == old(self).random_source(),
    {
        proof {
            use_type_invariant(&*self);
        }
        self.memory[address] = value;
    }

    /// Sets framebuffer cell `cell`, which must be below 2048, to `value`,
    /// which must be zero or `PIXEL_ON`.
    pub fn set_pixel(&mut self, cell: usize, value: u32)
        requires
            cell < VIDEO_SIZE,
            value == 0 || value == PIXEL_ON,
        ensures
            final(self)@ == (Machine {
                video: old(self)@.video.update(cell as int, value),
                ..old(self)@
            }),
            final(self).random_source() == old(self).random_source(),
    {
        proof {
            use_type_invariant(&*self);
        }
        self.video[cell] = value;
    }
}

/// The instructions, one function each. `opcode` is the instruction word
/// that selected the function; only its operand fields are read. An
/// instruction that can fail returns the failure and then changes nothing.
impl Chip8 {
    /// 00E0: clears the display.
    pub fn op_00e0(&mut self)
        ensures
            final(self)@ == old(self)@.clear_screen(),
            final(self).random_source() == old(self).random_source(),
    {
        proof {
            use_type_invariant(&*self);
        }
        self.video = [0u32; 2048];
    }

    /// 00EE: returns from a subroutine. With an empty call stack the return
    /// is refused and nothing changes.
    pub fn op_00ee(&mut self) -> (result: Result<(), Chip8Error>)
        ensures
            result == outcome(old(self)@.ret_fault()),
            final(self)@ == if old(self)@.ret_fault() is None {
                old(self)@.ret()
            } else {
                old(self)@
            },
            final(self).random_source() == old(self).random_source(),
    {
        proof {
            use_type_invariant(&*self);
        }
        if self.sp == 0 {
            return Err(Chip8Error::StackUnderflow);
        }
        self.sp -= 1;
        self.pc = self.stack[self.sp as usize];
        Ok(())
    }

    /// 1nnn: jumps to `nnn`.
    pub fn op_1nnn(&mut self, opcode: u16)
        ensures
            final(self)@ == old(self)@.jump(opcode),
            final(self).random_source() == old(self).random_source(),
    {
        proof {
            use_type_invariant(&*self);
        }
        self.pc = address(opcode);
    }

    /// 2nnn: calls the subroutine at `nnn`. With all sixteen stack slots in
    /// use the call is refused and nothing changes.
    pub fn op_2nnn(&mut self, opcode: u16) -> (result: Result<(), Chip8Error>)
        ensures
            result == outcome(old(self)@.call_fault()),
            final(self)@ == if old(self)@.call_fault() is None {
                old(self)@.call(opcode)
            } else {
                old(self)@
            },
            final(self).random_source() == old(self).random_source(),
    {
        proof {
            use_type_invariant(&*self);
        }
        if self.sp as usize >= STACK_SIZE {
            return Err(Chip8Error::StackOverflow);
        }
        let target: u16 = address(opcode);
        self.stack[self.sp as usize] = self.pc;
        self.sp += 1;
        self.pc = target;
        Ok(())
    }

    /// 3xkk: skips the next instruction if Vx equals `kk`.
    pub fn op_3xkk(&mut self, opcode: u16)
        requires
            old(self)@.pc <= u16::MAX - 2,
        ensures
            final(self)@ == old(self)@.skip_eq_byte(opcode),
            final(self).random_source() == old(self).random_source(),
    {
        proof {
            use_type_invariant(&*self);
        }
        let x: usize = reg_x(opcode);
        let byte: u8 = immediate(opcode);
        if self.registers[x] == byte {
            self.pc += 2;
        }
    }

    /// 4xkk: skips the next instruction if Vx differs from `kk`.
    pub fn op_4xkk(&mut self, opcode: u16)
        requires
            old(self)@.pc <= u16::MAX - 2,
        ensures
            final(self)@ == old(self)@.skip_ne_byte(opcode),
            final(self).random_source() == old(self).random_source(),
    {
        proof {
            use_type_invariant(&*self);
        }
        let x: usize = reg_x(opcode);
        let byte: u8 = immediate(opcode);
        if self.registers[x] != byte {
            self.pc += 2;
        }
    }

    /// 5xy0: skips the next instruction if Vx equals Vy.
    pub fn op_5xy0(&mut self, opcode: u16)
        requires
            old(self)@.pc <= u16::MAX - 2,
        ensures
            final(self)@ == old(self)@.skip_eq_reg(opcode),
            final(self).random_source() == old(self).random_source(),
    {
        proof {
            use_type_invariant(&*self);
        }
        let x: usize = reg_x(opcode);
        let y: usize = reg_y(opcode);
        if self.registers[x] == self.registers[y] {
            self.pc += 2;
        }
    }

    /// 6xkk: sets Vx to `kk`.
    pub fn op_6xkk(&mut self, opcode: u16)
        ensures
            final(self)@ == old(self)@.load_byte(opcode),
            final(self).random_source() == old(self).random_source(),
    {
        proof {
            use_type_invariant(&*self);
        }
        let x: usize = reg_x(opcode);
        let byte: u8 = immediate(opcode);
        self.registers[x] = byte;
    }

    /// 7xkk: adds `kk` to Vx, wrapping, without touching the flag.
    pub fn op_7xkk(&mut self, opcode: u16)
        ensures
            final(self)@ == old(self)@.add_byte(opcode),
            final(self).random_source() == old(self).random_source(),
    {
        proof {
            use_type_invariant(&*self);
        }
        let x: usize = reg_x(opcode);
        let byte: u8 = immediate(opcode);
        let sum: u8 = self.registers[x].wrapping_add(byte);
        self.registers[x] = sum;
    }

    /// 8xy0: sets Vx to Vy.
    pub fn op_8xy0(&mut self, opcode: u16)
        ensures
            final(self)@ == old(self)@.load_reg(opcode),
            final(self).random_source() == old(self).random_source(),
    {
        proof {
            use_type_invariant(&*self);
        }
        let x: usize = reg_x(opcode);
        let y: usize = reg_y(opcode);
        self.registers[x] = self.registers[y];
    }

    /// 8xy1: sets Vx to Vx OR Vy.
    pub fn op_8xy1(&mut self, opcode: u16)
        ensures
            final(self)@ == old(self)@.or_reg(opcode),
            final(self).random_source() == old(self).random_source(),
    {
        proof {
            use_type_invariant(&*self);
        }
        let x: usize = reg_x(opcode);
        let y: usize = reg_y(opcode);
        let value: u8 = self.registers[x] | self.registers[y];
        self.registers[x] = value;
    }

    /// 8xy2: sets Vx to Vx AND Vy.
    pub fn op_8xy2(&mut self, opcode: u16)
        ensures
            final(self)@ == old(self)@.and_reg(opcode),
            final(self).random_source() == old(self).random_source(),
    {
        proof {
            use_type_invariant(&*self);
        }
        let x: usize = reg_x(opcode);
        let y: usize = reg_y(opcode);
        let value: u8 = self.registers[x] & self.registers[y];
        self.registers[x] = value;
    }

    /// 8xy3: sets Vx to Vx XOR Vy.
    pub fn op_8xy3(&mut self, opcode: u16)
        ensures
            final(self)@ == old(self)@.xor_reg(opcode),
            final(self).random_source() == old(self).random_source(),
    {
        proof {
            use_type_invariant(&*self);
        }
        let x: usize = reg_x(opcode);
        let y: usize = reg_y(opcode);
        let value: u8 = self.registers[x] ^ self.registers[y];
        self.registers[x] = value;
    }

    /// 8xy4: adds Vy to Vx and sets the flag to the carry.
    pub fn op_8xy4(&mut self, opcode: u16)
        ensures
            final(self)@ == old(self)@.add_reg(opcode),
            final(self).random_source() == old(self).random_source(),
    {
        proof {
            use_type_invariant(&*self);
        }
        let x: usize = reg_x(opcode);
        let y: usize = reg_y(opcode);
        let sum: u16 = self.registers[x] as u16 + self.registers[y] as u16;
        let low: u16 = sum & 0xFF;
        assert(sum & 0xFF == sum % 0x100) by (bit_vector);
        self.registers[FLAG] = if sum > 255 {
            1
        } else {
            0
        };
        self.registers[x] = low as u8;
    }

    /// 8xy5: subtracts Vy from Vx and sets the flag when Vx was the larger.
    pub fn op_8xy5(&mut self, opcode: u16)
        ensures
            final(self)@ == old(self)@.sub_reg(opcode),
            final(self).random_source() == old(self).random_source(),
    {
        proof {
            use_type_invariant(&*self);
        }
        let x: usize = reg_x(opcode);
        let y: usize = reg_y(opcode);
        self.registers[FLAG] = if self.registers[x] > self.registers[y] {
            1
        } else {
            0
        };
        let difference: u8 = self.registers[x].wrapping_sub(self.registers[y]);
        self.registers[x] = difference;
    }

    /// 8xy6: shifts Vx right by one and sets the flag to the bit that left.
    pub fn op_8xy6(&mut self, opcode: u16)
        ensures
            final(self)@ == old(self)@.shift_right(opcode),
            final(self).random_source() == old(self).random_source(),
    {
        proof {
            use_type_invariant(&*self);
        }
        let x: usize = reg_x(opcode);
        let before: u8 = self.registers[x];
        assert(before & 0x1 == before % 2) by (bit_vector);
        self.registers[FLAG] = before & 0x1;
        let value: u8 = self.registers[x];
        assert(value >> 1 == value / 2) by (bit_vector);
        self.registers[x] = value >> 1;
    }

    /// 8xy7: sets Vx to Vy minus Vx and sets the flag when Vy was the larger.
    pub fn op_8xy7(&mut self, opcode: u16)
        ensures
            final(self)@ == old(self)@.sub_reversed(opcode),
            final(self).random_source() == old(self).random_source(),
    {
        proof {
            use_type_invariant(&*self);
        }
        let x: usize = reg_x(opcode);
        let y: usize = reg_y(opcode);
        self.registers[FLAG] = if self.registers[y] > self.registers[x] {
            1
        } else {
            0
        };
        let difference: u8 = self.registers[y].wrapping_sub(self.registers[x]);
        self.registers[x] = difference;
    }

    /// 8xyE: shifts Vx left by one and sets the flag to the bit that left.
    pub fn op_8xye(&mut self, opcode: u16)
        ensures
            final(self)@ == old(self)@.shift_left(opcode),
            final(self).random_source() == old(self).random_source(),
    {
        proof {
            use_type_invariant(&*self);
        }
        let x: usize = reg_x(opcode);
        let before: u8 = self.registers[x];
        assert((before & 0x80) >> 7 == before / 0x80) by (bit_vector);
        self.registers[FLAG] = (before & 0x80) >> 7;
        let value: u8 = self.registers[x];
        assert(value << 1 == (value * 2) % 0x100) by (bit_vector);
        self.registers[x] = value << 1;
    }

    /// 9xy0: skips the next instruction if Vx differs from Vy.
    pub fn op_9xy0(&mut self, opcode: u16)
        requires
            old(self)@.pc <= u16::MAX - 2,
        ensures
            final(self)@ == old(self)@.skip_ne_reg(opcode),
            final(self).random_source() == old(self).random_source(),
    {
        proof {
            use_type_invariant(&*self);
        }
        let x: usize = reg_x(opcode);
        let y: usize = reg_y(opcode);
        if self.registers[x] != self.registers[y] {
            self.pc += 2;
        }
    }

    /// Annn: sets the index register to `nnn`.
    pub fn op_annn(&mut self, opcode: u16)
        ensures
            final(self)@ == old(self)@.load_index(opcode),
            final(self).random_source() == old(self).random_source(),
    {
        proof {
            use_type_invariant(&*self);
        }
        self.index = address(opcode);
    }

    /// Bnnn: jumps to `nnn` plus V0.
    pub fn op_bnnn(&mut self, opcode: u16)
        ensures
            final(self)@ == old(self)@.jump_offset(opcode),
            final(self).random_source() == old(self).random_source(),
    {
        proof {
            use_type_invariant(&*self);
        }
        let target: u16 = address(opcode);
        self.pc = target + self.registers[0] as u16;
    }

    /// Cxkk: sets Vx to a fresh random byte AND `kk`. One byte is drawn from
    /// the random source.
    pub fn op_cxkk(&mut self, opcode: u16)
        ensures
            exists|random: u8| final(self)@ == old(self)@.random_and(opcode, random),
    {
        let random: u8 = self.random_byte();
        self.op_cxkk_with(opcode, random);
    }

    /// Cxkk with the random byte given: sets Vx to `random` AND `kk`.
    pub fn op_cxkk_with(&mut self, opcode: u16, random: u8)
        ensures
            final(self)@ == old(self)@.random_and(opcode, random),
            final(self).random_source() == old(self).random_source(),
    {
        proof {
            use_type_invariant(&*self);
        }
        let x: usize = reg_x(opcode);
        let byte: u8 = immediate(opcode);
        self.registers[x] = random & byte;
    }

    /// Dxyn: draws the `n`-row sprite at the index register with its top
    /// left corner at `(Vx mod 64, Vy mod 32)` and sets the flag to the
    /// collision. Where the sprite's rows do not lie inside memory the draw
    /// is refused and nothing changes.
    pub fn op_dxyn(&mut self, opcode: u16) -> (result: Result<(), Chip8Error>)
        ensures
            result == outcome(old(self)@.draw_fault(opcode)),
            final(self)@ == if old(self)@.draw_fault(opcode) is None {
                old(self)@.draw(opcode)
            } else {
                old(self)@
            },
            final(self).random_source() == old(self).random_source(),
    {
        proof {
            use_type_invariant(&*self);
        }
        let x: usize = reg_x(opcode);
        let y: usize = reg_y(opcode);
        let height: usize = nibble(opcode);
        let x_pos: usize = self.registers[x] as usize % VIDEO_WIDTH;
        let y_pos: usize = self.registers[y] as usize % VIDEO_HEIGHT;
        let base: usize = self.index as usize;
        let ghost m = self@;
        if height > 0 && base + height > MEMORY_SIZE {
            return Err(Chip8Error::MemoryOutOfBounds);
        }

        self.registers[FLAG] = 0;
        proof {
            lemma_draw_start(m, opcode);
        }

        let mut row: usize = 0;
        while row < height
            invariant
                row <= height,
                height == n_of(opcode),
                x_pos == draw_left(m, opcode),
                y_pos == draw_top(m, opcode),
                x_pos < VIDEO_WIDTH,
                y_pos < VIDEO_HEIGHT,
                base == m.index,
                height > 0 ==> base + height <= MEMORY_SIZE,
                m == old(self)@,
                self.well_formed(),
                self.random_source() == old(self).random_source(),
                forall|cell: int|
                    0 <= cell < VIDEO_SIZE ==> m.video[cell] == 0 || m.video[cell] == PIXEL_ON,
                self@ == (Machine { registers: self@.registers, video: self@.video, ..m }),
                self@.registers == m.registers.update(
                    FLAG as int,
                    flag_of(collides_before(m, opcode, row as int, 0)),
                ),
                forall|cell: int|
                    0 <= cell < VIDEO_SIZE ==> self.video[cell] == if sprite_covers_before(
                        m,
                        opcode,
                        cell,
                        row as int,
                        0,
                    ) {
                        m.video[cell] ^ PIXEL_ON
                    } else {
                        m.video[cell]
                    },
            decreases height - row,
        {
            let sprite_byte: u8 = self.memory[base + row];
            let mut col: usize = 0;
            while col < 8
                invariant
                    col <= 8,
                    row < height,
                    height == n_of(opcode),
                    x_pos == draw_left(m, opcode),
                    y_pos == draw_top(m, opcode),
                    x_pos < VIDEO_WIDTH,
                    y_pos < VIDEO_HEIGHT,
                    base == m.index,
                    sprite_byte == m.memory[base + row],
                    m == old(self)@,
                    self.well_formed(),
                    self.random_source() == old(self).random_source(),
                    forall|cell: int|
                        0 <= cell < VIDEO_SIZE ==> m.video[cell] == 0 || m.video[cell]
                            == PIXEL_ON,
                    self@ == (Machine { registers: self@.registers, video: self@.video, ..m }),
                    self@.registers == m.registers.update(
                        FLAG as int,
                        flag_of(collides_before(m, opcode, row as int, col as int)),
                    ),
                    forall|cell: int|
                        0 <= cell < VIDEO_SIZE ==> self.video[cell] == if sprite_covers_before(
                            m,
                            opcode,
                            cell,
                            row as int,
                            col as int,
                        ) {
                            m.video[cell] ^ PIXEL_ON
                        } else {
                            m.video[cell]
                        },
                decreases 8 - col,
            {
                proof {
                    lemma_draw_pixel(m, opcode, row as int, col as int, col + 1);
                }
                let shift: u8 = col as u8;
                let sprite_pixel: u8 = sprite_byte & (0x80u8 >> shift);
                if sprite_pixel != 0 && x_pos + col < VIDEO_WIDTH && y_pos + row < VIDEO_HEIGHT {
                    assert(pixel_drawn(m, opcode, row as int, col as int));
                    let cell: usize = (y_pos + row) * VIDEO_WIDTH + (x_pos + col);
                    assert(cell == target_cell(m, opcode, row as int, col as int));
                    let lit: u32 = self.video[cell];
                    assert(lit == m.video[cell as int]);
                    assert(lit ^ PIXEL_ON == 0 || lit ^ PIXEL_ON == PIXEL_ON) by (bit_vector)
                        requires
                            lit == 0 || lit == PIXEL_ON,
                    ;
                    if lit == PIXEL_ON {
                        self.registers[FLAG] = 1;
                    }
                    self.video[cell] = lit ^ PIXEL_ON;
                } else {
                    assert(!pixel_drawn(m, opcode, row as int, col as int));
                }
                col += 1;
            }
            proof {
                lemma_draw_next_row(m, opcode, row as int, row + 1);
            }
            row += 1;
        }
        Ok(())
    }

    /// Ex9E: skips the next instruction if the key numbered Vx is down.
    pub fn op_ex9e(&mut self, opcode: u16)
        requires
            old(self)@.pc <= u16::MAX - 2,
        ensures
            final(self)@ == old(self)@.skip_key(opcode),
            final(self).random_source() == old(self).random_source(),
    {
        proof {
            use_type_invariant(&*self);
        }
        let x: usize = reg_x(opcode);
        let key: usize = self.registers[x] as usize;
        if key < KEY_COUNT && self.keypad[key] {
            self.pc += 2;
        }
    }

    /// ExA1: skips the next instruction if the key numbered Vx is not down.
    pub fn op_exa1(&mut self, opcode: u16)
        requires
            old(self)@.pc <= u16::MAX - 2,
        ensures
            final(self)@ == old(self)@.skip_not_key(opcode),
            final(self).random_source() == old(self).random_source(),
    {
        proof {
            use_type_invariant(&*self);
        }
        let x: usize = reg_x(opcode);
        let key: usize = self.registers[x] as usize;
        if key >= KEY_COUNT || !self.keypad[key] {
            self.pc += 2;
        }
    }

    /// Fx07: sets Vx to the delay timer.
    pub fn op_fx07(&mut self, opcode: u16)
        ensures
            final(self)@ == old(self)@.read_delay(opcode),
            final(self).random_source() == old(self).random_source(),
    {
        proof {
            use_type_invariant(&*self);
        }
        let x: usize = reg_x(opcode);
        self.registers[x] = self.delay_timer;
    }

    /// Fx0A: waits for a key. With a key down, its number goes to Vx. With
    /// none, the program counter steps back so that the instruction runs
    /// again; it must then be at least 2.
    pub fn op_fx0a(&mut self, opcode: u16)
        requires
            old(self)@.any_key_down() || old(self)@.pc >= 2,
        ensures
            final(self)@ == old(self)@.wait_key(opcode),
            final(self).random_source() == old(self).random_source(),
    {
        proof {
            use_type_invariant(&*self);
        }
        let x: usize = reg_x(opcode);
        let mut key: usize = 0;
        while key < KEY_COUNT
            invariant
                key <= KEY_COUNT,
                x == x_of(opcode),
                *self == *old(self),
                self.well_formed(),
                self.random_source() == old(self).random_source(),
                forall|other: int| 0 <= other < key ==> !self@.key_down(other),
            decreases KEY_COUNT - key,
        {
            if self.keypad[key] {
                proof {
                    let m = self@;
                    assert(m.key_down(key as int));
                    assert(m.is_first_key_down(key as int));
                    assert(m.any_key_down());
                    let first = m.first_key_down();
                    assert(m.is_first_key_down(first));
                    assert(first == key) by {
                        if first < key {
                            assert(!m.key_down(first));
                        } else if key < first {
                            assert(!m.key_down(key as int));
                        }
                    }
                }
                self.registers[x] = key as u8;
                return ;
            }
            key += 1;
        }
        proof {
            let m = self@;
            assert(!m.any_key_down()) by {
                if m.any_key_down() {
                    let k = choose|k: int| m.key_down(k);
                    assert(!m.key_down(k));
                }
            }
        }
        self.pc -= 2;
    }

    /// Fx15: sets the delay timer to Vx.
    pub fn op_fx15(&mut self, opcode: u16)
        ensures
            final(self)@ == old(self)@.set_delay(opcode),
            final(self).random_source() == old(self).random_source(),
    {
        proof {
            use_type_invariant(&*self);
        }
        let x: usize = reg_x(opcode);
        self.delay_timer = self.registers[x];
    }

    /// Fx18: sets the sound timer to Vx.
    pub fn op_fx18(&mut self, opcode: u16)
        ensures
            final(self)@ == old(self)@.set_sound(opcode),
            final(self).random_source() == old(self).random_source(),
    {
        proof {
            use_type_invariant(&*self);
        }
        let x: usize = reg_x(opcode);
        self.sound_timer = self.registers[x];
    }

    /// Fx1E: adds Vx to the index register. A sum that does not fit in 16
    /// bits is refused and nothing changes.
    pub fn op_fx1e(&mut self, opcode: u16) -> (result: Result<(), Chip8Error>)
        ensures
            result == outcome(old(self)@.add_index_fault(opcode)),
            final(self)@ == if old(self)@.add_index_fault(opcode) is None {
                old(self)@.add_index(opcode)
            } else {
                old(self)@
            },
            final(self).random_source() == old(self).random_source(),
    {
        proof {
            use_type_invariant(&*self);
        }
        let x: usize = reg_x(opcode);
        let value: u16 = self.registers[x] as u16;
        if value > u16::MAX - self.index {
            return Err(Chip8Error::IndexOverflow);
        }
        self.index += value;
        Ok(())
    }

    /// Fx29: points the index register at the glyph for the digit in Vx.
    pub fn op_fx29(&mut self, opcode: u16)
        ensures
            final(self)@ == old(self)@.font_address(opcode),
            final(self).random_source() == old(self).random_source(),
    {
        proof {
            use_type_invariant(&*self);
        }
        let x: usize = reg_x(opcode);
        let digit: u16 = self.registers[x] as u16;
        self.index = FONTSET_START_ADDRESS + (5 * digit);
    }

    /// Fx33: stores the three decimal digits of Vx at the index register.
    /// Where the three bytes do not lie inside memory the store is refused
    /// and nothing changes.
    pub fn op_fx33(&mut self, opcode: u16) -> (result: Result<(), Chip8Error>)
        ensures
            result == outcome(old(self)@.store_bcd_fault()),
            final(self)@ == if old(self)@.store_bcd_fault() is None {
                old(self)@.store_bcd(opcode)
            } else {
                old(self)@
            },
            final(self).random_source() == old(self).random_source(),
    {
        proof {
            use_type_invariant(&*self);
        }
        let x: usize = reg_x(opcode);
        let mut value: u8 = self.registers[x];
        let base: usize = self.index as usize;
        if base + 2 >= MEMORY_SIZE {
            return Err(Chip8Error::MemoryOutOfBounds);
        }
        self.memory[base + 2] = value % 10;
        value /= 10;
        self.memory[base + 1] = value % 10;
        value /= 10;
        self.memory[base] = value % 10;
        Ok(())
    }

    /// Fx55: stores V0 to Vx in memory from the index register on. Where
    /// the bytes to write do not lie inside memory the store is refused and
    /// nothing changes.
    pub fn op_fx55(&mut self, opcode: u16) -> (result: Result<(), Chip8Error>)
        ensures
            result == outcome(old(self)@.block_fault(opcode)),
            final(self)@ == if old(self)@.block_fault(opcode) is None {
                old(self)@.store_registers(opcode)
            } else {
                old(self)@
            },
            final(self).random_source() == old(self).random_source(),
    {
        proof {
            use_type_invariant(&*self);
        }
        let x: usize = reg_x(opcode);
        let base: usize = self.index as usize;
        if base + x >= MEMORY_SIZE {
            return Err(Chip8Error::MemoryOutOfBounds);
        }
        let mut i: usize = 0;
        while i <= x
            invariant
                i <= x + 1,
                x == x_of(opcode),
                x < 16,
                base == old(self)@.index,
                base + x < MEMORY_SIZE,
                self.well_formed(),
                self.random_source() == old(self).random_source(),
                self@ == (Machine { memory: self@.memory, ..old(self)@ }),
                forall|a: int|
                    0 <= a < MEMORY_SIZE ==> self.memory[a] == if base <= a < base + i {
                        old(self).registers[a - base]
                    } else {
                        old(self).memory[a]
                    },
            decreases x + 1 - i,
        {
            self.memory[base + i] = self.registers[i];
            i += 1;
        }
        Ok(())
    }

    /// Fx65: loads V0 to Vx from memory from the index register on. Where
    /// the bytes to read do not lie inside memory the load is refused and
    /// nothing changes.
    pub fn op_fx65(&mut self, opcode: u16) -> (result: Result<(), Chip8Error>)
        ensures
            result == outcome(old(self)@.block_fault(opcode)),
            final(self)@ == if old(self)@.block_fault(opcode) is None {
                old(self)@.load_registers(opcode)
            } else {
                old(self)@
            },
            final(self).random_source() == old(self).random_source(),
    {
        proof {
            use_type_invariant(&*self);
        }
        let x: usize = reg_x(opcode);
        let base: usize = self.index as usize;
        if base + x >= MEMORY_SIZE {
            return Err(Chip8Error::MemoryOutOfBounds);
        }
        let mut i: usize = 0;
        while i <= x
            invariant
                i <= x + 1,
                x == x_of(opcode),
                x < 16,
                base == old(self)@.index,
                base + x < MEMORY_SIZE,
                self.well_formed(),
                self.random_source() == old(self).random_source(),
                self@ == (Machine { registers: self@.registers, ..old(self)@ }),
                forall|r: int|
                    0 <= r < REGISTER_COUNT ==> self.registers[r] == if r < i {
                        old(self).memory[base + r]
                    } else {
                        old(self).registers[r]
                    },
            decreases x + 1 - i,
        {
            self.registers[i] = self.memory[base + i];
            i += 1;
        }
        Ok(())
    }
}


/// Fetching, dispatching and stepping.
impl Chip8 {
    /// The failure that executing `opcode` in the current state would run
    /// into, if any. Nothing changes.
    pub fn fault(&self, opcode: u16) -> (fault: Option<Chip8Error>)
        ensures
            fault == self@.fault(opcode),
    {
        let g: u16 = group(opcode);
        let low: u8 = immediate(opcode);
        let index: usize = self.index as usize;
        if g == 0x0 && low == 0xEE && self.sp == 0 {
            Some(Chip8Error::StackUnderflow)
        } else if g == 0x2 && self.sp as usize >= STACK_SIZE {
            Some(Chip8Error::StackOverflow)
        } else if g == 0xD && nibble(opcode) > 0 && index + nibble(opcode) > MEMORY_SIZE {
            Some(Chip8Error::MemoryOutOfBounds)
        } else if g == 0xF && low == 0x1E && index + self.registers[reg_x(opcode)] as usize
            > 0xFFFF {
            Some(Chip8Error::IndexOverflow)
        } else if g == 0xF && low == 0x33 && index + 2 >= MEMORY_SIZE {
            Some(Chip8Error::MemoryOutOfBounds)
        } else if g == 0xF && (low == 0x55 || low == 0x65) && index + reg_x(opcode)
            >= MEMORY_SIZE {
            Some(Chip8Error::MemoryOutOfBounds)
        } else {
            None
        }
    }

    fn execute_0xxx(&mut self, opcode: u16) -> (result: Result<(), Chip8Error>)
        requires
            group_of(opcode) == 0x0,
        ensures
            result == outcome(old(self)@.fault(opcode)),
            final(self)@ == if old(self)@.fault(opcode) is None {
                old(self)@.execute_0(opcode)
            } else {
                old(self)@
            },
            final(self).random_source() == old(self).random_source(),
    {
        let low: u8 = immediate(opcode);
        if low == 0xE0 {
            self.op_00e0();
            Ok(())
        } else if low == 0xEE {
            self.op_00ee()
        } else {
            Ok(())
        }
    }

    fn execute_8xxx(&mut self, opcode: u16)
        ensures
            final(self)@ == old(self)@.execute_8(opcode),
            final(self).random_source() == old(self).random_source(),
    {
        let n: usize = nibble(opcode);
        if n == 0x0 {
            self.op_8xy0(opcode);
        } else if n == 0x1 {
            self.op_8xy1(opcode);
        } else if n == 0x2 {
            self.op_8xy2(opcode);
        } else if n == 0x3 {
            self.op_8xy3(opcode);
        } else if n == 0x4 {
            self.op_8xy4(opcode);
        } else if n == 0x5 {
            self.op_8xy5(opcode);
        } else if n == 0x6 {
            self.op_8xy6(opcode);
        } else if n == 0x7 {
            self.op_8xy7(opcode);
        } else if n == 0xE {
            self.op_8xye(opcode);
        }
    }

    fn execute_exxx(&mut self, opcode: u16)
        requires
            old(self)@.pc <= u16::MAX - 2,
        ensures
            final(self)@ == old(self)@.execute_e(opcode),
            final(self).random_source() == old(self).random_source(),
    {
        let low: u8 = immediate(opcode);
        if low == 0x9E {
            self.op_ex9e(opcode);
        } else if low == 0xA1 {
            self.op_exa1(opcode);
        }
    }

    fn execute_fxxx(&mut self, opcode: u16) -> (result: Result<(), Chip8Error>)
        requires
            group_of(opcode) == 0xF,
            old(self)@.pc >= 2,
        ensures
            result == outcome(old(self)@.fault(opcode)),
            final(self)@ == if old(self)@.fault(opcode) is None {
                old(self)@.execute_f(opcode)
            } else {
                old(self)@
            },
            final(self).random_source() == old(self).random_source(),
    {
        let low: u8 = immediate(opcode);
        if low == 0x07 {
            self.op_fx07(opcode);
            Ok(())
        } else if low == 0x0A {
            self.op_fx0a(opcode);
            Ok(())
        } else if low == 0x15 {
            self.op_fx15(opcode);
            Ok(())
        } else if low == 0x18 {
            self.op_fx18(opcode);
            Ok(())
        } else if low == 0x1E {
            self.op_fx1e(opcode)
        } else if low == 0x29 {
            self.op_fx29(opcode);
            Ok(())
        } else if low == 0x33 {
            self.op_fx33(opcode)
        } else if low == 0x55 {
            self.op_fx55(opcode)
        } else if low == 0x65 {
            self.op_fx65(opcode)
        } else {
            Ok(())
        }
    }

    fn execute(&mut self, opcode: u16, random: u8) -> (result: Result<(), Chip8Error>)
        requires
            2 <= old(self)@.pc <= u16::MAX - 2,
        ensures
            result == outcome(old(self)@.fault(opcode)),
            final(self)@ == if old(self)@.fault(opcode) is None {
                old(self)@.execute(opcode, random)
            } else {
                old(self)@
            },
            final(self).random_source() == old(self).random_source(),
    {
        let g: u16 = group(opcode);
        if g == 0x0 {
            self.execute_0xxx(opcode)
        } else if g == 0x1 {
            self.op_1nnn(opcode);
            Ok(())
        } else if g == 0x2 {
            self.op_2nnn(opcode)
        } else if g == 0x3 {
            self.op_3xkk(opcode);
            Ok(())
        } else if g == 0x4 {
            self.op_4xkk(opcode);
            Ok(())
        } else if g == 0x5 {
            self.op_5xy0(opcode);
            Ok(())
        } else if g == 0x6 {
            self.op_6xkk(opcode);
            Ok(())
        } else if g == 0x7 {
            self.op_7xkk(opcode);
            Ok(())
        } else if g == 0x8 {
            self.execute_8xxx(opcode);
            Ok(())
        } else if g == 0x9 {
            self.op_9xy0(opcode);
            Ok(())
        } else if g == 0xA {
            self.op_annn(opcode);
            Ok(())
        } else if g == 0xB {
            self.op_bnnn(opcode);
            Ok(())
        } else if g == 0xC {
            self.op_cxkk_with(opcode, random);
            Ok(())
        } else if g == 0xD {
            self.op_dxyn(opcode)
        } else if g == 0xE {
            self.execute_exxx(opcode);
            Ok(())
        } else {
            self.execute_fxxx(opcode)
        }
    }

    /// Whether the next step will execute the random instruction.
    fn fetches_random(&self) -> (random: bool)
        ensures
            random == self@.fetches_random(),
    {
        if self.pc as usize >= MEMORY_SIZE - 1 {
            return false;
        }
        let high: u8 = self.memory[self.pc as usize];
        let low: u8 = self.memory[(self.pc + 1) as usize];
        group(word(high, low)) == 0xC
    }

    /// One step: fetch, decode, execute, then tick the timers.
    ///
    /// With the program counter on or past the last byte of memory the step
    /// does nothing and succeeds. An instruction that cannot be executed
    /// (a return with an empty stack, a call with a full one, an access past
    /// the end of memory, an index register that would pass 16 bits) is
    /// reported and leaves the machine exactly as it was. Otherwise the
    /// program counter moves past the instruction, the instruction executes
    /// and each timer that is not zero goes down by one. An instruction word
    /// that encodes nothing only moves the program counter.
    ///
    /// Only the random instruction draws from the random source, one byte,
    /// and the new state is what that instruction gives for some byte.
    pub fn cycle(&mut self) -> (result: Result<(), Chip8Error>)
        ensures
            result == outcome(old(self)@.step_fault()),
            exists|random: u8| final(self)@ == old(self)@.step(random),
            !old(self)@.fetches_random() ==> forall|random: u8|
                final(self)@ == old(self)@.step(random),
            old(self)@.valid(),
            final(self)@.valid(),
            !old(self)@.fetches_random() ==> final(self).random_source() == old(
                self,
            ).random_source(),
    {
        let random: u8 = if self.fetches_random() {
            self.random_byte()
        } else {
            0
        };
        self.cycle_with(random)
    }

    /// One step in which the random instruction, if it is the one to
    /// execute, uses `random` as its byte. Nothing is drawn from the random
    /// source. In everything else this is [`Chip8::cycle`].
    pub fn cycle_with(&mut self, random: u8) -> (result: Result<(), Chip8Error>)
        ensures
            result == outcome(old(self)@.step_fault()),
            final(self)@ == old(self)@.step(random),
            old(self)@.valid(),
            final(self)@.valid(),
            final(self).random_source() == old(self).random_source(),
    {
        proof {
            use_type_invariant(&*self);
        }
        if self.pc as usize >= MEMORY_SIZE - 1 {
            return Ok(());
        }
        let high: u8 = self.memory[self.pc as usize];
        let low: u8 = self.memory[(self.pc + 1) as usize];
        let opcode: u16 = word(high, low);
        if let Some(fault) = self.fault(opcode) {
            return Err(fault);
        }
        self.pc += 2;
        let executed = self.execute(opcode, random);
        proof {
            use_type_invariant(&*self);
        }
        if self.delay_timer > 0 {
            self.delay_timer -= 1;
        }
        if self.sound_timer > 0 {
            self.sound_timer -= 1;
        }
        executed
    }
}

} // verus!

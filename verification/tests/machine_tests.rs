use chip8::entropy::seed_from_elapsed;
use chip8::machine::{MAX_ROM_SIZE, MEMORY_SIZE, PIXEL_ON, VIDEO_SIZE};
use chip8::opcode::{address, group, immediate, nibble, reg_x, reg_y, word};
use chip8::{Chip8, Chip8Error};

fn machine_with(program: &[u8]) -> Chip8 {
    let mut chip8 = Chip8::with_seed(7);
    chip8.load_rom(program).unwrap();
    chip8
}

fn lit_cells(chip8: &Chip8) -> Vec<usize> {
    let mut cells: Vec<usize> = Vec::new();
    for (cell, &pixel) in chip8.get_display().iter().enumerate() {
        if pixel == PIXEL_ON {
            cells.push(cell);
        }
    }
    cells
}

#[test]
fn opcode_fields_are_read_by_position() {
    assert_eq!(group(0xD123), 0xD);
    assert_eq!(reg_x(0xD123), 0x1);
    assert_eq!(reg_y(0xD123), 0x2);
    assert_eq!(nibble(0xD123), 0x3);
    assert_eq!(immediate(0xD123), 0x23);
    assert_eq!(address(0xD123), 0x123);
    assert_eq!(word(0xD1, 0x23), 0xD123);
    assert_eq!(word(0xFF, 0xFF), 0xFFFF);
    assert_eq!(word(0x00, 0x00), 0x0000);
}

#[test]
fn load_rom_reproduces_the_program() {
    let program: Vec<u8> = (0..300u32).map(|i| (i * 7 % 251) as u8).collect();
    let mut chip8 = Chip8::new();
    assert_eq!(chip8.load_rom(&program), Ok(()));
    for (i, &byte) in program.iter().enumerate() {
        assert_eq!(chip8.get_memory(0x200 + i), byte);
    }
    assert_eq!(chip8.get_memory(0x200 + 300), 0);
    assert_eq!(chip8.get_memory(0x1FF), 0);
    assert_eq!(chip8.get_pc(), 0x200);
}

#[test]
fn load_rom_takes_the_largest_program() {
    let program: Vec<u8> = vec![0xAB; MAX_ROM_SIZE];
    let mut chip8 = Chip8::new();
    assert_eq!(chip8.load_rom(&program), Ok(()));
    assert_eq!(chip8.get_memory(0x200), 0xAB);
    assert_eq!(chip8.get_memory(MEMORY_SIZE - 1), 0xAB);
    assert_eq!(chip8.get_memory(0x1FF), 0);
}

#[test]
fn load_rom_refuses_a_program_that_is_too_large() {
    let program: Vec<u8> = vec![0xAB; MAX_ROM_SIZE + 1];
    let mut chip8 = Chip8::new();
    assert_eq!(chip8.load_rom(&program), Err(Chip8Error::RomTooLarge));
    for address in 0x200..MEMORY_SIZE {
        assert_eq!(chip8.get_memory(address), 0);
    }
}

#[test]
fn load_rom_of_nothing_changes_nothing() {
    let mut chip8 = Chip8::new();
    assert_eq!(chip8.load_rom(&[]), Ok(()));
    assert_eq!(chip8.get_memory(0x200), 0);
}

#[test]
fn a_second_load_leaves_the_tail_of_the_first() {
    let mut chip8 = Chip8::new();
    chip8.load_rom(&[1, 2, 3, 4]).unwrap();
    chip8.load_rom(&[9, 8]).unwrap();
    assert_eq!(chip8.get_memory(0x200), 9);
    assert_eq!(chip8.get_memory(0x201), 8);
    assert_eq!(chip8.get_memory(0x202), 3);
    assert_eq!(chip8.get_memory(0x203), 4);
}

#[test]
fn load_test_program_refuses_a_program_that_is_too_large() {
    let program: Vec<u8> = vec![0x5A; MAX_ROM_SIZE + 100];
    let mut chip8 = Chip8::new();
    chip8.set_memory(0x200, 0x11);
    assert_eq!(chip8.load_test_program(&program), Err(Chip8Error::RomTooLarge));
    assert_eq!(chip8.get_memory(0x200), 0x11);
    for address in 0x201..MEMORY_SIZE {
        assert_eq!(chip8.get_memory(address), 0);
    }

    let one_too_many: Vec<u8> = vec![0x5A; MAX_ROM_SIZE + 1];
    assert_eq!(chip8.load_test_program(&one_too_many), Err(Chip8Error::RomTooLarge));
    assert_eq!(chip8.get_memory(0x200), 0x11);

    let largest: Vec<u8> = vec![0x5A; MAX_ROM_SIZE];
    assert_eq!(chip8.load_test_program(&largest), Ok(()));
    assert_eq!(chip8.get_memory(0x200), 0x5A);
    assert_eq!(chip8.get_memory(MEMORY_SIZE - 1), 0x5A);
    assert_eq!(chip8.get_memory(0x1FF), 0);

    let mut small = Chip8::new();
    assert_eq!(small.load_test_program(&[0x12, 0x34]), Ok(()));
    assert_eq!(small.get_memory(0x200), 0x12);
    assert_eq!(small.get_memory(0x201), 0x34);
    assert_eq!(small.get_memory(0x202), 0x00);
}

#[test]
fn reset_restores_the_initial_state() {
    let mut chip8 = machine_with(&[0x6A, 0x55, 0xA1, 0x23]);
    chip8.cycle().unwrap();
    chip8.cycle().unwrap();
    chip8.set_pixel(5, PIXEL_ON);
    chip8.set_delay_timer(9);
    chip8.reset();
    assert_eq!(chip8.get_pc(), 0x200);
    assert_eq!(chip8.get_index(), 0);
    assert_eq!(chip8.get_register(0xA), 0);
    assert_eq!(chip8.get_memory(0x200), 0);
    assert_eq!(chip8.get_memory(0x50), 0xF0);
    assert_eq!(chip8.get_delay_timer(), 0);
    assert!(lit_cells(&chip8).is_empty());
}

#[test]
fn one_seed_gives_one_stream_of_random_bytes() {
    let mut first = Chip8::with_seed(42);
    let mut second = Chip8::with_seed(42);
    for _ in 0..32 {
        assert_eq!(first.random_byte(), second.random_byte());
    }
}

#[test]
fn random_instruction_masks_the_byte() {
    let mut chip8 = Chip8::new();
    chip8.set_register(4, 0xFF);
    chip8.op_cxkk(0xC400);
    assert_eq!(chip8.get_register(4), 0);

    for _ in 0..64 {
        chip8.op_cxkk(0xC40F);
        assert!(chip8.get_register(4) <= 0x0F);
    }
}

#[test]
fn random_instruction_with_a_given_byte() {
    let mut chip8 = Chip8::new();
    chip8.op_cxkk_with(0xC4F0, 0xAB);
    assert_eq!(chip8.get_register(4), 0xA0);
    chip8.op_cxkk_with(0xC40F, 0xAB);
    assert_eq!(chip8.get_register(4), 0x0B);
}

#[test]
fn skip_taken_advances_by_four() {
    let mut chip8 = machine_with(&[0x35, 0x33]);
    chip8.set_register(5, 0x33);
    assert_eq!(chip8.cycle(), Ok(()));
    assert_eq!(chip8.get_pc(), 0x204);
}

#[test]
fn skip_not_taken_advances_by_two() {
    let mut chip8 = machine_with(&[0x35, 0x33]);
    chip8.set_register(5, 0x22);
    assert_eq!(chip8.cycle(), Ok(()));
    assert_eq!(chip8.get_pc(), 0x202);
}

#[test]
fn skips_on_inequality_and_on_registers() {
    let mut chip8 = Chip8::new();
    chip8.set_register(1, 7);
    chip8.set_register(2, 7);
    chip8.set_register(3, 8);

    chip8.set_pc(0x300);
    chip8.op_4xkk(0x4107);
    assert_eq!(chip8.get_pc(), 0x300);
    chip8.op_4xkk(0x4108);
    assert_eq!(chip8.get_pc(), 0x302);

    chip8.set_pc(0x300);
    chip8.op_5xy0(0x5120);
    assert_eq!(chip8.get_pc(), 0x302);
    chip8.op_5xy0(0x5130);
    assert_eq!(chip8.get_pc(), 0x302);

    chip8.set_pc(0x300);
    chip8.op_9xy0(0x9120);
    assert_eq!(chip8.get_pc(), 0x300);
    chip8.op_9xy0(0x9130);
    assert_eq!(chip8.get_pc(), 0x302);
}

#[test]
fn register_copy_and_jump_with_offset() {
    let mut chip8 = Chip8::new();
    chip8.set_register(3, 0x77);
    chip8.op_8xy0(0x8230);
    assert_eq!(chip8.get_register(2), 0x77);

    chip8.set_register(0, 0xFF);
    chip8.op_bnnn(0xBFFF);
    assert_eq!(chip8.get_pc(), 0x0FFF + 0xFF);
}

#[test]
fn add_with_the_flag_register_as_destination_keeps_the_sum() {
    let mut chip8 = Chip8::new();
    chip8.set_register(0xF, 200);
    chip8.set_register(3, 100);
    chip8.op_8xy4(0x8F34);
    assert_eq!(chip8.get_register(0xF), 44);
}

#[test]
fn subtract_reads_the_flag_after_it_was_written() {
    let mut chip8 = Chip8::new();
    chip8.set_register(2, 10);
    chip8.set_register(0xF, 3);
    chip8.op_8xy5(0x82F5);
    // 10 > 3, so the flag is 1, and 10 - 1 is stored.
    assert_eq!(chip8.get_register(0xF), 1);
    assert_eq!(chip8.get_register(2), 9);
}

#[test]
fn subtract_of_equal_values_clears_the_flag() {
    let mut chip8 = Chip8::new();
    chip8.set_register(2, 50);
    chip8.set_register(3, 50);
    chip8.op_8xy5(0x8235);
    assert_eq!(chip8.get_register(2), 0);
    assert_eq!(chip8.get_register(0xF), 0);
}

#[test]
fn draw_twice_cancels_and_reports_the_collision() {
    let mut chip8 = Chip8::new();
    chip8.set_index(0x300);
    chip8.set_memory(0x300, 0xFF);
    chip8.set_register(0, 0);
    chip8.set_register(1, 0);

    chip8.op_dxyn(0xD011).unwrap();
    assert_eq!(lit_cells(&chip8), vec![0, 1, 2, 3, 4, 5, 6, 7]);
    assert_eq!(chip8.get_register(0xF), 0);

    chip8.op_dxyn(0xD011).unwrap();
    assert!(lit_cells(&chip8).is_empty());
    assert_eq!(chip8.get_register(0xF), 1);

    chip8.op_dxyn(0xD011).unwrap();
    assert_eq!(lit_cells(&chip8), vec![0, 1, 2, 3, 4, 5, 6, 7]);
    assert_eq!(chip8.get_register(0xF), 0);
}

#[test]
fn draw_clips_at_the_right_and_bottom_edges() {
    let mut chip8 = Chip8::new();
    chip8.set_index(0x300);
    chip8.set_memory(0x300, 0xFF);
    chip8.set_memory(0x301, 0xFF);
    chip8.set_register(0, 60);
    chip8.set_register(1, 31);

    chip8.op_dxyn(0xD012).unwrap();

    // Only the four columns 60..63 of the last row are on the grid.
    let row: usize = 31 * 64;
    assert_eq!(lit_cells(&chip8), vec![row + 60, row + 61, row + 62, row + 63]);
    assert_eq!(chip8.get_register(0xF), 0);
}

#[test]
fn draw_takes_the_start_modulo_the_grid() {
    let mut chip8 = Chip8::new();
    chip8.set_index(0x300);
    chip8.set_memory(0x300, 0b1010_0000);
    chip8.set_register(0, 64 + 6);
    chip8.set_register(1, 32 + 2);

    chip8.op_dxyn(0xD011).unwrap();

    let row: usize = 2 * 64;
    assert_eq!(lit_cells(&chip8), vec![row + 6, row + 8]);
}

#[test]
fn draw_reads_one_byte_per_row() {
    let mut chip8 = Chip8::new();
    chip8.set_index(0x300);
    chip8.set_memory(0x300, 0x80);
    chip8.set_memory(0x301, 0x40);
    chip8.set_memory(0x302, 0x01);
    chip8.set_register(4, 10);
    chip8.set_register(5, 3);

    chip8.op_dxyn(0xD453).unwrap();

    assert_eq!(lit_cells(&chip8), vec![3 * 64 + 10, 4 * 64 + 11, 5 * 64 + 17]);
    assert_eq!(chip8.get_index(), 0x300);
}

#[test]
fn draw_sets_the_flag_once_for_many_overlaps() {
    let mut chip8 = Chip8::new();
    chip8.set_index(0x300);
    chip8.set_memory(0x300, 0xF0);
    chip8.set_pixel(0, PIXEL_ON);
    chip8.set_pixel(1, PIXEL_ON);
    chip8.set_pixel(9, PIXEL_ON);

    chip8.op_dxyn(0xD011).unwrap();

    assert_eq!(lit_cells(&chip8), vec![2, 3, 9]);
    assert_eq!(chip8.get_register(0xF), 1);
}

#[test]
fn draw_of_height_zero_clears_the_flag_only() {
    let mut chip8 = Chip8::new();
    chip8.set_register(0xF, 1);
    chip8.set_index(0xFFFF);
    chip8.op_dxyn(0xD010).unwrap();
    assert!(lit_cells(&chip8).is_empty());
    assert_eq!(chip8.get_register(0xF), 0);
}

#[test]
fn draw_of_the_font_glyph_for_zero() {
    let mut chip8 = machine_with(&[0x60, 0x00, 0xF0, 0x29, 0xD0, 0x05]);
    for _ in 0..3 {
        assert_eq!(chip8.cycle(), Ok(()));
    }
    // 0xF0 0x90 0x90 0x90 0xF0
    let expected: Vec<usize> = vec![
        0, 1, 2, 3,
        64, 67,
        128, 131,
        192, 195,
        256, 257, 258, 259,
    ];
    assert_eq!(lit_cells(&chip8), expected);
    assert_eq!(chip8.get_display().len(), VIDEO_SIZE);
}

#[test]
fn wait_for_key_repeats_until_a_key_is_down() {
    let mut chip8 = machine_with(&[0xF5, 0x0A]);
    assert_eq!(chip8.cycle(), Ok(()));
    assert_eq!(chip8.get_pc(), 0x200);
    assert_eq!(chip8.cycle(), Ok(()));
    assert_eq!(chip8.get_pc(), 0x200);

    let mut keys = [false; 16];
    keys[7] = true;
    chip8.set_keys(&keys);
    assert_eq!(chip8.cycle(), Ok(()));
    assert_eq!(chip8.get_register(5), 7);
    assert_eq!(chip8.get_pc(), 0x202);
}

#[test]
fn wait_for_key_takes_the_lowest_key() {
    let mut chip8 = Chip8::new();
    let mut keys = [false; 16];
    keys[0xC] = true;
    keys[0x3] = true;
    keys[0xF] = true;
    chip8.set_keys(&keys);
    chip8.op_fx0a(0xF20A);
    assert_eq!(chip8.get_register(2), 0x3);
}

#[test]
fn key_numbers_above_fifteen_count_as_not_pressed() {
    let mut chip8 = Chip8::new();
    chip8.set_keys(&[true; 16]);
    chip8.set_register(5, 16);
    chip8.set_pc(0x200);
    chip8.op_ex9e(0xE59E);
    assert_eq!(chip8.get_pc(), 0x200);
    chip8.op_exa1(0xE5A1);
    assert_eq!(chip8.get_pc(), 0x202);
}

#[test]
fn timers_go_down_by_one_per_step_and_stop_at_zero() {
    let mut chip8 = machine_with(&[0x60, 0x01, 0x60, 0x02, 0x60, 0x03]);
    chip8.set_delay_timer(2);
    chip8.set_sound_timer(1);
    assert_eq!(chip8.cycle(), Ok(()));
    assert_eq!(chip8.get_delay_timer(), 1);
    assert_eq!(chip8.get_sound_timer(), 0);
    assert_eq!(chip8.cycle(), Ok(()));
    assert_eq!(chip8.get_delay_timer(), 0);
    assert_eq!(chip8.get_sound_timer(), 0);
    assert_eq!(chip8.cycle(), Ok(()));
    assert_eq!(chip8.get_delay_timer(), 0);
    assert_eq!(chip8.get_sound_timer(), 0);
}

#[test]
fn setting_a_timer_is_followed_by_the_tick_of_the_same_step() {
    let mut chip8 = machine_with(&[0xF5, 0x15, 0xF5, 0x18]);
    chip8.set_register(5, 10);
    assert_eq!(chip8.cycle(), Ok(()));
    assert_eq!(chip8.get_delay_timer(), 9);
    assert_eq!(chip8.cycle(), Ok(()));
    assert_eq!(chip8.get_delay_timer(), 8);
    assert_eq!(chip8.get_sound_timer(), 9);
}

#[test]
fn unknown_opcodes_only_move_the_program_counter() {
    let mut chip8 = machine_with(&[0x00, 0x00, 0x80, 0x08, 0xE0, 0x00, 0xF0, 0xFF, 0x51, 0x21]);
    chip8.set_register(0, 0x12);
    chip8.set_delay_timer(5);
    for step in 1..=4u16 {
        assert_eq!(chip8.cycle(), Ok(()));
        assert_eq!(chip8.get_pc(), 0x200 + 2 * step);
    }
    assert_eq!(chip8.get_register(0), 0x12);
    assert_eq!(chip8.get_index(), 0);
    assert_eq!(chip8.get_sp(), 0);
    assert_eq!(chip8.get_delay_timer(), 1);
    assert!(lit_cells(&chip8).is_empty());
}

#[test]
fn step_at_the_end_of_memory_does_nothing() {
    let mut chip8 = Chip8::new();
    chip8.set_delay_timer(5);
    chip8.set_pc(0x0FFF);
    assert_eq!(chip8.cycle(), Ok(()));
    assert_eq!(chip8.get_pc(), 0x0FFF);
    assert_eq!(chip8.get_delay_timer(), 5);

    chip8.set_pc(0xFFFF);
    assert_eq!(chip8.cycle(), Ok(()));
    assert_eq!(chip8.get_pc(), 0xFFFF);

    chip8.set_memory(0x0FFE, 0x6A);
    chip8.set_memory(0x0FFF, 0x55);
    chip8.set_pc(0x0FFE);
    assert_eq!(chip8.cycle(), Ok(()));
    assert_eq!(chip8.get_pc(), 0x1000);
    assert_eq!(chip8.get_register(0xA), 0x55);
    assert_eq!(chip8.get_delay_timer(), 4);
}

#[test]
fn call_and_return_through_steps() {
    let mut chip8 = machine_with(&[0x22, 0x06, 0x00, 0x00, 0x00, 0x00, 0x00, 0xEE]);
    assert_eq!(chip8.cycle(), Ok(()));
    assert_eq!(chip8.get_pc(), 0x206);
    assert_eq!(chip8.get_sp(), 1);
    assert_eq!(chip8.get_stack(0), 0x202);
    assert_eq!(chip8.cycle(), Ok(()));
    assert_eq!(chip8.get_pc(), 0x202);
    assert_eq!(chip8.get_sp(), 0);
}

#[test]
fn return_with_an_empty_stack_is_reported() {
    let mut chip8 = machine_with(&[0x00, 0xEE]);
    chip8.set_delay_timer(3);
    assert_eq!(chip8.fault(0x00EE), Some(Chip8Error::StackUnderflow));
    assert_eq!(chip8.cycle(), Err(Chip8Error::StackUnderflow));
    assert_eq!(chip8.get_pc(), 0x200);
    assert_eq!(chip8.get_sp(), 0);
    assert_eq!(chip8.get_delay_timer(), 3);
    assert_eq!(chip8.cycle(), Err(Chip8Error::StackUnderflow));
}

#[test]
fn call_with_a_full_stack_is_reported() {
    // A subroutine that calls itself.
    let mut chip8 = machine_with(&[0x22, 0x00]);
    for depth in 1..=16u8 {
        assert_eq!(chip8.cycle(), Ok(()));
        assert_eq!(chip8.get_sp(), depth);
    }
    assert_eq!(chip8.cycle(), Err(Chip8Error::StackOverflow));
    assert_eq!(chip8.get_sp(), 16);
    assert_eq!(chip8.get_pc(), 0x200);
    assert_eq!(chip8.get_stack(15), 0x202);
}

#[test]
fn memory_access_past_the_end_is_reported() {
    let mut chip8 = machine_with(&[0xD0, 0x02]);
    chip8.set_index(0x0FFF);
    assert_eq!(chip8.cycle(), Err(Chip8Error::MemoryOutOfBounds));
    assert_eq!(chip8.get_pc(), 0x200);
    chip8.set_index(0x0FFE);
    assert_eq!(chip8.cycle(), Ok(()));

    let mut bcd = machine_with(&[0xF0, 0x33]);
    bcd.set_index(0x0FFE);
    assert_eq!(bcd.cycle(), Err(Chip8Error::MemoryOutOfBounds));
    bcd.set_index(0x0FFD);
    assert_eq!(bcd.cycle(), Ok(()));

    let mut store = machine_with(&[0xF2, 0x55]);
    store.set_index(0x0FFE);
    assert_eq!(store.cycle(), Err(Chip8Error::MemoryOutOfBounds));
    assert_eq!(store.get_memory(0x0FFE), 0);
    store.set_index(0x0FFD);
    assert_eq!(store.cycle(), Ok(()));

    let mut load = machine_with(&[0xF2, 0x65]);
    load.set_index(0x0FFE);
    assert_eq!(load.cycle(), Err(Chip8Error::MemoryOutOfBounds));
    load.set_index(0x0FFD);
    assert_eq!(load.cycle(), Ok(()));
}

#[test]
fn index_register_past_sixteen_bits_is_reported() {
    let mut chip8 = machine_with(&[0xF5, 0x1E, 0xF5, 0x1E]);
    chip8.set_index(0xFFFE);
    chip8.set_register(5, 1);
    assert_eq!(chip8.cycle(), Ok(()));
    assert_eq!(chip8.get_index(), 0xFFFF);
    assert_eq!(chip8.cycle(), Err(Chip8Error::IndexOverflow));
    assert_eq!(chip8.get_index(), 0xFFFF);
    assert_eq!(chip8.get_pc(), 0x202);
}

#[test]
fn fault_is_none_for_what_can_be_executed() {
    let chip8 = Chip8::new();
    assert_eq!(chip8.fault(0x00E0), None);
    assert_eq!(chip8.fault(0x2300), None);
    assert_eq!(chip8.fault(0xD005), None);
    assert_eq!(chip8.fault(0xFF65), None);
}

#[test]
fn store_and_load_all_registers() {
    let mut chip8 = Chip8::new();
    for i in 0..16usize {
        chip8.set_register(i, 0xA0 + i as u8);
    }
    chip8.set_index(0x400);
    chip8.op_fx55(0xFF55).unwrap();
    for i in 0..16usize {
        assert_eq!(chip8.get_memory(0x400 + i), 0xA0 + i as u8);
    }
    assert_eq!(chip8.get_memory(0x410), 0);
    assert_eq!(chip8.get_index(), 0x400);

    let mut other = Chip8::new();
    other.set_index(0x400);
    for i in 0..16usize {
        other.set_memory(0x400 + i, i as u8 + 1);
    }
    other.op_fx65(0xF365).unwrap();
    assert_eq!(other.get_register(0), 1);
    assert_eq!(other.get_register(3), 4);
    assert_eq!(other.get_register(4), 0);
    assert_eq!(other.get_index(), 0x400);
}

#[test]
fn bcd_of_the_largest_value() {
    let mut chip8 = Chip8::new();
    chip8.set_register(0, 255);
    chip8.set_index(0x300);
    chip8.op_fx33(0xF033).unwrap();
    assert_eq!(chip8.get_memory(0x300), 2);
    assert_eq!(chip8.get_memory(0x301), 5);
    assert_eq!(chip8.get_memory(0x302), 5);
}

#[test]
fn font_address_is_five_bytes_per_digit() {
    let mut chip8 = Chip8::new();
    chip8.set_register(1, 0);
    chip8.op_fx29(0xF129);
    assert_eq!(chip8.get_index(), 0x50);
    chip8.set_register(1, 0xF);
    chip8.op_fx29(0xF129);
    assert_eq!(chip8.get_index(), 0x50 + 75);
    chip8.set_register(1, 255);
    chip8.op_fx29(0xF129);
    assert_eq!(chip8.get_index(), 0x50 + 1275);
}

#[test]
fn set_keys_replaces_all_keys() {
    let mut chip8 = Chip8::new();
    chip8.set_keys(&[true; 16]);
    let mut keys = [false; 16];
    keys[2] = true;
    chip8.set_keys(&keys);
    chip8.set_pc(0x200);
    chip8.set_register(0, 1);
    chip8.op_ex9e(0xE09E);
    assert_eq!(chip8.get_pc(), 0x200);
    chip8.set_register(0, 2);
    chip8.op_ex9e(0xE09E);
    assert_eq!(chip8.get_pc(), 0x202);
}

#[test]
fn error_messages() {
    assert_eq!(Chip8Error::RomTooLarge.message(), "ROM too large to fit in memory");
    assert_ne!(Chip8Error::StackUnderflow.message(), Chip8Error::StackOverflow.message());
    assert!(!Chip8Error::MemoryOutOfBounds.message().is_empty());
    assert!(!Chip8Error::IndexOverflow.message().is_empty());
}

#[test]
fn step_with_a_given_random_byte() {
    let mut chip8 = machine_with(&[0xC4, 0xF0, 0xC5, 0x3C]);
    chip8.set_delay_timer(2);
    assert_eq!(chip8.cycle_with(0xAB), Ok(()));
    assert_eq!(chip8.get_register(4), 0xA0);
    assert_eq!(chip8.get_pc(), 0x202);
    assert_eq!(chip8.get_delay_timer(), 1);
    assert_eq!(chip8.cycle_with(0xFF), Ok(()));
    assert_eq!(chip8.get_register(5), 0x3C);
    assert_eq!(chip8.get_pc(), 0x204);
}

#[test]
fn step_with_a_byte_that_no_instruction_reads() {
    let mut first = machine_with(&[0x6A, 0x55, 0x7A, 0x01, 0x00, 0xEE]);
    let mut second = machine_with(&[0x6A, 0x55, 0x7A, 0x01, 0x00, 0xEE]);
    for _ in 0..2 {
        assert_eq!(first.cycle_with(0x00), Ok(()));
        assert_eq!(second.cycle_with(0xFF), Ok(()));
        assert_eq!(first.get_register(0xA), second.get_register(0xA));
        assert_eq!(first.get_pc(), second.get_pc());
    }
    assert_eq!(first.get_register(0xA), 0x56);
    assert_eq!(first.cycle_with(0x12), Err(Chip8Error::StackUnderflow));
    assert_eq!(first.get_pc(), 0x204);
}

#[test]
fn step_through_the_random_instruction() {
    let mut chip8 = machine_with(&[0xC4, 0x00, 0xC4, 0x0F]);
    chip8.set_register(4, 0xFF);
    assert_eq!(chip8.cycle(), Ok(()));
    assert_eq!(chip8.get_register(4), 0);
    assert_eq!(chip8.cycle(), Ok(()));
    assert!(chip8.get_register(4) <= 0x0F);
    assert_eq!(chip8.get_pc(), 0x204);
}

#[test]
fn clock_readings_and_their_seeds() {
    assert_eq!(seed_from_elapsed(None), 0);
    assert_eq!(seed_from_elapsed(Some(0)), 0);
    assert_eq!(seed_from_elapsed(Some(1_700_000_000_123_456_789)), 1_700_000_000_123_456_789);
    assert_eq!(seed_from_elapsed(Some(u64::MAX as u128)), u64::MAX);
    assert_eq!(seed_from_elapsed(Some(u64::MAX as u128 + 1)), 0);
    assert_eq!(seed_from_elapsed(Some((7u128 << 64) + 5)), 5);
    assert_eq!(seed_from_elapsed(Some(u128::MAX)), u64::MAX);
}

#[test]
fn return_on_an_empty_stack_is_refused_by_the_instruction() {
    let mut chip8 = Chip8::new();
    chip8.set_pc(0x300);
    chip8.set_stack(0, 0x456);
    assert_eq!(chip8.op_00ee(), Err(Chip8Error::StackUnderflow));
    assert_eq!(chip8.get_pc(), 0x300);
    assert_eq!(chip8.get_sp(), 0);
}

#[test]
fn call_on_a_full_stack_is_refused_by_the_instruction() {
    let mut chip8 = Chip8::new();
    for slot in 0..16usize {
        chip8.set_stack(slot, 0x400 + slot as u16);
    }
    chip8.set_sp(15);
    chip8.set_pc(0x300);
    assert_eq!(chip8.op_2nnn(0x2ABC), Ok(()));
    assert_eq!(chip8.get_sp(), 16);
    assert_eq!(chip8.get_stack(15), 0x300);
    assert_eq!(chip8.get_pc(), 0xABC);

    assert_eq!(chip8.op_2nnn(0x2DEF), Err(Chip8Error::StackOverflow));
    assert_eq!(chip8.get_sp(), 16);
    assert_eq!(chip8.get_pc(), 0xABC);
    for slot in 0..15usize {
        assert_eq!(chip8.get_stack(slot), 0x400 + slot as u16);
    }
    assert_eq!(chip8.get_stack(15), 0x300);
}

#[test]
fn draw_past_the_end_of_memory_is_refused_by_the_instruction() {
    let mut chip8 = Chip8::new();
    chip8.set_memory(0x0FFF, 0xFF);
    chip8.set_index(0x0FFF);
    chip8.set_register(0xF, 7);
    chip8.set_pixel(3, PIXEL_ON);

    assert_eq!(chip8.op_dxyn(0xD012), Err(Chip8Error::MemoryOutOfBounds));
    assert_eq!(lit_cells(&chip8), vec![3]);
    assert_eq!(chip8.get_register(0xF), 7);

    // One row still fits.
    assert_eq!(chip8.op_dxyn(0xD011), Ok(()));
    assert_eq!(lit_cells(&chip8), vec![0, 1, 2, 4, 5, 6, 7]);
    assert_eq!(chip8.get_register(0xF), 1);
    for &pixel in chip8.get_display().iter() {
        assert!(pixel == 0 || pixel == PIXEL_ON);
    }
}

#[test]
fn index_instructions_refuse_what_does_not_fit() {
    let mut chip8 = Chip8::new();
    chip8.set_register(0, 0xAA);
    chip8.set_register(1, 0xBB);
    chip8.set_register(2, 0xCC);

    chip8.set_index(0x0FFE);
    assert_eq!(chip8.op_fx33(0xF033), Err(Chip8Error::MemoryOutOfBounds));
    assert_eq!(chip8.op_fx55(0xF255), Err(Chip8Error::MemoryOutOfBounds));
    assert_eq!(chip8.op_fx65(0xF265), Err(Chip8Error::MemoryOutOfBounds));
    assert_eq!(chip8.get_memory(0x0FFE), 0);
    assert_eq!(chip8.get_memory(0x0FFF), 0);
    assert_eq!(chip8.get_register(0), 0xAA);
    assert_eq!(chip8.get_register(1), 0xBB);
    assert_eq!(chip8.get_register(2), 0xCC);

    chip8.set_index(0x0FFD);
    assert_eq!(chip8.op_fx55(0xF255), Ok(()));
    assert_eq!(chip8.get_memory(0x0FFD), 0xAA);
    assert_eq!(chip8.get_memory(0x0FFF), 0xCC);
    assert_eq!(chip8.op_fx33(0xF033), Ok(()));
    assert_eq!(chip8.get_memory(0x0FFD), 1);
    assert_eq!(chip8.get_memory(0x0FFE), 7);
    assert_eq!(chip8.get_memory(0x0FFF), 0);
    assert_eq!(chip8.op_fx65(0xF265), Ok(()));
    assert_eq!(chip8.get_register(0), 1);
    assert_eq!(chip8.get_register(1), 7);
    assert_eq!(chip8.get_register(2), 0);

    chip8.set_index(0xFFFF);
    chip8.set_register(5, 1);
    assert_eq!(chip8.op_fx1e(0xF51E), Err(Chip8Error::IndexOverflow));
    assert_eq!(chip8.get_index(), 0xFFFF);
    chip8.set_register(5, 0);
    assert_eq!(chip8.op_fx1e(0xF51E), Ok(()));
    assert_eq!(chip8.get_index(), 0xFFFF);
    chip8.set_index(0xFF00);
    chip8.set_register(5, 0xFF);
    assert_eq!(chip8.op_fx1e(0xF51E), Ok(()));
    assert_eq!(chip8.get_index(), 0xFFFF);
}

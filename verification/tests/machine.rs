//! End-to-end behaviour of the machine: programs loaded and run cycle by
//! cycle.

use chip_8::cpu::Chip8;
use chip_8::Chip8Error;
use chip_8::FONT_BASE;
use chip_8::PROGRAM_BASE;

/// A machine with the given opcodes loaded, ready to run.
fn machine_with(opcodes: &[u16]) -> Chip8 {
    let mut bytes: Vec<u8> = Vec::new();
    for op in opcodes {
        bytes.push((op >> 8) as u8);
        bytes.push((op & 0xFF) as u8);
    }
    let mut chip = Chip8::new();
    chip.load_program(bytes).expect("program should fit");
    chip
}

fn run(chip: &mut Chip8, cycles: usize) {
    for _ in 0..cycles {
        chip.cycle().expect("cycle should succeed");
    }
}

#[test]
fn clear_then_jump_loops_forever() {
    let mut chip = machine_with(&[0x00E0, 0x1200]);
    let redraw = chip.cycle().expect("clear should execute");
    assert!(redraw);
    assert!(chip.screen.get().iter().all(|&c| c == 0));
    assert_eq!(chip.program_counter(), 0x202);
    for _ in 0..100 {
        let redraw = chip.cycle().expect("jump should execute");
        assert!(!redraw);
        assert_eq!(chip.program_counter(), 0x200);
        chip.cycle().expect("clear should execute");
        assert_eq!(chip.program_counter(), 0x202);
    }
    assert!(chip.screen.get().iter().all(|&c| c == 0));
}

#[test]
fn set_then_add_immediate_leaves_v0_8_and_vf_untouched() {
    let mut chip = machine_with(&[0x6005, 0x7003]);
    run(&mut chip, 2);
    assert_eq!(chip.register(0), 8);
    assert_eq!(chip.register(15), 0);
    assert_eq!(chip.program_counter(), 0x204);
}

#[test]
fn add_immediate_wraps_without_flag() {
    let mut chip = machine_with(&[0x60FF, 0x7002]);
    run(&mut chip, 2);
    assert_eq!(chip.register(0), 1);
    assert_eq!(chip.register(15), 0);
}

#[test]
fn add_sets_carry_on_overflow() {
    let mut chip = machine_with(&[0x60C8, 0x61C8, 0x8014]);
    run(&mut chip, 3);
    assert_eq!(chip.register(0), 144);
    assert_eq!(chip.register(15), 1);
}

#[test]
fn add_clears_carry_without_overflow() {
    let mut chip = machine_with(&[0x6005, 0x6103, 0x8014]);
    run(&mut chip, 3);
    assert_eq!(chip.register(0), 8);
    assert_eq!(chip.register(15), 0);
}

#[test]
fn subtract_sets_flag_when_no_borrow() {
    let mut chip = machine_with(&[0x6005, 0x6103, 0x8015]);
    run(&mut chip, 3);
    assert_eq!(chip.register(0), 2);
    assert_eq!(chip.register(15), 1);
}

#[test]
fn subtract_clears_flag_on_borrow() {
    let mut chip = machine_with(&[0x6003, 0x6105, 0x8015]);
    run(&mut chip, 3);
    assert_eq!(chip.register(0), 254);
    assert_eq!(chip.register(15), 0);
}

#[test]
fn vy_minus_vx_uses_same_borrow_convention() {
    let mut chip = machine_with(&[0x6003, 0x6105, 0x8017]);
    run(&mut chip, 3);
    assert_eq!(chip.register(0), 2);
    assert_eq!(chip.register(15), 1);

    let mut chip = machine_with(&[0x6005, 0x6103, 0x8017]);
    run(&mut chip, 3);
    assert_eq!(chip.register(0), 254);
    assert_eq!(chip.register(15), 0);
}

#[test]
fn right_shift_stores_low_bit_in_vf() {
    let mut chip = machine_with(&[0x6005, 0x8006]);
    run(&mut chip, 2);
    assert_eq!(chip.register(0), 2);
    assert_eq!(chip.register(15), 1);
}

#[test]
fn left_shift_stores_high_bit_in_vf() {
    let mut chip = machine_with(&[0x6081, 0x800E]);
    run(&mut chip, 2);
    assert_eq!(chip.register(0), 2);
    assert_eq!(chip.register(15), 1);
}

#[test]
fn bitwise_operations_combine_in_place() {
    let mut chip = machine_with(&[0x60F0, 0x610F, 0x8011]);
    run(&mut chip, 3);
    assert_eq!(chip.register(0), 0xFF);

    let mut chip = machine_with(&[0x60F0, 0x61FF, 0x8012]);
    run(&mut chip, 3);
    assert_eq!(chip.register(0), 0xF0);

    let mut chip = machine_with(&[0x60FF, 0x610F, 0x8013]);
    run(&mut chip, 3);
    assert_eq!(chip.register(0), 0xF0);
}

#[test]
fn copy_overwrites_vx() {
    let mut chip = machine_with(&[0x6107, 0x8010]);
    run(&mut chip, 2);
    assert_eq!(chip.register(0), 7);
}

#[test]
fn skip_if_register_equals_skips_only_on_match() {
    let mut chip = machine_with(&[0x6005, 0x3005]);
    run(&mut chip, 2);
    assert_eq!(chip.program_counter(), 0x206);

    let mut chip = machine_with(&[0x6005, 0x3006]);
    run(&mut chip, 2);
    assert_eq!(chip.program_counter(), 0x204);
}

#[test]
fn skip_if_register_not_equals_skips_only_on_mismatch() {
    let mut chip = machine_with(&[0x6005, 0x4006]);
    run(&mut chip, 2);
    assert_eq!(chip.program_counter(), 0x206);

    let mut chip = machine_with(&[0x6005, 0x4005]);
    run(&mut chip, 2);
    assert_eq!(chip.program_counter(), 0x204);
}

#[test]
fn register_comparison_skips() {
    let mut chip = machine_with(&[0x6005, 0x6105, 0x5010]);
    run(&mut chip, 3);
    assert_eq!(chip.program_counter(), 0x208);

    let mut chip = machine_with(&[0x6005, 0x6106, 0x5010]);
    run(&mut chip, 3);
    assert_eq!(chip.program_counter(), 0x206);

    let mut chip = machine_with(&[0x6005, 0x6106, 0x9010]);
    run(&mut chip, 3);
    assert_eq!(chip.program_counter(), 0x208);
}

#[test]
fn jump_with_pc_offset_adds_v0() {
    let mut chip = machine_with(&[0x6004, 0xB200]);
    run(&mut chip, 2);
    assert_eq!(chip.program_counter(), 0x204);
}

#[test]
fn set_index_register() {
    let mut chip = machine_with(&[0xA123]);
    run(&mut chip, 1);
    assert_eq!(chip.index_register(), 0x123);
}

#[test]
fn add_to_index_wraps_in_12_bits() {
    let mut chip = machine_with(&[0xAFFF, 0x6002, 0xF01E]);
    run(&mut chip, 3);
    assert_eq!(chip.index_register(), 0x001);
}

#[test]
fn font_character_address_and_data() {
    let mut chip = machine_with(&[0x600A, 0xF029]);
    run(&mut chip, 2);
    assert_eq!(chip.index_register(), (FONT_BASE + 5 * 0xA) as u16);
    // Glyph 0 starts with a full 0xF0 top row.
    assert_eq!(chip.memory_at(FONT_BASE as u16), 0xF0);
    assert_eq!(chip.memory_at(FONT_BASE as u16 + 4), 0xF0);
    // Glyph A starts with the same 0xF0 row.
    assert_eq!(chip.memory_at(chip.index_register()), 0xF0);
}

#[test]
fn binary_coded_decimal_writes_three_digits() {
    let mut chip = machine_with(&[0x60FE, 0xA300, 0xF033]);
    run(&mut chip, 3);
    assert_eq!(chip.memory_at(0x300), 2);
    assert_eq!(chip.memory_at(0x301), 5);
    assert_eq!(chip.memory_at(0x302), 4);
}

#[test]
fn dump_registers_stores_ascending() {
    let mut chip = machine_with(&[0x6005, 0x6107, 0x6209, 0xA300, 0xF155]);
    run(&mut chip, 5);
    assert_eq!(chip.memory_at(0x300), 5);
    assert_eq!(chip.memory_at(0x301), 7);
    // V2 is past the dumped range and must not be written.
    assert_eq!(chip.memory_at(0x302), 0);
}

#[test]
fn load_registers_reads_ascending() {
    // Index at the program base: the first two program bytes themselves
    // are the data loaded into V0 and V1.
    let mut chip = machine_with(&[0xA200, 0xF165]);
    run(&mut chip, 2);
    assert_eq!(chip.register(0), 0xA2);
    assert_eq!(chip.register(1), 0x00);
    assert_eq!(chip.register(2), 0);
}

#[test]
fn random_with_zero_mask_is_zero() {
    let mut chip = machine_with(&[0x6077, 0xC000]);
    run(&mut chip, 2);
    assert_eq!(chip.register(0), 0);
}

#[test]
fn random_is_reproducible_from_the_seed() {
    let mut a = machine_with(&[0xC0FF]);
    let mut b = machine_with(&[0xC0FF]);
    a.seed_random(12345);
    b.seed_random(12345);
    run(&mut a, 1);
    run(&mut b, 1);
    assert_eq!(a.register(0), b.register(0));

    // The drawn byte is one xorshift step of the seed, masked by NN.
    let mut x: u64 = 12345;
    x ^= x << 13;
    x ^= x >> 7;
    x ^= x << 17;
    assert_eq!(a.register(0), (x & 0xFF) as u8);
}

#[test]
fn draw_lights_pixels_and_redraw_is_reported() {
    // Draw one row read from the program's own first byte, 0x60:
    // binary 0110_0000, so pixels (1,0) and (2,0) light up.
    let mut chip = machine_with(&[0x6000, 0x6100, 0xA200, 0xD011]);
    run(&mut chip, 3);
    let redraw = chip.cycle().expect("draw should execute");
    assert!(redraw);
    let frame = chip.screen.get();
    assert_eq!(frame[0], 0);
    assert_eq!(frame[1], 1);
    assert_eq!(frame[2], 1);
    assert_eq!(frame[3], 0);
    assert_eq!(chip.register(15), 0);
}

#[test]
fn drawing_the_same_sprite_twice_clears_it_and_reports_collision() {
    let mut chip = machine_with(&[0x6000, 0x6100, 0xA200, 0xD011, 0xD011]);
    run(&mut chip, 4);
    assert_eq!(chip.register(15), 0);
    run(&mut chip, 1);
    let frame = chip.screen.get();
    assert!(frame.iter().all(|&c| c == 0));
    assert_eq!(chip.register(15), 1);
}

#[test]
fn double_draw_restores_an_unrelated_background() {
    // Draw a background sprite at (20,10), then the same sprite twice at
    // (0,0): the second location ends dark again, the background stays,
    // and the second draw reports the collision. The row byte is the
    // program's own first byte, 0x60.
    let mut chip = machine_with(&[
        0x6014, 0x610A, 0xA200, 0xD011, 0x6000, 0x6100, 0xD011, 0xD011,
    ]);
    run(&mut chip, 8);
    let frame = chip.screen.get();
    assert_eq!(frame[10 * 64 + 21], 1);
    assert_eq!(frame[10 * 64 + 22], 1);
    assert!(frame[..64].iter().all(|&c| c == 0));
    assert_eq!(chip.register(15), 1);
}

#[test]
fn draw_wraps_coordinates_at_both_edges() {
    // V0=62, V1=31; two 0xFF rows from the data at 0x20A. The sprite
    // hangs over the right and bottom edges and must wrap to the
    // opposite ones.
    let mut chip = machine_with(&[0x603E, 0x611F, 0xA20A, 0xD012, 0x1208, 0xFFFF]);
    run(&mut chip, 4);
    let frame = chip.screen.get();
    for y in [31usize, 0usize] {
        for x in [62usize, 63, 0, 1, 2, 3, 4, 5] {
            assert_eq!(frame[y * 64 + x], 1, "pixel ({x},{y}) should wrap on");
        }
        assert_eq!(frame[y * 64 + 6], 0);
        assert_eq!(frame[y * 64 + 61], 0);
    }
    assert_eq!(chip.register(15), 0);
}

#[test]
fn await_key_stalls_until_a_key_arrives() {
    let mut chip = machine_with(&[0xF50A]);
    for _ in 0..10 {
        let redraw = chip.cycle().expect("await should not fail");
        assert!(!redraw);
        assert_eq!(chip.program_counter(), 0x200);
    }
    chip.set_key(Some(7));
    chip.cycle().expect("await should complete");
    assert_eq!(chip.program_counter(), 0x202);
    assert_eq!(chip.register(5), 7);
}

#[test]
fn skip_if_key_pressed_consults_the_key_slot() {
    let mut chip = machine_with(&[0x6005, 0xE09E]);
    chip.set_key(Some(5));
    run(&mut chip, 2);
    assert_eq!(chip.program_counter(), 0x206);

    let mut chip = machine_with(&[0x6005, 0xE09E]);
    run(&mut chip, 2);
    assert_eq!(chip.program_counter(), 0x204);
}

#[test]
fn skip_if_key_not_pressed_consults_the_key_slot() {
    let mut chip = machine_with(&[0x6005, 0xE0A1]);
    run(&mut chip, 2);
    assert_eq!(chip.program_counter(), 0x206);

    let mut chip = machine_with(&[0x6005, 0xE0A1]);
    chip.set_key(Some(5));
    run(&mut chip, 2);
    assert_eq!(chip.program_counter(), 0x204);
}

#[test]
fn delay_and_sound_timers_are_set_and_read() {
    let mut chip = machine_with(&[0x6030, 0xF015, 0xF018, 0xF107]);
    run(&mut chip, 4);
    assert_eq!(chip.delay_timer.get(), 0x30);
    assert_eq!(chip.sound_timer.get(), 0x30);
    assert_eq!(chip.register(1), 0x30);
}

#[test]
fn timers_tick_independently_of_cycles() {
    let mut chip = machine_with(&[0x6002, 0xF015, 0x1204]);
    run(&mut chip, 2);
    assert_eq!(chip.delay_timer.get(), 2);
    // Cycles alone never move a timer.
    run(&mut chip, 10);
    assert_eq!(chip.delay_timer.get(), 2);
    chip.delay_timer.decrement();
    assert_eq!(chip.delay_timer.get(), 1);
    chip.delay_timer.decrement();
    chip.delay_timer.decrement();
    assert_eq!(chip.delay_timer.get(), 0);
}

#[test]
fn call_and_return_round_trip() {
    let mut chip = machine_with(&[0x2204, 0x0000, 0x00EE]);
    chip.cycle().expect("call should execute");
    assert_eq!(chip.program_counter(), 0x204);
    assert_eq!(chip.stack_depth(), 1);
    chip.cycle().expect("return should execute");
    assert_eq!(chip.program_counter(), 0x202);
    assert_eq!(chip.stack_depth(), 0);
}

#[test]
fn native_call_opcode_is_fatal_and_changes_nothing() {
    let mut chip = machine_with(&[0x0123]);
    let before = chip.program_counter();
    assert_eq!(chip.cycle(), Err(Chip8Error::ProgramNotCompatible));
    assert_eq!(chip.program_counter(), before);
}

#[test]
fn malformed_opcode_is_fatal_and_carries_the_raw_value() {
    let mut chip = machine_with(&[0x8008]);
    assert_eq!(
        chip.cycle(),
        Err(Chip8Error::InvalidInstruction { instruction: 0x8008 })
    );
    assert_eq!(chip.program_counter(), 0x200);
}

#[test]
fn return_on_empty_stack_underflows() {
    let mut chip = machine_with(&[0x00EE]);
    assert_eq!(chip.cycle(), Err(Chip8Error::StackUnderflow));
    assert_eq!(chip.program_counter(), 0x200);
}

#[test]
fn seventeenth_nested_call_overflows() {
    // A chain of calls, each to the next opcode.
    let mut calls: Vec<u16> = Vec::new();
    for k in 0..17u16 {
        calls.push(0x2000 | (0x202 + 2 * k));
    }
    let mut chip = machine_with(&calls);
    for _ in 0..16 {
        chip.cycle().expect("within capacity");
    }
    assert_eq!(chip.stack_depth(), 16);
    let before = chip.program_counter();
    assert_eq!(chip.cycle(), Err(Chip8Error::StackOverflow));
    assert_eq!(chip.program_counter(), before);
    assert_eq!(chip.stack_depth(), 16);
}

#[test]
fn load_refuses_an_image_that_does_not_fit() {
    let mut chip = Chip8::new();
    let too_big = vec![0u8; 4096 - PROGRAM_BASE + 1];
    assert_eq!(chip.load_program(too_big), Err(Chip8Error::LoadTooLarge));
    let just_fits = vec![0u8; 4096 - PROGRAM_BASE];
    assert_eq!(chip.load_program(just_fits), Ok(()));
}

#[test]
fn load_places_the_image_at_the_program_base() {
    let mut chip = Chip8::new();
    chip.load_program(vec![0xAB, 0xCD]).expect("should fit");
    assert_eq!(chip.memory_at(PROGRAM_BASE as u16), 0xAB);
    assert_eq!(chip.memory_at(PROGRAM_BASE as u16 + 1), 0xCD);
    assert_eq!(chip.memory_at(PROGRAM_BASE as u16 + 2), 0);
}

#[test]
fn initialize_resets_everything_but_keeps_the_seed() {
    let mut chip = machine_with(&[0x6005, 0xA123, 0x2206]);
    run(&mut chip, 3);
    assert_ne!(chip.program_counter(), 0x200);
    chip.initialize();
    assert_eq!(chip.program_counter(), 0x200);
    assert_eq!(chip.register(0), 0);
    assert_eq!(chip.index_register(), 0);
    assert_eq!(chip.stack_depth(), 0);
    assert_eq!(chip.delay_timer.get(), 0);
    assert_eq!(chip.sound_timer.get(), 0);
    assert_eq!(chip.pressed_key(), None);
    // The program image is gone until it is loaded again.
    assert_eq!(chip.memory_at(0x200), 0);
    // The font survives a reset.
    assert_eq!(chip.memory_at(FONT_BASE as u16), 0xF0);
}

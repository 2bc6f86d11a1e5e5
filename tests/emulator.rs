use chip8_core::{EmuError, Emulator, SCREEN_HEIGHT, SCREEN_WIDTH};

fn machine_with(program: &[u8]) -> Emulator {
    let mut emu = Emulator::new();
    assert_eq!(emu.load(program), Ok(()));
    emu
}

fn run(emu: &mut Emulator, steps: usize) {
    for _ in 0..steps {
        assert_eq!(emu.tick_with(0), Ok(()));
    }
}

#[test]
fn new_machine_starts_at_program_address_with_glyphs() {
    let emu = Emulator::new();
    assert_eq!(emu.pc(), 0x200);
    assert_eq!(emu.memory_at(0), 0xF0);
    assert_eq!(emu.memory_at(5), 0x20);
    assert_eq!(emu.memory_at(79), 0x80);
    assert_eq!(emu.memory_at(80), 0);
    assert_eq!(emu.index_register(), 0);
    assert_eq!(emu.delay_timer(), 0);
    assert_eq!(emu.sound_timer(), 0);
    assert_eq!(emu.get_display().len(), SCREEN_WIDTH * SCREEN_HEIGHT);
    assert!(emu.get_display().iter().all(|p| !p));
}

#[test]
fn add_registers_sets_carry() {
    // V1 = 200, V2 = 100, V1 += V2
    let mut emu = machine_with(&[0x61, 200, 0x62, 100, 0x81, 0x24]);
    run(&mut emu, 3);
    assert_eq!(emu.register(1), 44);
    assert_eq!(emu.register(0xF), 1);
    assert_eq!(emu.pc(), 0x206);
}

#[test]
fn add_registers_without_carry() {
    let mut emu = machine_with(&[0x61, 1, 0x62, 2, 0x81, 0x24]);
    run(&mut emu, 3);
    assert_eq!(emu.register(1), 3);
    assert_eq!(emu.register(0xF), 0);
}

#[test]
fn add_registers_exact_overflow_boundary() {
    let mut emu = machine_with(&[0x61, 255, 0x62, 1, 0x81, 0x24]);
    run(&mut emu, 3);
    assert_eq!(emu.register(1), 0);
    assert_eq!(emu.register(0xF), 1);
}

#[test]
fn add_into_flag_register_keeps_flag() {
    // VF = 200, V2 = 100, VF += V2: the flag write comes last.
    let mut emu = machine_with(&[0x6F, 200, 0x62, 100, 0x8F, 0x24]);
    run(&mut emu, 3);
    assert_eq!(emu.register(0xF), 1);
}

#[test]
fn subtract_registers_with_borrow() {
    let mut emu = machine_with(&[0x61, 5, 0x62, 7, 0x81, 0x25]);
    run(&mut emu, 3);
    assert_eq!(emu.register(1), 254);
    assert_eq!(emu.register(0xF), 0);
}

#[test]
fn subtract_registers_without_borrow() {
    let mut emu = machine_with(&[0x61, 7, 0x62, 5, 0x81, 0x25]);
    run(&mut emu, 3);
    assert_eq!(emu.register(1), 2);
    assert_eq!(emu.register(0xF), 1);
}

#[test]
fn subtract_equal_registers_gives_zero_and_no_borrow() {
    let mut emu = machine_with(&[0x61, 9, 0x62, 9, 0x81, 0x25]);
    run(&mut emu, 3);
    assert_eq!(emu.register(1), 0);
    assert_eq!(emu.register(0xF), 1);
}

#[test]
fn reverse_subtract() {
    // V1 = V2 - V1
    let mut emu = machine_with(&[0x61, 7, 0x62, 5, 0x81, 0x27]);
    run(&mut emu, 3);
    assert_eq!(emu.register(1), 254);
    assert_eq!(emu.register(0xF), 0);
}

#[test]
fn shifts_set_flag_from_lost_bit() {
    let mut emu = machine_with(&[0x61, 0x81, 0x81, 0x06, 0x62, 0x81, 0x82, 0x0E]);
    run(&mut emu, 2);
    assert_eq!(emu.register(1), 0x40);
    assert_eq!(emu.register(0xF), 1);
    run(&mut emu, 2);
    assert_eq!(emu.register(2), 0x02);
    assert_eq!(emu.register(0xF), 1);
}

#[test]
fn bitwise_and_move() {
    let mut emu = machine_with(&[
        0x61, 0b1100, 0x62, 0b1010, 0x63, 0b1100, 0x64, 0b1100, 0x81, 0x21, 0x83, 0x22, 0x84,
        0x23, 0x85, 0x20,
    ]);
    run(&mut emu, 8);
    assert_eq!(emu.register(1), 0b1110);
    assert_eq!(emu.register(3), 0b1000);
    assert_eq!(emu.register(4), 0b0110);
    assert_eq!(emu.register(5), 0b1010);
}

#[test]
fn add_immediate_wraps_without_flag() {
    let mut emu = machine_with(&[0x6F, 7, 0x61, 250, 0x71, 10]);
    run(&mut emu, 3);
    assert_eq!(emu.register(1), 4);
    assert_eq!(emu.register(0xF), 7);
}

#[test]
fn clear_display_turns_every_pixel_off() {
    // Draw glyph 0 at (0, 0), then clear.
    let mut emu = machine_with(&[0xA0, 0x00, 0xD0, 0x05, 0x00, 0xE0]);
    run(&mut emu, 2);
    assert!(emu.get_display().iter().any(|p| *p));
    run(&mut emu, 1);
    let display = emu.get_display();
    assert_eq!(display.len(), 2048);
    assert!(display.iter().all(|p| !p));
}

#[test]
fn load_largest_program_succeeds() {
    let mut emu = Emulator::new();
    let program = vec![0xAB; 4096 - 512];
    assert_eq!(emu.load(&program), Ok(()));
    assert_eq!(emu.memory_at(0x200), 0xAB);
    assert_eq!(emu.memory_at(4095), 0xAB);
    assert_eq!(emu.memory_at(0x1FF), 0);
}

#[test]
fn load_one_byte_too_many_fails() {
    let mut emu = Emulator::new();
    let program = vec![0xAB; 4096 - 512 + 1];
    assert_eq!(emu.load(&program), Err(EmuError::ProgramTooLarge));
    assert_eq!(emu.memory_at(0x200), 0);
}

#[test]
fn call_then_return_resumes_after_call() {
    let mut program = vec![0u8; 0x102];
    program[0] = 0x23;
    program[1] = 0x00;
    program[0x100] = 0x00;
    program[0x101] = 0xEE;
    let mut emu = machine_with(&program);
    run(&mut emu, 1);
    assert_eq!(emu.pc(), 0x300);
    run(&mut emu, 1);
    assert_eq!(emu.pc(), 0x202);
}

#[test]
fn return_with_empty_stack_underflows() {
    let mut emu = machine_with(&[0x00, 0xEE]);
    assert_eq!(emu.tick_with(0), Err(EmuError::StackUnderflow));
    assert_eq!(emu.pc(), 0x200);
}

#[test]
fn seventeenth_nested_call_overflows() {
    // The instruction at 0x200 calls itself.
    let mut emu = machine_with(&[0x22, 0x00]);
    run(&mut emu, 16);
    assert_eq!(emu.tick_with(0), Err(EmuError::StackOverflow));
    assert_eq!(emu.pc(), 0x200);
}

#[test]
fn jump_sets_program_counter() {
    let mut emu = machine_with(&[0x12, 0x05]);
    run(&mut emu, 1);
    assert_eq!(emu.pc(), 0x205);
}

#[test]
fn jump_with_offset_adds_register_zero() {
    let mut emu = machine_with(&[0x60, 0x10, 0xB3, 0x00]);
    run(&mut emu, 2);
    assert_eq!(emu.pc(), 0x310);
}

#[test]
fn wait_for_key_polls_until_pressed() {
    let mut emu = machine_with(&[0xF3, 0x0A]);
    run(&mut emu, 1);
    assert_eq!(emu.pc(), 0x200);
    run(&mut emu, 1);
    assert_eq!(emu.pc(), 0x200);
    emu.keypress(5, true);
    run(&mut emu, 1);
    assert_eq!(emu.register(3), 5);
    assert_eq!(emu.pc(), 0x202);
}

#[test]
fn wait_for_key_takes_lowest_pressed() {
    let mut emu = machine_with(&[0xF3, 0x0A]);
    emu.keypress(9, true);
    emu.keypress(4, true);
    run(&mut emu, 1);
    assert_eq!(emu.register(3), 4);
}

#[test]
fn keypress_out_of_range_is_ignored() {
    let mut emu = machine_with(&[0xF3, 0x0A]);
    emu.keypress(16, true);
    run(&mut emu, 1);
    assert_eq!(emu.pc(), 0x200);
}

#[test]
fn skip_if_key_pressed_and_not_pressed() {
    let mut emu = machine_with(&[0x61, 0x02, 0xE1, 0x9E, 0x00, 0x00, 0xE1, 0xA1, 0xE1, 0xAE]);
    emu.keypress(2, true);
    run(&mut emu, 2);
    assert_eq!(emu.pc(), 0x206);
    emu.keypress(2, false);
    // 0xE1A1 is no instruction.
    assert_eq!(
        emu.tick_with(0),
        Err(EmuError::UnrecognizedOpcode { opcode: 0xE1A1, address: 0x206 })
    );
    let mut emu = machine_with(&[0x61, 0x02, 0xE1, 0xAE]);
    run(&mut emu, 2);
    assert_eq!(emu.pc(), 0x206);
}

#[test]
fn skip_on_key_register_past_keypad_counts_as_not_pressed() {
    let mut emu = machine_with(&[0x61, 0x20, 0xE1, 0x9E, 0xE1, 0xAE]);
    run(&mut emu, 2);
    assert_eq!(emu.pc(), 0x204);
    run(&mut emu, 1);
    assert_eq!(emu.pc(), 0x208);
}

#[test]
fn conditional_skips() {
    let mut emu = machine_with(&[
        0x61, 0x05, 0x62, 0x05, 0x31, 0x05, 0x00, 0x00, 0x41, 0x05, 0x51, 0x20, 0x00, 0x00,
        0x91, 0x20,
    ]);
    run(&mut emu, 3);
    assert_eq!(emu.pc(), 0x208);
    run(&mut emu, 1);
    assert_eq!(emu.pc(), 0x20A);
    run(&mut emu, 1);
    assert_eq!(emu.pc(), 0x20E);
    run(&mut emu, 1);
    assert_eq!(emu.pc(), 0x210);
}

#[test]
fn delay_timer_counts_down_to_zero_and_stops() {
    let mut emu = machine_with(&[0x61, 0x01, 0xF1, 0x15, 0xF2, 0x07]);
    run(&mut emu, 2);
    assert_eq!(emu.delay_timer(), 1);
    assert!(!emu.timers_tick());
    assert_eq!(emu.delay_timer(), 0);
    assert!(!emu.timers_tick());
    assert_eq!(emu.delay_timer(), 0);
    run(&mut emu, 1);
    assert_eq!(emu.register(2), 0);
}

#[test]
fn sound_timer_signals_when_it_runs_out() {
    let mut emu = machine_with(&[0x61, 0x02, 0xF1, 0x18]);
    run(&mut emu, 2);
    assert_eq!(emu.sound_timer(), 2);
    assert!(!emu.timers_tick());
    assert!(emu.timers_tick());
    assert_eq!(emu.sound_timer(), 0);
    assert!(!emu.timers_tick());
}

#[test]
fn sprite_wraps_around_right_edge() {
    // V0 = 60, V1 = 0, I = 0x208, draw one row 0b1010_0101.
    let mut emu = machine_with(&[0x60, 60, 0x61, 0, 0xA2, 0x08, 0xD0, 0x11, 0b1010_0101]);
    run(&mut emu, 4);
    let d = emu.get_display();
    let lit: Vec<usize> = (0..d.len()).filter(|&p| d[p]).collect();
    assert_eq!(lit, vec![1, 3, 60, 62]);
    assert_eq!(emu.register(0xF), 1);
}

#[test]
fn sprite_wraps_around_bottom_edge() {
    // V0 = 0, V1 = 31, I = glyph 0, two rows.
    let mut emu = machine_with(&[0x60, 0, 0x61, 31, 0xA0, 0x00, 0xD0, 0x12]);
    run(&mut emu, 4);
    let d = emu.get_display();
    // Row 31 takes 0xF0, row 0 takes 0x90.
    assert!(d[31 * 64] && d[31 * 64 + 3] && !d[31 * 64 + 4]);
    assert!(d[0] && !d[1] && !d[2] && d[3]);
}

#[test]
fn drawing_twice_erases_and_flag_stays_one() {
    let mut emu = machine_with(&[0xA0, 0x00, 0xD0, 0x05, 0xD0, 0x05]);
    run(&mut emu, 2);
    assert_eq!(emu.register(0xF), 1);
    run(&mut emu, 1);
    assert!(emu.get_display().iter().all(|p| !p));
    assert_eq!(emu.register(0xF), 1);
}

#[test]
fn draw_past_end_of_memory_fails() {
    let mut emu = machine_with(&[0xAF, 0xFF, 0xD0, 0x02]);
    run(&mut emu, 1);
    assert_eq!(emu.tick_with(0), Err(EmuError::MemoryOutOfBounds));
    assert_eq!(emu.pc(), 0x202);
}

#[test]
fn decimal_digits_are_stored() {
    let mut emu = machine_with(&[0x61, 254, 0xA3, 0x00, 0xF1, 0x33]);
    run(&mut emu, 3);
    assert_eq!(emu.memory_at(0x300), 2);
    assert_eq!(emu.memory_at(0x301), 5);
    assert_eq!(emu.memory_at(0x302), 4);
}

#[test]
fn decimal_digits_past_end_of_memory_fail() {
    let mut emu = machine_with(&[0xAF, 0xFE, 0xF1, 0x33]);
    run(&mut emu, 1);
    assert_eq!(emu.tick_with(0), Err(EmuError::MemoryOutOfBounds));
    assert_eq!(emu.memory_at(0xFFE), 0);
}

#[test]
fn store_and_load_register_ranges() {
    let mut emu = machine_with(&[
        0x60, 10, 0x61, 20, 0x62, 30, 0xA3, 0x00, 0xF1, 0x55, 0xA3, 0x01, 0xF1, 0x65,
    ]);
    run(&mut emu, 5);
    assert_eq!(emu.memory_at(0x300), 10);
    assert_eq!(emu.memory_at(0x301), 20);
    assert_eq!(emu.memory_at(0x302), 0);
    run(&mut emu, 2);
    assert_eq!(emu.register(0), 20);
    assert_eq!(emu.register(1), 0);
    assert_eq!(emu.register(2), 30);
}

#[test]
fn store_past_end_of_memory_fails() {
    let mut emu = machine_with(&[0xAF, 0xFE, 0xF2, 0x55]);
    run(&mut emu, 1);
    assert_eq!(emu.tick_with(0), Err(EmuError::MemoryOutOfBounds));
    assert_eq!(emu.memory_at(0xFFE), 0);
}

#[test]
fn index_register_arithmetic() {
    let mut emu = machine_with(&[0xAF, 0xFF, 0x61, 0x02, 0xF1, 0x1E, 0x62, 0x1A, 0xF2, 0x29]);
    run(&mut emu, 3);
    assert_eq!(emu.index_register(), 0x1001);
    run(&mut emu, 2);
    assert_eq!(emu.index_register(), 50);
}

#[test]
fn random_byte_is_masked() {
    let mut emu = machine_with(&[0xC1, 0xF0, 0xC2, 0x00]);
    assert_eq!(emu.tick_with(0xAB), Ok(()));
    assert_eq!(emu.register(1), 0xA0);
    assert_eq!(emu.tick(), Ok(()));
    assert_eq!(emu.register(2), 0);
}

#[test]
fn tick_runs_instructions() {
    let mut emu = machine_with(&[0x61, 0x33, 0x12, 0x00]);
    assert_eq!(emu.tick(), Ok(()));
    assert_eq!(emu.register(1), 0x33);
    assert_eq!(emu.tick(), Ok(()));
    assert_eq!(emu.pc(), 0x200);
}

#[test]
fn unrecognized_opcode_reports_word_and_address() {
    let mut emu = machine_with(&[0x00, 0x00, 0xFF, 0xFF]);
    run(&mut emu, 1);
    assert_eq!(
        emu.tick_with(0),
        Err(EmuError::UnrecognizedOpcode { opcode: 0xFFFF, address: 0x202 })
    );
    assert_eq!(emu.pc(), 0x202);
    let mut emu = machine_with(&[0x80, 0x08]);
    assert_eq!(
        emu.tick_with(0),
        Err(EmuError::UnrecognizedOpcode { opcode: 0x8008, address: 0x200 })
    );
}

#[test]
fn fetch_past_end_of_memory_fails() {
    let mut emu = machine_with(&[0x1F, 0xFF]);
    run(&mut emu, 1);
    assert_eq!(emu.pc(), 0xFFF);
    assert_eq!(emu.tick_with(0), Err(EmuError::MemoryOutOfBounds));
    assert_eq!(emu.pc(), 0xFFF);
}

#[test]
fn reset_restores_initial_state() {
    let mut emu = machine_with(&[0x61, 0x07, 0xA0, 0x00, 0xD0, 0x05, 0xF1, 0x15, 0x22, 0x00]);
    emu.keypress(3, true);
    run(&mut emu, 5);
    emu.reset();
    assert_eq!(emu.pc(), 0x200);
    assert_eq!(emu.register(1), 0);
    assert_eq!(emu.register(0xF), 0);
    assert_eq!(emu.index_register(), 0);
    assert_eq!(emu.delay_timer(), 0);
    assert_eq!(emu.memory_at(0x200), 0);
    assert_eq!(emu.memory_at(0), 0xF0);
    assert!(emu.get_display().iter().all(|p| !p));
    assert_eq!(emu.tick_with(0), Ok(()));
    // The stack was emptied: a return now underflows.
    let mut emu2 = machine_with(&[0x22, 0x02, 0x00, 0xEE, 0x00, 0xEE]);
    run(&mut emu2, 1);
    emu2.reset();
    assert_eq!(emu2.load(&[0x00, 0xEE]), Ok(()));
    assert_eq!(emu2.tick_with(0), Err(EmuError::StackUnderflow));
}

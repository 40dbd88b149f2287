use chip8_core::{Chip8, Fault, Trap, FONTSET};

fn machine_with(program: &[u8]) -> Chip8 {
    let mut machine = Chip8::new();
    machine.load(program);
    machine
}

fn run(machine: &mut Chip8, cycles: usize) {
    for _ in 0..cycles {
        assert_eq!(machine.tick(), Ok(()));
    }
}

fn lit_pixels(machine: &Chip8) -> Vec<(usize, usize)> {
    let display = machine.get_display();
    let mut lit = Vec::new();
    for (p, on) in display.iter().enumerate() {
        if *on {
            lit.push((p % 64, p / 64));
        }
    }
    lit
}

fn assert_power_up_state(machine: &Chip8) {
    assert_eq!(machine.pc(), 0x200);
    assert_eq!(machine.index(), 0);
    assert_eq!(machine.delay_timer(), 0);
    assert_eq!(machine.sound_timer(), 0);
    assert_eq!(machine.stack_depth(), 0);
    for x in 0..16 {
        assert_eq!(machine.register(x), 0);
    }
    for addr in 0..4096 {
        let expected = if addr < 80 { FONTSET[addr] } else { 0 };
        assert_eq!(machine.memory(addr), expected);
    }
    assert_eq!(machine.get_display().len(), 64 * 32);
    assert!(machine.get_display().iter().all(|on| !*on));
}

#[test]
fn fresh_machine_is_blank_and_starts_at_0x200() {
    let machine = Chip8::new();
    assert_eq!(machine.get_display().len(), 2048);
    assert!(machine.get_display().iter().all(|on| !*on));
    assert_eq!(machine.pc(), 0x200);
    assert_power_up_state(&machine);
}

#[test]
fn fresh_machine_holds_the_font() {
    let machine = Chip8::new();
    assert_eq!(machine.memory(0), 0xF0);
    assert_eq!(machine.memory(4), 0xF0);
    assert_eq!(machine.memory(5), 0x20);
    assert_eq!(machine.memory(79), 0x80);
    assert_eq!(machine.memory(80), 0x00);
}

#[test]
fn reset_restores_the_power_up_state() {
    // V0 = 9, I = 0, draw glyph, call 0x20A, set timers, then wait for a key
    let mut machine = machine_with(&[
        0x60, 0x09, 0xA0, 0x00, 0xD0, 0x05, 0x22, 0x0A, 0x00, 0x00, 0xF0, 0x15, 0xF0, 0x18, 0xF1,
        0x0A,
    ]);
    machine.keypress(3, true);
    run(&mut machine, 7);
    assert_eq!(machine.register(1), 3);
    assert_eq!(machine.stack_depth(), 1);
    assert_eq!(machine.delay_timer(), 9);
    assert!(!lit_pixels(&machine).is_empty());
    machine.reset();
    assert_power_up_state(&machine);
    // the key is up again: the wait instruction stalls
    machine.load(&[0xF1, 0x0A]);
    assert_eq!(machine.tick(), Ok(()));
    assert_eq!(machine.pc(), 0x200);
}

#[test]
fn reset_of_a_fresh_machine_changes_nothing() {
    let mut machine = Chip8::new();
    machine.reset();
    assert_power_up_state(&machine);
}

#[test]
fn load_copies_the_program_to_0x200() {
    let mut machine = Chip8::new();
    machine.load(&[0x12, 0x34, 0x56]);
    assert_eq!(machine.memory(0x1FF), 0);
    assert_eq!(machine.memory(0x200), 0x12);
    assert_eq!(machine.memory(0x201), 0x34);
    assert_eq!(machine.memory(0x202), 0x56);
    assert_eq!(machine.memory(0x203), 0);
    assert_eq!(machine.memory(0), 0xF0);
    assert_eq!(machine.pc(), 0x200);
}

#[test]
fn load_takes_a_program_that_fills_memory() {
    let program = vec![0xAB; 4096 - 0x200];
    let mut machine = Chip8::new();
    machine.load(&program);
    assert_eq!(machine.memory(0x200), 0xAB);
    assert_eq!(machine.memory(4095), 0xAB);
    assert_eq!(machine.memory(0x1FF), 0);
}

#[test]
fn load_of_nothing_changes_nothing() {
    let mut machine = Chip8::new();
    machine.load(&[]);
    assert_power_up_state(&machine);
}

#[test]
fn clear_screen_clears_a_dirty_display() {
    // I = 0, draw the glyph for 0 at (0, 0), jump back to 0x200
    let mut machine = machine_with(&[0xA0, 0x00, 0xD0, 0x05, 0x12, 0x00]);
    run(&mut machine, 3);
    assert_eq!(lit_pixels(&machine).len(), 14);
    assert_eq!(machine.pc(), 0x200);
    machine.load(&[0x00, 0xE0]);
    assert_eq!(machine.tick(), Ok(()));
    assert!(machine.get_display().iter().all(|on| !*on));
    assert_eq!(machine.pc(), 0x202);
}

#[test]
fn add_byte_adds() {
    let mut machine = machine_with(&[0x60, 0x05, 0x70, 0x03]);
    run(&mut machine, 2);
    assert_eq!(machine.register(0), 8);
    assert_eq!(machine.pc(), 0x204);
}

#[test]
fn add_byte_wraps_without_carry() {
    let mut machine = machine_with(&[0x60, 0xFF, 0x70, 0x01]);
    run(&mut machine, 2);
    assert_eq!(machine.register(0), 0);
    assert_eq!(machine.register(0xF), 0);
}

#[test]
fn add_byte_leaves_a_set_flag_alone() {
    // VF = 1, V0 = 0xFF, V0 += 2
    let mut machine = machine_with(&[0x6F, 0x01, 0x60, 0xFF, 0x70, 0x02]);
    run(&mut machine, 3);
    assert_eq!(machine.register(0), 1);
    assert_eq!(machine.register(0xF), 1);
}

#[test]
fn add_registers_sets_carry() {
    let mut machine = machine_with(&[0x60, 0xFF, 0x61, 0x01, 0x80, 0x14]);
    run(&mut machine, 3);
    assert_eq!(machine.register(0), 0x00);
    assert_eq!(machine.register(0xF), 1);
}

#[test]
fn add_registers_clears_carry() {
    let mut machine = machine_with(&[0x6F, 0x01, 0x60, 0x10, 0x61, 0x22, 0x80, 0x14]);
    run(&mut machine, 4);
    assert_eq!(machine.register(0), 0x32);
    assert_eq!(machine.register(1), 0x22);
    assert_eq!(machine.register(0xF), 0);
}

#[test]
fn add_into_the_flag_register_keeps_the_carry() {
    // VF = 0xFF, V1 = 2, VF += V1: the flag wins over the sum
    let mut machine = machine_with(&[0x6F, 0xFF, 0x61, 0x02, 0x8F, 0x14]);
    run(&mut machine, 3);
    assert_eq!(machine.register(0xF), 1);
}

#[test]
fn sub_registers_borrows() {
    let mut machine = machine_with(&[0x60, 0x01, 0x61, 0x02, 0x80, 0x15]);
    run(&mut machine, 3);
    assert_eq!(machine.register(0), 0xFF);
    assert_eq!(machine.register(0xF), 0);
}

#[test]
fn sub_registers_without_borrow() {
    let mut machine = machine_with(&[0x60, 0x07, 0x61, 0x07, 0x80, 0x15]);
    run(&mut machine, 3);
    assert_eq!(machine.register(0), 0);
    assert_eq!(machine.register(0xF), 1);
}

#[test]
fn sub_from_reverses_the_operands() {
    // V0 = 3, V1 = 10, V0 = V1 - V0
    let mut machine = machine_with(&[0x60, 0x03, 0x61, 0x0A, 0x80, 0x17]);
    run(&mut machine, 3);
    assert_eq!(machine.register(0), 7);
    assert_eq!(machine.register(0xF), 1);
    // V0 = 10, V1 = 3, V0 = V1 - V0
    let mut machine = machine_with(&[0x60, 0x0A, 0x61, 0x03, 0x80, 0x17]);
    run(&mut machine, 3);
    assert_eq!(machine.register(0), 0xF9);
    assert_eq!(machine.register(0xF), 0);
}

#[test]
fn move_or_and_xor() {
    let mut machine = machine_with(&[
        0x60, 0xCC, 0x61, 0xAA, 0x82, 0x00, 0x82, 0x11, 0x83, 0x00, 0x83, 0x12, 0x84, 0x00, 0x84,
        0x13,
    ]);
    run(&mut machine, 8);
    assert_eq!(machine.register(0), 0xCC);
    assert_eq!(machine.register(1), 0xAA);
    assert_eq!(machine.register(2), 0xEE);
    assert_eq!(machine.register(3), 0x88);
    assert_eq!(machine.register(4), 0x66);
    assert_eq!(machine.register(0xF), 0);
}

#[test]
fn shift_right_captures_the_low_bit() {
    let mut machine = machine_with(&[0x60, 0x05, 0x80, 0x06, 0x61, 0x04, 0x81, 0x06]);
    run(&mut machine, 2);
    assert_eq!(machine.register(0), 2);
    assert_eq!(machine.register(0xF), 1);
    run(&mut machine, 2);
    assert_eq!(machine.register(1), 2);
    assert_eq!(machine.register(0xF), 0);
}

#[test]
fn shift_left_captures_the_high_bit() {
    let mut machine = machine_with(&[0x60, 0x81, 0x80, 0x0E, 0x61, 0x41, 0x81, 0x0E]);
    run(&mut machine, 2);
    assert_eq!(machine.register(0), 0x02);
    assert_eq!(machine.register(0xF), 1);
    run(&mut machine, 2);
    assert_eq!(machine.register(1), 0x82);
    assert_eq!(machine.register(0xF), 0);
}

#[test]
fn jump_sets_the_program_counter() {
    let mut machine = machine_with(&[0x1A, 0xBC]);
    run(&mut machine, 1);
    assert_eq!(machine.pc(), 0xABC);
}

#[test]
fn jump_offset_adds_v0() {
    let mut machine = machine_with(&[0x60, 0xFF, 0xBF, 0xFF]);
    run(&mut machine, 2);
    assert_eq!(machine.pc(), 0xFF + 0xFFF);
}

#[test]
fn call_and_return() {
    // 0x200: call 0x206; 0x202: V1 = 1; 0x206: V0 = 7; 0x208: return
    let mut machine = machine_with(&[0x22, 0x06, 0x61, 0x01, 0x00, 0x00, 0x60, 0x07, 0x00, 0xEE]);
    run(&mut machine, 1);
    assert_eq!(machine.pc(), 0x206);
    assert_eq!(machine.stack_depth(), 1);
    run(&mut machine, 2);
    assert_eq!(machine.pc(), 0x202);
    assert_eq!(machine.stack_depth(), 0);
    assert_eq!(machine.register(0), 7);
    run(&mut machine, 1);
    assert_eq!(machine.register(1), 1);
}

#[test]
fn skips_on_bytes() {
    // V0 = 5; skip if V0 == 5 (taken); skip if V0 == 6 (not taken)
    let mut machine = machine_with(&[0x60, 0x05, 0x30, 0x05, 0x00, 0x00, 0x30, 0x06]);
    run(&mut machine, 2);
    assert_eq!(machine.pc(), 0x206);
    run(&mut machine, 1);
    assert_eq!(machine.pc(), 0x208);
    // V0 = 5; skip if V0 != 6 (taken); skip if V0 != 5 (not taken)
    let mut machine = machine_with(&[0x60, 0x05, 0x40, 0x06, 0x00, 0x00, 0x40, 0x05]);
    run(&mut machine, 2);
    assert_eq!(machine.pc(), 0x206);
    run(&mut machine, 1);
    assert_eq!(machine.pc(), 0x208);
}

#[test]
fn skips_on_registers() {
    // V0 = 5, V1 = 5, V2 = 6
    let setup = [0x60, 0x05, 0x61, 0x05, 0x62, 0x06];
    let mut program = setup.to_vec();
    program.extend_from_slice(&[0x50, 0x10, 0x00, 0x00, 0x50, 0x20]);
    let mut machine = machine_with(&program);
    run(&mut machine, 4);
    assert_eq!(machine.pc(), 0x20A);
    run(&mut machine, 1);
    assert_eq!(machine.pc(), 0x20C);
    let mut program = setup.to_vec();
    program.extend_from_slice(&[0x90, 0x20, 0x00, 0x00, 0x90, 0x10]);
    let mut machine = machine_with(&program);
    run(&mut machine, 4);
    assert_eq!(machine.pc(), 0x20A);
    run(&mut machine, 1);
    assert_eq!(machine.pc(), 0x20C);
}

#[test]
fn load_index_and_add_index() {
    let mut machine = machine_with(&[0xA1, 0x23, 0x60, 0x10, 0xF0, 0x1E]);
    run(&mut machine, 1);
    assert_eq!(machine.index(), 0x123);
    run(&mut machine, 2);
    assert_eq!(machine.index(), 0x133);
    assert_eq!(machine.register(0xF), 0);
}

#[test]
fn font_glyph_address_is_five_times_the_digit() {
    let mut machine = machine_with(&[0x60, 0x0A, 0xF0, 0x29, 0x61, 0xFF, 0xF1, 0x29]);
    run(&mut machine, 2);
    assert_eq!(machine.index(), 50);
    run(&mut machine, 2);
    assert_eq!(machine.index(), 1275);
}

#[test]
fn timers_are_set_read_and_count_down_to_zero() {
    // V0 = 2, delay = V0, V1 = 1, sound = V1, V2 = delay
    let mut machine = machine_with(&[0x60, 0x02, 0xF0, 0x15, 0x61, 0x01, 0xF1, 0x18, 0xF2, 0x07]);
    run(&mut machine, 5);
    assert_eq!(machine.delay_timer(), 2);
    assert_eq!(machine.sound_timer(), 1);
    assert_eq!(machine.register(2), 2);
    machine.tick_timers();
    assert_eq!(machine.delay_timer(), 1);
    assert_eq!(machine.sound_timer(), 0);
    machine.tick_timers();
    assert_eq!(machine.delay_timer(), 0);
    assert_eq!(machine.sound_timer(), 0);
    machine.tick_timers();
    assert_eq!(machine.delay_timer(), 0);
    assert_eq!(machine.sound_timer(), 0);
    assert_eq!(machine.pc(), 0x20A);
}

#[test]
fn drawing_twice_toggles_back_and_collides() {
    // V0 = 10, V1 = 5, I = 0 (glyph 0), draw 5 rows, draw again
    let mut machine = machine_with(&[0x60, 0x0A, 0x61, 0x05, 0xA0, 0x00, 0xD0, 0x15, 0xD0, 0x15]);
    run(&mut machine, 4);
    assert_eq!(machine.register(0xF), 0);
    let expected = vec![
        (10, 5), (11, 5), (12, 5), (13, 5),
        (10, 6), (13, 6),
        (10, 7), (13, 7),
        (10, 8), (13, 8),
        (10, 9), (11, 9), (12, 9), (13, 9),
    ];
    assert_eq!(lit_pixels(&machine), expected);
    run(&mut machine, 1);
    assert_eq!(machine.register(0xF), 1);
    assert!(machine.get_display().iter().all(|on| !*on));
}

#[test]
fn drawing_an_empty_sprite_never_collides() {
    // I = 0x300 (all zero), draw 5 rows twice
    let mut machine = machine_with(&[0xA3, 0x00, 0xD0, 0x05, 0xD0, 0x05]);
    run(&mut machine, 2);
    assert_eq!(machine.register(0xF), 0);
    run(&mut machine, 1);
    assert_eq!(machine.register(0xF), 0);
    assert!(lit_pixels(&machine).is_empty());
}

#[test]
fn drawing_zero_rows_draws_nothing() {
    let mut machine = machine_with(&[0x6F, 0x01, 0xA0, 0x00, 0xD0, 0x00]);
    run(&mut machine, 3);
    assert_eq!(machine.register(0xF), 0);
    assert!(lit_pixels(&machine).is_empty());
}

#[test]
fn drawing_partly_over_lit_pixels_flips_and_collides() {
    // glyph 0 at (0, 0), then glyph 1 at (0, 0)
    let mut machine = machine_with(&[0xA0, 0x00, 0xD0, 0x05, 0xA0, 0x05, 0xD0, 0x05]);
    run(&mut machine, 4);
    assert_eq!(machine.register(0xF), 1);
    // rows F0^20, 90^60, 90^20, 90^20, F0^70
    let expected = vec![
        (0, 0), (1, 0), (3, 0),
        (0, 1), (1, 1), (2, 1), (3, 1),
        (0, 2), (2, 2), (3, 2),
        (0, 3), (2, 3), (3, 3),
        (0, 4),
    ];
    assert_eq!(lit_pixels(&machine), expected);
}

#[test]
fn drawing_wraps_around_the_edges() {
    // V0 = 60, V1 = 30, I = 0x20A, draw 5 rows of 0xFF
    let mut machine = machine_with(&[
        0x60, 0x3C, 0x61, 0x1E, 0xA2, 0x0A, 0xD0, 0x15, 0x00, 0x00, 0xFF, 0xFF, 0xFF, 0xFF, 0xFF,
    ]);
    run(&mut machine, 4);
    assert_eq!(machine.register(0xF), 0);
    let mut expected = Vec::new();
    for y in [0usize, 1, 2, 30, 31] {
        for x in [0usize, 1, 2, 3, 60, 61, 62, 63] {
            expected.push((x, y));
        }
    }
    assert_eq!(lit_pixels(&machine), expected);
    assert_eq!(machine.get_display().len(), 2048);
}

#[test]
fn drawing_takes_coordinates_modulo_the_display() {
    // V0 = 64 + 2, V1 = 32 + 1, one row 0x80 at I = 0x208
    let mut machine = machine_with(&[0x60, 0x42, 0x61, 0x21, 0xA2, 0x08, 0xD0, 0x11, 0x80]);
    run(&mut machine, 4);
    assert_eq!(lit_pixels(&machine), vec![(2, 1)]);
}

#[test]
fn drawing_reads_coordinates_before_it_sets_the_flag() {
    // VF = 3 is the x coordinate; V1 = 0; one row 0x80 at I = 0x208
    let mut machine = machine_with(&[0x6F, 0x03, 0x61, 0x00, 0xA2, 0x08, 0xDF, 0x11, 0x80]);
    run(&mut machine, 4);
    assert_eq!(lit_pixels(&machine), vec![(3, 0)]);
    assert_eq!(machine.register(0xF), 0);
}

#[test]
fn wait_key_stalls_until_a_key_is_down() {
    let mut machine = machine_with(&[0xF3, 0x0A]);
    for _ in 0..5 {
        assert_eq!(machine.tick(), Ok(()));
        assert_eq!(machine.pc(), 0x200);
        assert_eq!(machine.register(3), 0);
    }
    machine.keypress(7, true);
    machine.keypress(4, true);
    machine.keypress(9, true);
    assert_eq!(machine.tick(), Ok(()));
    assert_eq!(machine.pc(), 0x202);
    assert_eq!(machine.register(3), 4);
}

#[test]
fn wait_key_sees_key_zero_and_key_fifteen() {
    let mut machine = machine_with(&[0xF3, 0x0A, 0xF4, 0x0A]);
    machine.keypress(15, true);
    run(&mut machine, 1);
    assert_eq!(machine.register(3), 15);
    machine.keypress(0, true);
    run(&mut machine, 1);
    assert_eq!(machine.register(4), 0);
    assert_eq!(machine.pc(), 0x204);
}

#[test]
fn released_key_no_longer_counts() {
    let mut machine = machine_with(&[0xF3, 0x0A]);
    machine.keypress(2, true);
    machine.keypress(2, false);
    run(&mut machine, 1);
    assert_eq!(machine.pc(), 0x200);
}

#[test]
fn skip_if_key_down_and_up() {
    // V0 = 5; skip if key V0 down; skip if key V0 up
    let program = [0x60, 0x05, 0xE0, 0x9E, 0xE0, 0xA1];
    let mut machine = machine_with(&program);
    run(&mut machine, 2);
    assert_eq!(machine.pc(), 0x204);
    run(&mut machine, 1);
    assert_eq!(machine.pc(), 0x208);
    let mut machine = machine_with(&program);
    machine.keypress(5, true);
    run(&mut machine, 2);
    assert_eq!(machine.pc(), 0x206);
}

#[test]
fn store_decimal_splits_156() {
    // V0 = 156, I = 0x300, store decimal
    let mut machine = machine_with(&[0x60, 0x9C, 0xA3, 0x00, 0xF0, 0x33]);
    run(&mut machine, 3);
    assert_eq!(machine.memory(0x300), 1);
    assert_eq!(machine.memory(0x301), 5);
    assert_eq!(machine.memory(0x302), 6);
    assert_eq!(machine.memory(0x303), 0);
    assert_eq!(machine.index(), 0x300);
}

#[test]
fn store_decimal_of_small_and_large_values() {
    let mut machine = machine_with(&[0x60, 0x07, 0xA3, 0x00, 0xF0, 0x33]);
    run(&mut machine, 3);
    assert_eq!(
        (machine.memory(0x300), machine.memory(0x301), machine.memory(0x302)),
        (0, 0, 7)
    );
    let mut machine = machine_with(&[0x60, 0xFF, 0xA3, 0x00, 0xF0, 0x33]);
    run(&mut machine, 3);
    assert_eq!(
        (machine.memory(0x300), machine.memory(0x301), machine.memory(0x302)),
        (2, 5, 5)
    );
}

#[test]
fn store_then_load_registers_round_trips() {
    let mut machine = machine_with(&[
        0x60, 0x11, 0x61, 0x22, 0x62, 0x33, 0x63, 0x44, 0x64, 0x55, // V0..V4
        0xA3, 0x00, 0xF3, 0x55, // store V0..V3 at 0x300
        0x60, 0x00, 0x61, 0x00, 0x62, 0x00, 0x63, 0x00, 0x64, 0x00, // clobber
        0xF3, 0x65, // load V0..V3
    ]);
    run(&mut machine, 7);
    assert_eq!(machine.memory(0x300), 0x11);
    assert_eq!(machine.memory(0x301), 0x22);
    assert_eq!(machine.memory(0x302), 0x33);
    assert_eq!(machine.memory(0x303), 0x44);
    assert_eq!(machine.memory(0x304), 0x00);
    assert_eq!(machine.index(), 0x300);
    run(&mut machine, 6);
    assert_eq!(machine.register(0), 0x11);
    assert_eq!(machine.register(1), 0x22);
    assert_eq!(machine.register(2), 0x33);
    assert_eq!(machine.register(3), 0x44);
    assert_eq!(machine.register(4), 0x00);
    assert_eq!(machine.index(), 0x300);
}

#[test]
fn load_registers_reads_the_font() {
    // I = 5 (glyph 1), load V0..V4
    let mut machine = machine_with(&[0xA0, 0x05, 0xF4, 0x65]);
    run(&mut machine, 2);
    for k in 0..5 {
        assert_eq!(machine.register(k), FONTSET[5 + k]);
    }
    assert_eq!(machine.register(5), 0);
}

#[test]
fn random_is_masked() {
    let mut machine = machine_with(&[0xC0, 0x0F, 0xC1, 0xF0, 0xC2, 0xFF]);
    assert_eq!(machine.tick_with(0xAB), Ok(()));
    assert_eq!(machine.register(0), 0x0B);
    assert_eq!(machine.tick_with(0xAB), Ok(()));
    assert_eq!(machine.register(1), 0xA0);
    assert_eq!(machine.tick_with(0xAB), Ok(()));
    assert_eq!(machine.register(2), 0xAB);
    assert_eq!(machine.register(0xF), 0);
    assert_eq!(machine.pc(), 0x206);
}

#[test]
fn random_from_the_generator_is_masked() {
    let mut program = Vec::new();
    for _ in 0..64 {
        program.extend_from_slice(&[0xC0, 0x00, 0xC1, 0x0F]);
    }
    let mut machine = machine_with(&program);
    for _ in 0..64 {
        run(&mut machine, 2);
        assert_eq!(machine.register(0), 0);
        assert!(machine.register(1) < 16);
    }
    assert_eq!(machine.pc(), 0x200 + 256);
}

#[test]
fn tick_with_ignores_the_byte_outside_random() {
    let mut first = machine_with(&[0x60, 0x05, 0x70, 0x03]);
    let mut second = machine_with(&[0x60, 0x05, 0x70, 0x03]);
    for _ in 0..2 {
        assert_eq!(first.tick_with(0x00), Ok(()));
        assert_eq!(second.tick_with(0xFF), Ok(()));
    }
    assert_eq!(first.register(0), 8);
    assert_eq!(second.register(0), 8);
    assert_eq!(first.pc(), second.pc());
}

#[test]
fn unknown_opcode_is_reported_and_leaves_the_machine_alone() {
    let mut machine = machine_with(&[0x60, 0x05, 0xFF, 0xFF]);
    run(&mut machine, 1);
    assert_eq!(machine.tick(), Err(Fault::UnknownOpcode { opcode: 0xFFFF }));
    assert_eq!(machine.pc(), 0x202);
    assert_eq!(machine.register(0), 5);
    assert_eq!(machine.tick(), Err(Fault::UnknownOpcode { opcode: 0xFFFF }));
}

#[test]
fn opcodes_outside_the_table_are_unknown() {
    for opcode in [0x0000u16, 0x00E1, 0x0123, 0x5AB1, 0x8AB8, 0x8ABF, 0x9AB1, 0xE19F, 0xE1A2, 0xF100, 0xF166] {
        let mut machine = machine_with(&opcode.to_be_bytes());
        assert_eq!(machine.tick(), Err(Fault::UnknownOpcode { opcode }));
        assert_eq!(machine.pc(), 0x200);
    }
}

// What a return without a call does, and a call with the stack full, is left
// open by the hardware. This machine stops with a fault in both cases.
#[test]
fn return_on_an_empty_stack_underflows() {
    let mut machine = machine_with(&[0x00, 0xEE]);
    assert_eq!(
        machine.tick(),
        Err(Fault::Trapped { opcode: 0x00EE, trap: Trap::StackUnderflow })
    );
    assert_eq!(machine.pc(), 0x200);
    assert_eq!(machine.stack_depth(), 0);
}

#[test]
fn seventeenth_nested_call_overflows() {
    // call 0x200, forever
    let mut machine = machine_with(&[0x22, 0x00]);
    run(&mut machine, 16);
    assert_eq!(machine.stack_depth(), 16);
    assert_eq!(
        machine.tick(),
        Err(Fault::Trapped { opcode: 0x2200, trap: Trap::StackOverflow })
    );
    assert_eq!(machine.stack_depth(), 16);
    assert_eq!(machine.pc(), 0x200);
}

#[test]
fn sixteen_calls_return_in_reverse() {
    // 0x200: call 0x204; 0x202: jump 0x202; 0x204: skip if V0 == 15; 0x206: jump 0x20A;
    // 0x208: return; 0x20A: V0 += 1; 0x20C: call 0x204; 0x20E: return
    let mut machine = machine_with(&[
        0x22, 0x04, 0x12, 0x02, 0x30, 0x0F, 0x12, 0x0A, 0x00, 0xEE, 0x70, 0x01, 0x22, 0x04, 0x00,
        0xEE,
    ]);
    let mut deepest = 0;
    for _ in 0..200 {
        assert_eq!(machine.tick(), Ok(()));
        if machine.stack_depth() > deepest {
            deepest = machine.stack_depth();
        }
    }
    assert_eq!(deepest, 16);
    assert_eq!(machine.stack_depth(), 0);
    assert_eq!(machine.pc(), 0x202);
    assert_eq!(machine.register(0), 15);
}

#[test]
fn memory_instructions_past_the_end_trap() {
    // I = 0xFFE, V0 = 1, store decimal needs 0xFFE..=0x1000
    let mut machine = machine_with(&[0xAF, 0xFE, 0x60, 0x01, 0xF0, 0x33]);
    run(&mut machine, 2);
    assert_eq!(
        machine.tick(),
        Err(Fault::Trapped { opcode: 0xF033, trap: Trap::MemoryOutOfBounds })
    );
    assert_eq!(machine.memory(0xFFE), 0);
    assert_eq!(machine.memory(0xFFF), 0);
    assert_eq!(machine.pc(), 0x204);

    // I = 0xFFF, store V0..V1
    let mut machine = machine_with(&[0xAF, 0xFF, 0x60, 0x09, 0xF1, 0x55]);
    run(&mut machine, 2);
    assert_eq!(
        machine.tick(),
        Err(Fault::Trapped { opcode: 0xF155, trap: Trap::MemoryOutOfBounds })
    );
    assert_eq!(machine.memory(0xFFF), 0);

    // I = 0xFFF, load V0..V1
    let mut machine = machine_with(&[0xAF, 0xFF, 0xF1, 0x65]);
    run(&mut machine, 1);
    assert_eq!(
        machine.tick(),
        Err(Fault::Trapped { opcode: 0xF165, trap: Trap::MemoryOutOfBounds })
    );

    // I = 0xFFF, draw two rows
    let mut machine = machine_with(&[0xAF, 0xFF, 0xD0, 0x02]);
    run(&mut machine, 1);
    assert_eq!(
        machine.tick(),
        Err(Fault::Trapped { opcode: 0xD002, trap: Trap::MemoryOutOfBounds })
    );
    assert!(lit_pixels(&machine).is_empty());
}

#[test]
fn memory_instructions_up_to_the_end_work() {
    // I = 0xFFD, V0 = 123, store decimal at 0xFFD..=0xFFF
    let mut machine = machine_with(&[0xAF, 0xFD, 0x60, 0x7B, 0xF0, 0x33]);
    run(&mut machine, 3);
    assert_eq!(
        (machine.memory(0xFFD), machine.memory(0xFFE), machine.memory(0xFFF)),
        (1, 2, 3)
    );
    // I = 0xFFF, V0 = 0x80, store V0, draw one row from 0xFFF
    let mut machine = machine_with(&[0xAF, 0xFF, 0x60, 0x80, 0xF0, 0x55, 0x60, 0x00, 0xD0, 0x01]);
    run(&mut machine, 5);
    assert_eq!(machine.memory(0xFFF), 0x80);
    assert_eq!(lit_pixels(&machine), vec![(0, 0)]);
}

#[test]
fn index_past_memory_traps() {
    // I = 0xFFF, V0 = 0xFF, I += V0 twice, then load V0
    let mut machine = machine_with(&[0xAF, 0xFF, 0x60, 0xFF, 0xF0, 0x1E, 0xF0, 0x1E, 0xF0, 0x65]);
    run(&mut machine, 4);
    assert_eq!(machine.index(), 0xFFF + 0xFF + 0xFF);
    assert_eq!(
        machine.tick(),
        Err(Fault::Trapped { opcode: 0xF065, trap: Trap::MemoryOutOfBounds })
    );
}

#[test]
fn add_index_wraps_at_sixteen_bits() {
    // V0 = 0xFF, I = 0xFFF, then I += V0 until it wraps past 0xFFFF
    let mut program = vec![0x60, 0xFF, 0xAF, 0xFF];
    for _ in 0..241 {
        program.extend_from_slice(&[0xF0, 0x1E]);
    }
    let mut machine = machine_with(&program);
    run(&mut machine, 2 + 241);
    assert_eq!(machine.index() as u32, (0xFFF + 241 * 0xFF) % 0x10000);
    assert_eq!(machine.index(), 14);
    assert_eq!(machine.register(0xF), 0);
}

#[test]
fn key_index_past_the_keypad_traps() {
    let mut machine = machine_with(&[0x60, 0x10, 0xE0, 0x9E]);
    run(&mut machine, 1);
    assert_eq!(
        machine.tick(),
        Err(Fault::Trapped { opcode: 0xE09E, trap: Trap::KeyOutOfRange })
    );
    assert_eq!(machine.pc(), 0x202);
    let mut machine = machine_with(&[0x60, 0xFF, 0xE0, 0xA1]);
    run(&mut machine, 1);
    assert_eq!(
        machine.tick(),
        Err(Fault::Trapped { opcode: 0xE0A1, trap: Trap::KeyOutOfRange })
    );
}

#[test]
fn fetch_past_memory_faults() {
    let mut machine = machine_with(&[0x1F, 0xFF]);
    run(&mut machine, 1);
    assert_eq!(machine.pc(), 0xFFF);
    assert_eq!(machine.tick(), Err(Fault::FetchOutOfBounds { pc: 0xFFF }));
    assert_eq!(machine.pc(), 0xFFF);
    // V0 = 0xFF, jump to V0 + 0xFFF
    let mut machine = machine_with(&[0x60, 0xFF, 0xBF, 0xFF]);
    run(&mut machine, 2);
    assert_eq!(machine.tick(), Err(Fault::FetchOutOfBounds { pc: 0x10FE }));
}

#[test]
fn last_instruction_of_memory_runs() {
    // jump to 0xFFE where the last two bytes of the program sit
    let mut program = vec![0u8; 4096 - 0x200];
    program[0] = 0x1F;
    program[1] = 0xFE;
    program[0xFFE - 0x200] = 0x6A;
    program[0xFFF - 0x200] = 0x42;
    let mut machine = machine_with(&program);
    run(&mut machine, 2);
    assert_eq!(machine.register(0xA), 0x42);
    assert_eq!(machine.pc(), 0x1000);
    assert_eq!(machine.tick(), Err(Fault::FetchOutOfBounds { pc: 0x1000 }));
}

#[test]
fn keypress_does_not_touch_the_rest() {
    let mut machine = Chip8::new();
    machine.keypress(0, true);
    machine.keypress(15, true);
    machine.keypress(15, false);
    assert_power_up_state(&machine);
}

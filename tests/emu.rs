use chip8_core::{Emu, SCREEN_HEIGHT, SCREEN_WIDTH};

fn machine_with(program: &[u8]) -> Emu {
    let mut emu = Emu::new();
    emu.load(program);
    emu
}

fn step(emu: &mut Emu) {
    assert!(emu.can_tick());
    emu.tick();
}

fn lit_count(emu: &Emu) -> usize {
    emu.get_display().iter().filter(|p| **p).count()
}

#[test]
fn add_scenario_sets_sum_without_carry() {
    let mut emu = machine_with(&[0x60, 0x05, 0x61, 0x0A, 0x80, 0x14]);
    for _ in 0..3 {
        step(&mut emu);
    }
    assert_eq!(emu.get_reg(0), 15);
    assert_eq!(emu.get_reg(0xF), 0);
    assert_eq!(emu.get_pc(), 0x206);
}

#[test]
fn set_index_scenario() {
    let mut emu = machine_with(&[0xA0, 0x00]);
    step(&mut emu);
    assert_eq!(emu.get_index(), 0x000);
}

#[test]
fn new_machine_state() {
    let emu = Emu::new();
    assert_eq!(emu.get_pc(), 0x200);
    assert_eq!(emu.get_index(), 0);
    assert_eq!(emu.get_sp(), 0);
    assert_eq!(emu.read_ram(0), 0xF0);
    assert_eq!(emu.read_ram(79), 0x80);
    assert_eq!(emu.read_ram(80), 0);
    assert_eq!(emu.get_display().len(), SCREEN_WIDTH * SCREEN_HEIGHT);
    assert_eq!(lit_count(&emu), 0);
}

#[test]
fn add_with_carry_wraps_and_flags() {
    let mut emu = machine_with(&[0x62, 200, 0x63, 100, 0x82, 0x34]);
    for _ in 0..3 {
        step(&mut emu);
    }
    assert_eq!(emu.get_reg(2), 44);
    assert_eq!(emu.get_reg(0xF), 1);
}

#[test]
fn add_exactly_256_carries() {
    let mut emu = machine_with(&[0x62, 128, 0x63, 128, 0x82, 0x34]);
    for _ in 0..3 {
        step(&mut emu);
    }
    assert_eq!(emu.get_reg(2), 0);
    assert_eq!(emu.get_reg(0xF), 1);
}

#[test]
fn sub_with_borrow() {
    let mut emu = machine_with(&[0x64, 5, 0x65, 10, 0x84, 0x55]);
    for _ in 0..3 {
        step(&mut emu);
    }
    assert_eq!(emu.get_reg(4), 251);
    assert_eq!(emu.get_reg(0xF), 0);
}

#[test]
fn sub_without_borrow() {
    let mut emu = machine_with(&[0x64, 10, 0x65, 10, 0x84, 0x55]);
    for _ in 0..3 {
        step(&mut emu);
    }
    assert_eq!(emu.get_reg(4), 0);
    assert_eq!(emu.get_reg(0xF), 1);
}

#[test]
fn reverse_sub_sets_flag() {
    let mut emu = machine_with(&[0x64, 3, 0x65, 10, 0x84, 0x57]);
    for _ in 0..3 {
        step(&mut emu);
    }
    assert_eq!(emu.get_reg(4), 7);
    assert_eq!(emu.get_reg(0xF), 1);
}

#[test]
fn shifts_put_lost_bit_in_flag_register() {
    let mut emu = machine_with(&[0x61, 0x83, 0x81, 0x06, 0x62, 0x81, 0x82, 0x0E]);
    step(&mut emu);
    step(&mut emu);
    assert_eq!(emu.get_reg(1), 0x41);
    assert_eq!(emu.get_reg(0xF), 1);
    step(&mut emu);
    step(&mut emu);
    assert_eq!(emu.get_reg(2), 0x02);
    assert_eq!(emu.get_reg(0xF), 1);
}

#[test]
fn logic_ops() {
    let mut emu = machine_with(&[
        0x61, 0x0C, 0x62, 0x0A, 0x83, 0x10, 0x83, 0x21, 0x84, 0x10, 0x84, 0x22, 0x85, 0x10,
        0x85, 0x23,
    ]);
    for _ in 0..8 {
        step(&mut emu);
    }
    assert_eq!(emu.get_reg(3), 0x0E);
    assert_eq!(emu.get_reg(4), 0x08);
    assert_eq!(emu.get_reg(5), 0x06);
}

#[test]
fn add_immediate_wraps_without_flag() {
    let mut emu = machine_with(&[0x6F, 7, 0x61, 250, 0x71, 10]);
    for _ in 0..3 {
        step(&mut emu);
    }
    assert_eq!(emu.get_reg(1), 4);
    assert_eq!(emu.get_reg(0xF), 7);
}

#[test]
fn clear_screen_blanks_every_pixel() {
    let mut emu = machine_with(&[0xA0, 0x00, 0xD0, 0x05, 0x00, 0xE0]);
    step(&mut emu);
    step(&mut emu);
    assert!(lit_count(&emu) > 0);
    step(&mut emu);
    assert!(emu.get_display().iter().all(|p| !*p));
}

#[test]
fn draw_twice_restores_screen_and_flags_collision() {
    let mut emu = machine_with(&[0xA0, 0x00, 0x61, 3, 0x62, 4, 0xD1, 0x25, 0xD1, 0x25]);
    for _ in 0..4 {
        step(&mut emu);
    }
    assert_eq!(emu.get_reg(0xF), 0);
    assert_eq!(lit_count(&emu), 14);
    let display = emu.get_display();
    assert!(display[3 + 64 * 4]);
    assert!(display[6 + 64 * 4]);
    assert!(!display[7 + 64 * 4]);
    assert!(!display[4 + 64 * 5]);
    step(&mut emu);
    assert_eq!(emu.get_reg(0xF), 1);
    assert_eq!(lit_count(&emu), 0);
}

#[test]
fn draw_wraps_around_both_edges() {
    let mut emu = machine_with(&[0xA0, 0x00, 0x61, 62, 0x62, 31, 0xD1, 0x22]);
    for _ in 0..4 {
        step(&mut emu);
    }
    let display = emu.get_display();
    assert!(display[62 + 64 * 31]);
    assert!(display[63 + 64 * 31]);
    assert!(display[0 + 64 * 31]);
    assert!(display[1 + 64 * 31]);
    assert!(display[62 + 64 * 0]);
    assert!(!display[63 + 64 * 0]);
    assert_eq!(lit_count(&emu), 6);
}

#[test]
fn call_then_return_resumes_after_call() {
    let mut emu = machine_with(&[0x22, 0x06, 0x00, 0x00, 0x00, 0x00, 0x00, 0xEE]);
    step(&mut emu);
    assert_eq!(emu.get_pc(), 0x206);
    assert_eq!(emu.get_sp(), 1);
    step(&mut emu);
    assert_eq!(emu.get_pc(), 0x202);
    assert_eq!(emu.get_sp(), 0);
}

#[test]
fn return_on_empty_stack_is_not_executable() {
    let emu = machine_with(&[0x00, 0xEE]);
    assert!(!emu.can_tick());
}

#[test]
fn unknown_opcode_is_not_executable() {
    let emu = machine_with(&[0x51, 0x21]);
    assert!(!emu.can_tick());
    let emu = machine_with(&[0x01, 0x23]);
    assert!(!emu.can_tick());
    let emu = machine_with(&[0xF1, 0x99]);
    assert!(!emu.can_tick());
}

#[test]
fn nop_only_advances() {
    let mut emu = machine_with(&[0x00, 0x00]);
    step(&mut emu);
    assert_eq!(emu.get_pc(), 0x202);
}

#[test]
fn jump_and_offset_jump() {
    let mut emu = machine_with(&[0x12, 0x04, 0x00, 0x00, 0x60, 0x10, 0xB3, 0x00]);
    step(&mut emu);
    assert_eq!(emu.get_pc(), 0x204);
    step(&mut emu);
    step(&mut emu);
    assert_eq!(emu.get_pc(), 0x310);
}

#[test]
fn skips_on_register_compare() {
    let mut emu = machine_with(&[0x61, 0x07, 0x31, 0x07]);
    step(&mut emu);
    step(&mut emu);
    assert_eq!(emu.get_pc(), 0x206);
    let mut emu = machine_with(&[0x61, 0x07, 0x41, 0x07]);
    step(&mut emu);
    step(&mut emu);
    assert_eq!(emu.get_pc(), 0x204);
    let mut emu = machine_with(&[0x61, 0x07, 0x62, 0x07, 0x51, 0x20, 0x00, 0x00, 0x91, 0x20]);
    for _ in 0..3 {
        step(&mut emu);
    }
    assert_eq!(emu.get_pc(), 0x208);
    step(&mut emu);
    assert_eq!(emu.get_pc(), 0x20A);
}

#[test]
fn key_skips() {
    let mut emu = machine_with(&[0x61, 0x04, 0xE1, 0x9E, 0x00, 0x00, 0xE1, 0xA1]);
    emu.keypress(4, true);
    step(&mut emu);
    step(&mut emu);
    assert_eq!(emu.get_pc(), 0x206);
    step(&mut emu);
    assert_eq!(emu.get_pc(), 0x208);
}

#[test]
fn key_wait_stalls_until_a_key_is_held() {
    let mut emu = machine_with(&[0xF3, 0x0A]);
    for _ in 0..3 {
        step(&mut emu);
        assert_eq!(emu.get_pc(), 0x200);
    }
    emu.keypress(9, true);
    emu.keypress(5, true);
    step(&mut emu);
    assert_eq!(emu.get_pc(), 0x202);
    assert_eq!(emu.get_reg(3), 5);
}

#[test]
fn timers_count_down_and_stop_at_zero() {
    let mut emu = machine_with(&[0x61, 0x02, 0xF1, 0x15, 0xF1, 0x18, 0xF2, 0x07]);
    step(&mut emu);
    step(&mut emu);
    step(&mut emu);
    assert_eq!(emu.get_delay_timer(), 2);
    assert_eq!(emu.get_sound_timer(), 2);
    emu.tick_timers();
    step(&mut emu);
    assert_eq!(emu.get_reg(2), 1);
    for _ in 0..5 {
        emu.tick_timers();
        assert_eq!(emu.get_delay_timer(), 0);
        assert_eq!(emu.get_sound_timer(), 0);
    }
}

#[test]
fn index_add_wraps_at_16_bits() {
    let mut emu = machine_with(&[0xAF, 0xFF, 0x61, 0xFF, 0xF1, 0x1E, 0x12, 0x04]);
    step(&mut emu);
    step(&mut emu);
    step(&mut emu);
    assert_eq!(emu.get_index(), 0xFFF + 0xFF);
    for _ in 0..240 {
        step(&mut emu);
        step(&mut emu);
    }
    assert_eq!(emu.get_index(), 14);
}

#[test]
fn font_glyph_address() {
    let mut emu = machine_with(&[0x61, 0x0B, 0xF1, 0x29]);
    step(&mut emu);
    step(&mut emu);
    assert_eq!(emu.get_index(), 55);
    assert_eq!(emu.read_ram(55), 0xE0);
}

#[test]
fn decimal_digits() {
    let mut emu = machine_with(&[0xA3, 0x00, 0x61, 254, 0xF1, 0x33]);
    for _ in 0..3 {
        step(&mut emu);
    }
    assert_eq!(emu.read_ram(0x300), 2);
    assert_eq!(emu.read_ram(0x301), 5);
    assert_eq!(emu.read_ram(0x302), 4);
}

#[test]
fn store_and_load_register_block() {
    let mut emu = machine_with(&[
        0x60, 1, 0x61, 2, 0x62, 3, 0x63, 4, 0xA3, 0x00, 0xF2, 0x55, 0x60, 0, 0x61, 0, 0x62, 0,
        0x63, 9, 0xF2, 0x65,
    ]);
    for _ in 0..6 {
        step(&mut emu);
    }
    assert_eq!(emu.read_ram(0x300), 1);
    assert_eq!(emu.read_ram(0x302), 3);
    assert_eq!(emu.read_ram(0x303), 0);
    for _ in 0..5 {
        step(&mut emu);
    }
    assert_eq!(emu.get_reg(0), 1);
    assert_eq!(emu.get_reg(1), 2);
    assert_eq!(emu.get_reg(2), 3);
    assert_eq!(emu.get_reg(3), 9);
}

#[test]
fn random_masked_by_zero_is_zero() {
    let mut emu = machine_with(&[0x61, 0xFF, 0xC1, 0x00, 0xC2, 0x0F]);
    for _ in 0..3 {
        step(&mut emu);
    }
    assert_eq!(emu.get_reg(1), 0);
    assert!(emu.get_reg(2) <= 0x0F);
}

#[test]
fn execute_masks_given_random_byte() {
    let mut emu = Emu::new();
    assert!(emu.can_execute(0xC13C));
    emu.execute(0xC13C, 0xA5);
    assert_eq!(emu.get_reg(1), 0x24);
}

#[test]
fn reset_discards_program_and_state() {
    let mut emu = machine_with(&[0x61, 0x09, 0xA1, 0x23]);
    step(&mut emu);
    step(&mut emu);
    emu.reset();
    assert_eq!(emu.get_pc(), 0x200);
    assert_eq!(emu.get_reg(1), 0);
    assert_eq!(emu.get_index(), 0);
    assert_eq!(emu.read_ram(0x200), 0);
    assert_eq!(emu.read_ram(0), 0xF0);
}

#[test]
fn load_fills_to_end_of_memory() {
    let data = vec![0xAB; 4096 - 0x200];
    let emu = machine_with(&data);
    assert_eq!(emu.read_ram(0x200), 0xAB);
    assert_eq!(emu.read_ram(4095), 0xAB);
    assert_eq!(emu.read_ram(0x1FF), 0);
}

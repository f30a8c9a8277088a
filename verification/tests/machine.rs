use chip8_core::Emu;
use chip8_core::SCREEN_HEIGHT;
use chip8_core::SCREEN_WIDTH;

fn boot(prog: &[u8]) -> Emu {
    let mut m = Emu::new();
    m.load(prog);
    m
}

#[test]
fn fresh_state_basics() {
    let m = Emu::new();
    assert_eq!(m.get_pc(), 0x200);
    assert_eq!(m.get_index_reg(), 0);
    assert_eq!(m.get_stack_pointer(), 0);
    assert_eq!(m.get_delay_timer(), 0);
    assert_eq!(m.get_sound_timer(), 0);
    for i in 0..16 {
        assert_eq!(m.get_register(i), 0);
        assert!(!m.get_key(i));
    }
    let d = m.get_display();
    assert_eq!(d.len(), SCREEN_WIDTH * SCREEN_HEIGHT);
    assert!(d.iter().all(|p| !*p));
    // the font table sits in the first 80 bytes
    assert_eq!(m.read_ram(0), 0xF0);
    assert_eq!(m.read_ram(79), 0x80);
    assert_eq!(m.read_ram(80), 0);
}

#[test]
fn load_places_program_at_base() {
    let m = boot(&[0xAB, 0xCD, 0xEF]);
    assert_eq!(m.read_ram(0x200), 0xAB);
    assert_eq!(m.read_ram(0x201), 0xCD);
    assert_eq!(m.read_ram(0x202), 0xEF);
    assert_eq!(m.read_ram(0x203), 0x00);
    // the font is untouched
    assert_eq!(m.read_ram(0), 0xF0);
}

#[test]
fn reset_matches_fresh_construction() {
    let mut m = boot(&[
        0x6A, 0x1C, // VA = 0x1C
        0x62, 0x30, // V2 = 0x30
        0xA2, 0x0E, // I = 0x20E
        0x22, 0x0A, // call 0x20A
        0x00, 0x00, // (skipped by the call)
        0xD0, 0x21, // draw 1 row at (V0, V2)
        0xF2, 0x15, // delay timer = V2
        0xFF, // sprite row
    ]);
    for _ in 0..6 {
        m.tick();
    }
    m.keypress(3, true);
    m.timer_tick();
    m.reset();

    let fresh = Emu::new();
    assert_eq!(m.get_pc(), fresh.get_pc());
    assert_eq!(m.get_index_reg(), fresh.get_index_reg());
    assert_eq!(m.get_stack_pointer(), fresh.get_stack_pointer());
    assert_eq!(m.get_delay_timer(), fresh.get_delay_timer());
    assert_eq!(m.get_sound_timer(), fresh.get_sound_timer());
    for i in 0..16 {
        assert_eq!(m.get_register(i), fresh.get_register(i));
        assert_eq!(m.get_key(i), fresh.get_key(i));
        assert_eq!(m.read_stack(i), fresh.read_stack(i));
    }
    for a in 0..4096 {
        assert_eq!(m.read_ram(a), fresh.read_ram(a));
    }
    assert_eq!(m.get_display(), fresh.get_display());
}

#[test]
fn jump_sets_pc() {
    let mut m = boot(&[0x12, 0x28]);
    m.tick();
    assert_eq!(m.get_pc(), 0x228);
}

#[test]
fn jump_with_offset() {
    let mut m = boot(&[0x60, 0x10, 0xB3, 0x00]);
    m.tick();
    m.tick();
    assert_eq!(m.get_pc(), 0x310);
}

#[test]
fn call_and_return() {
    let mut m = boot(&[
        0x22, 0x04, // call 0x204
        0x00, 0x00, //
        0x00, 0xEE, // return
    ]);
    m.tick();
    assert_eq!(m.get_pc(), 0x204);
    assert_eq!(m.get_stack_pointer(), 1);
    assert_eq!(m.read_stack(0), 0x202);
    m.tick();
    assert_eq!(m.get_pc(), 0x202);
    assert_eq!(m.get_stack_pointer(), 0);
}

#[test]
fn skip_if_equal_immediate() {
    let mut m = boot(&[0x30, 0x00]);
    m.tick();
    assert_eq!(m.get_pc(), 0x204);

    let mut m2 = boot(&[0x30, 0x01]);
    m2.tick();
    assert_eq!(m2.get_pc(), 0x202);
}

#[test]
fn skip_if_not_equal_immediate() {
    let mut m = boot(&[0x40, 0x01]);
    m.tick();
    assert_eq!(m.get_pc(), 0x204);

    let mut m2 = boot(&[0x40, 0x00]);
    m2.tick();
    assert_eq!(m2.get_pc(), 0x202);
}

#[test]
fn skip_on_register_compare() {
    // V0 == V1 (both zero): 5XY0 skips
    let mut m = boot(&[0x50, 0x10]);
    m.tick();
    assert_eq!(m.get_pc(), 0x204);

    // V0 != V1: 9XY0 skips
    let mut m2 = boot(&[0x60, 0x01, 0x90, 0x10]);
    m2.tick();
    m2.tick();
    assert_eq!(m2.get_pc(), 0x206);
}

#[test]
fn set_and_copy_registers() {
    let mut m = boot(&[0x6B, 0x2A, 0x8C, 0xB0]);
    m.tick();
    m.tick();
    assert_eq!(m.get_register(0xB), 0x2A);
    assert_eq!(m.get_register(0xC), 0x2A);
}

#[test]
fn add_immediate_wraps_without_flag() {
    let mut m = boot(&[0x60, 0xFF, 0x70, 0x02]);
    m.tick();
    m.tick();
    assert_eq!(m.get_register(0), 0x01);
    assert_eq!(m.get_register(0xF), 0x00);
}

#[test]
fn bitwise_or_and_xor() {
    let mut m = boot(&[0x60, 0x0C, 0x61, 0x0A, 0x80, 0x11]);
    m.tick();
    m.tick();
    m.tick();
    assert_eq!(m.get_register(0), 0x0E);

    let mut m2 = boot(&[0x60, 0x0C, 0x61, 0x0A, 0x80, 0x12]);
    m2.tick();
    m2.tick();
    m2.tick();
    assert_eq!(m2.get_register(0), 0x08);

    let mut m3 = boot(&[0x60, 0x0C, 0x61, 0x0A, 0x80, 0x13]);
    m3.tick();
    m3.tick();
    m3.tick();
    assert_eq!(m3.get_register(0), 0x06);
}

#[test]
fn add_registers_overflow_sets_flag() {
    let mut m = boot(&[0x60, 0xFF, 0x61, 0x01, 0x80, 0x14]);
    m.tick();
    m.tick();
    m.tick();
    assert_eq!(m.get_register(0), 0x00);
    assert_eq!(m.get_register(0xF), 1);
}

#[test]
fn add_registers_without_overflow_clears_flag() {
    let mut m = boot(&[0x60, 0x10, 0x61, 0x01, 0x80, 0x14]);
    m.tick();
    m.tick();
    m.tick();
    assert_eq!(m.get_register(0), 0x11);
    assert_eq!(m.get_register(0xF), 0);
}

#[test]
fn sub_registers_borrow_clears_flag() {
    let mut m = boot(&[0x60, 0x01, 0x61, 0x02, 0x80, 0x15]);
    m.tick();
    m.tick();
    m.tick();
    assert_eq!(m.get_register(0), 0xFF);
    assert_eq!(m.get_register(0xF), 0);
}

#[test]
fn sub_registers_without_borrow_sets_flag() {
    let mut m = boot(&[0x60, 0x05, 0x61, 0x02, 0x80, 0x15]);
    m.tick();
    m.tick();
    m.tick();
    assert_eq!(m.get_register(0), 0x03);
    assert_eq!(m.get_register(0xF), 1);
}

#[test]
fn reverse_sub_registers() {
    let mut m = boot(&[0x60, 0x02, 0x61, 0x07, 0x80, 0x17]);
    m.tick();
    m.tick();
    m.tick();
    assert_eq!(m.get_register(0), 0x05);
    assert_eq!(m.get_register(0xF), 1);
}

#[test]
fn shift_right_keeps_low_bit_in_flag() {
    let mut m = boot(&[0x60, 0x03, 0x80, 0x06]);
    m.tick();
    m.tick();
    assert_eq!(m.get_register(0), 0x01);
    assert_eq!(m.get_register(0xF), 1);
}

#[test]
fn shift_left_flag_takes_whole_pre_shift_value() {
    // The machine masks the pre-shift value with 0xFF instead of extracting
    // the top bit, so the flag register receives the whole old value.
    let mut m = boot(&[0x60, 0x81, 0x80, 0x08]);
    m.tick();
    m.tick();
    assert_eq!(m.get_register(0), 0x02);
    assert_eq!(m.get_register(0xF), 0x81);
}

#[test]
fn random_byte_is_masked() {
    let mut m = boot(&[0xC0, 0x0F]);
    m.tick();
    assert_eq!(m.get_register(0) & 0xF0, 0);

    let mut m2 = boot(&[0xC1, 0x00]);
    m2.tick();
    assert_eq!(m2.get_register(1), 0);
}

#[test]
fn timer_floor_stays_at_zero() {
    let mut m = Emu::new();
    assert_eq!(m.get_delay_timer(), 0);
    m.timer_tick();
    assert_eq!(m.get_delay_timer(), 0);
    assert_eq!(m.get_sound_timer(), 0);
}

#[test]
fn timers_count_down_by_one() {
    let mut m = boot(&[0x60, 0x05, 0xF0, 0x15, 0xF0, 0x18]);
    m.tick();
    m.tick();
    m.tick();
    assert_eq!(m.get_delay_timer(), 5);
    assert_eq!(m.get_sound_timer(), 5);
    m.timer_tick();
    assert_eq!(m.get_delay_timer(), 4);
    assert_eq!(m.get_sound_timer(), 4);
}

#[test]
fn can_tick_detects_fatal_conditions() {
    let m = Emu::new();
    // fresh memory holds 0x0000, the no-op
    assert!(m.can_tick());

    let mut bad = Emu::new();
    bad.load(&[0xFF, 0x00]); // not an opcode of the machine
    assert!(!bad.can_tick());

    let mut ret = Emu::new();
    ret.load(&[0x00, 0xEE]); // return with an empty stack
    assert!(!ret.can_tick());

    // calls that nest past the stack capacity
    let mut deep = Emu::new();
    deep.load(&[0x22, 0x00]); // call 0x200, over and over
    for _ in 0..16 {
        assert!(deep.can_tick());
        deep.tick();
    }
    assert!(!deep.can_tick());

    let mut draw = Emu::new();
    draw.load(&[0xAF, 0xFF, 0xD0, 0x15]); // I = 0xFFF, then a 5-row draw
    draw.tick();
    assert!(!draw.can_tick());
}

#[test]
fn read_delay_timer_into_register() {
    let mut m = boot(&[0x60, 0x09, 0xF0, 0x15, 0xF1, 0x07]);
    m.tick();
    m.tick();
    m.tick();
    assert_eq!(m.get_register(1), 9);
}

use chip8_core::Emu;
use chip8_core::SCREEN_WIDTH;

fn boot(prog: &[u8]) -> Emu {
    let mut m = Emu::new();
    m.load(prog);
    m
}

#[test]
fn draw_sets_pixels_and_clear_screen_wipes_them() {
    let mut m = boot(&[
        0xA2, 0x08, // I = 0x208
        0xD0, 0x11, // draw 1 row at (V0, V1) = (0, 0)
        0x00, 0xE0, // clear screen
        0x00, 0x00, //
        0xA5, // sprite row 1010_0101
    ]);
    m.tick();
    m.tick();
    let d = m.get_display();
    assert!(d[0] && !d[1] && d[2] && !d[3] && !d[4] && d[5] && !d[6] && d[7]);
    assert_eq!(m.get_register(0xF), 0);
    m.tick();
    assert!(m.get_display().iter().all(|p| !*p));
}

#[test]
fn draw_same_sprite_twice_toggles_pixel_off() {
    let mut m = boot(&[
        0xA2, 0x08, // I = 0x208
        0xD0, 0x11, // draw 1 row, 1 bit wide, at (0, 0)
        0xD0, 0x11, // the same draw again
        0x00, 0x00, //
        0x80, // sprite row: one bit, leftmost column
    ]);
    m.tick();
    m.tick();
    assert!(m.get_display()[0]);
    assert_eq!(m.get_register(0xF), 0);
    m.tick();
    // the second draw XORs the pixel off; it was on before the draw, so the
    // collision flag is set (the flag reflects the pre-toggle state of each
    // touched pixel, OR'd over the whole draw)
    assert!(!m.get_display()[0]);
    assert_eq!(m.get_register(0xF), 1);
}

#[test]
fn draw_wraps_at_the_right_edge() {
    let mut m = boot(&[
        0x60, 0x3F, // V0 = 63
        0xA2, 0x08, // I = 0x208
        0xD0, 0x11, // draw 1 row at (63, 0)
        0x00, 0x00, //
        0xFF, // sprite row: all eight bits
    ]);
    m.tick();
    m.tick();
    m.tick();
    let d = m.get_display();
    assert!(d[63]);
    for col in 0..7 {
        assert!(d[col], "column {col} should wrap on");
    }
    for col in 7..63 {
        assert!(!d[col], "column {col} should stay off");
    }
    // nothing lands on the next row
    for col in 0..SCREEN_WIDTH {
        assert!(!d[SCREEN_WIDTH + col]);
    }
    assert_eq!(m.get_register(0xF), 0);
}

#[test]
fn draw_wraps_at_the_bottom_edge() {
    let mut m = boot(&[
        0x61, 0x1F, // V1 = 31
        0xA2, 0x08, // I = 0x208
        0xD0, 0x12, // draw 2 rows at (0, 31)
        0x00, 0x00, //
        0x80, 0x80, // two one-bit rows
    ]);
    m.tick();
    m.tick();
    m.tick();
    let d = m.get_display();
    assert!(d[31 * SCREEN_WIDTH]); // row 31
    assert!(d[0]); // wrapped onto row 0
    assert_eq!(m.get_register(0xF), 0);
}

#[test]
fn key_wait_blocks_until_a_key_arrives() {
    let mut m = boot(&[0xF0, 0x0A]);
    m.tick();
    assert_eq!(m.get_pc(), 0x200);
    m.tick();
    assert_eq!(m.get_pc(), 0x200);
    m.keypress(5, true);
    m.tick();
    assert_eq!(m.get_pc(), 0x202);
    assert_eq!(m.get_register(0), 5);
}

#[test]
fn key_wait_takes_the_lowest_pressed_key() {
    let mut m = boot(&[0xF3, 0x0A]);
    m.keypress(0xC, true);
    m.keypress(0x7, true);
    m.tick();
    assert_eq!(m.get_register(3), 0x7);
    assert_eq!(m.get_pc(), 0x202);
}

#[test]
fn skip_if_key_pressed() {
    let mut m = boot(&[0x60, 0x05, 0xE0, 0x9E]);
    m.keypress(5, true);
    m.tick();
    m.tick();
    assert_eq!(m.get_pc(), 0x206);

    let mut m2 = boot(&[0x60, 0x05, 0xE0, 0x9E]);
    m2.tick();
    m2.tick();
    assert_eq!(m2.get_pc(), 0x204);
}

#[test]
fn skip_if_key_not_pressed() {
    let mut m = boot(&[0x60, 0x05, 0xE0, 0xA1]);
    m.tick();
    m.tick();
    assert_eq!(m.get_pc(), 0x206);

    let mut m2 = boot(&[0x60, 0x05, 0xE0, 0xA1]);
    m2.keypress(5, true);
    m2.tick();
    m2.tick();
    assert_eq!(m2.get_pc(), 0x204);
}

#[test]
fn keypress_can_be_released() {
    let mut m = Emu::new();
    m.keypress(9, true);
    assert!(m.get_key(9));
    m.keypress(9, false);
    assert!(!m.get_key(9));
}

#[test]
fn index_register_add_and_font_lookup() {
    let mut m = boot(&[0xA0, 0x10, 0x60, 0x05, 0xF0, 0x1E]);
    m.tick();
    assert_eq!(m.get_index_reg(), 0x010);
    m.tick();
    m.tick();
    assert_eq!(m.get_index_reg(), 0x015);

    // glyph address of digit 0xA is 10 * 5
    let mut m2 = boot(&[0x60, 0x0A, 0xF0, 0x29]);
    m2.tick();
    m2.tick();
    assert_eq!(m2.get_index_reg(), 50);
}

#[test]
fn binary_coded_decimal() {
    let mut m = boot(&[0x60, 0x7B, 0xA3, 0x00, 0xF0, 0x33]);
    m.tick();
    m.tick();
    m.tick();
    assert_eq!(m.read_ram(0x300), 1);
    assert_eq!(m.read_ram(0x301), 2);
    assert_eq!(m.read_ram(0x302), 3);

    let mut m2 = boot(&[0x60, 0x07, 0xA3, 0x00, 0xF0, 0x33]);
    m2.tick();
    m2.tick();
    m2.tick();
    assert_eq!(m2.read_ram(0x300), 0);
    assert_eq!(m2.read_ram(0x301), 0);
    assert_eq!(m2.read_ram(0x302), 7);
}

#[test]
fn draw_with_zero_rows_touches_nothing_and_clears_flag() {
    let mut m = boot(&[
        0x6F, 0x01, // VF = 1
        0xD0, 0x10, // draw 0 rows
    ]);
    m.tick();
    m.tick();
    assert!(m.get_display().iter().all(|p| !*p));
    assert_eq!(m.get_register(0xF), 0);
}

#[test]
fn index_register_add_wraps() {
    let mut m = boot(&[
        0xAF, 0xFF, // I = 0xFFF
        0x60, 0xFF, // V0 = 0xFF
        0xF0, 0x1E, // I += V0
        0x12, 0x04, // jump back to the add
    ]);
    m.tick();
    m.tick();
    // each loop pass is one add and one jump; 241 adds carry I past 0xFFFF
    for _ in 0..241 {
        m.tick();
        m.tick();
    }
    // 0xFFF + 241 * 0xFF = 0x1000E, wrapped to 16 bits
    assert_eq!(m.get_index_reg(), 0x000E);
}

#[test]
fn binary_coded_decimal_at_maximum() {
    let mut m = boot(&[0x60, 0xFF, 0xA3, 0x00, 0xF0, 0x33]);
    m.tick();
    m.tick();
    m.tick();
    assert_eq!(m.read_ram(0x300), 2);
    assert_eq!(m.read_ram(0x301), 5);
    assert_eq!(m.read_ram(0x302), 5);
}

#[test]
fn store_registers_excludes_register_x() {
    // FX55 writes registers 0 through X-1 only: register X stays out.
    let mut m = boot(&[
        0x60, 0x07, // V0 = 7
        0x61, 0x08, // V1 = 8
        0x62, 0x09, // V2 = 9
        0xA3, 0x00, // I = 0x300
        0xF2, 0x55, // store V0..V2 (exclusive)
    ]);
    for _ in 0..5 {
        m.tick();
    }
    assert_eq!(m.read_ram(0x300), 7);
    assert_eq!(m.read_ram(0x301), 8);
    assert_eq!(m.read_ram(0x302), 0);
}

#[test]
fn load_registers_excludes_register_x() {
    // FX65 fills registers 0 through X-1 only: register X stays out.
    let mut m = boot(&[
        0xA2, 0x0C, // I = 0x20C
        0xF3, 0x65, // load V0..V3 (exclusive)
        0x00, 0x00, 0x00, 0x00, 0x00, 0x00, 0x00, 0x00, //
        0x0B, 0x16, 0x21, 0x2C, // data at 0x20C
    ]);
    m.tick();
    m.tick();
    assert_eq!(m.get_register(0), 0x0B);
    assert_eq!(m.get_register(1), 0x16);
    assert_eq!(m.get_register(2), 0x21);
    assert_eq!(m.get_register(3), 0x00);
}

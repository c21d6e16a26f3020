use chip8_core::Emulator;
use chip8_core::SCREEN_WIDTH;

fn run(prog: &[u8], ticks: usize) -> Emulator {
    let mut emu = Emulator::new();
    emu.load(prog);
    for _ in 0..ticks {
        emu.tick();
    }
    emu
}

#[test]
fn jump_sets_program_counter() {
    let emu = run(&[0x12, 0x34], 1);
    assert_eq!(emu.pc, 0x234);
}

#[test]
fn jump_offset_adds_v0() {
    // V0 := 4, then jump to 0x230 + V0.
    let emu = run(&[0x60, 0x04, 0xB2, 0x30], 2);
    assert_eq!(emu.pc, 0x234);
}

#[test]
fn call_pushes_and_ret_pops() {
    let mut emu = Emulator::new();
    emu.load(&[0x22, 0x08, 0x00, 0x00, 0x00, 0x00, 0x00, 0x00, 0x00, 0xEE]);
    emu.tick();
    assert_eq!(emu.pc, 0x208);
    assert_eq!(emu.sp, 1);
    assert_eq!(emu.stack[0], 0x202);
    emu.tick();
    assert_eq!(emu.pc, 0x202);
    assert_eq!(emu.sp, 0);
}

#[test]
fn skip_equal_immediate_advances_by_four() {
    // V0 is 0, so 0x3000 skips: 2 for the fetch plus 2 for the skip.
    let emu = run(&[0x30, 0x00], 1);
    assert_eq!(emu.pc, 0x204);
}

#[test]
fn skip_equal_immediate_advances_by_two_when_unequal() {
    let emu = run(&[0x30, 0x01], 1);
    assert_eq!(emu.pc, 0x202);
}

#[test]
fn skip_not_equal_immediate() {
    let emu = run(&[0x40, 0x01], 1);
    assert_eq!(emu.pc, 0x204);
    let emu = run(&[0x40, 0x00], 1);
    assert_eq!(emu.pc, 0x202);
}

#[test]
fn skip_on_register_comparison() {
    // V0 == V1 == 0: 0x5010 skips, 0x9010 does not.
    let emu = run(&[0x50, 0x10], 1);
    assert_eq!(emu.pc, 0x204);
    let emu = run(&[0x90, 0x10], 1);
    assert_eq!(emu.pc, 0x202);
    // V0 := 1 makes them differ.
    let emu = run(&[0x60, 0x01, 0x50, 0x10], 2);
    assert_eq!(emu.pc, 0x204);
    let emu = run(&[0x60, 0x01, 0x90, 0x10], 2);
    assert_eq!(emu.pc, 0x206);
}

#[test]
fn skip_on_key_state() {
    let mut emu = Emulator::new();
    emu.load(&[0x60, 0x05, 0xE0, 0x9E]);
    emu.keypress(5, true);
    emu.tick();
    emu.tick();
    assert_eq!(emu.pc, 0x206);

    let mut emu = Emulator::new();
    emu.load(&[0x60, 0x05, 0xE0, 0xA1]);
    emu.tick();
    emu.tick();
    assert_eq!(emu.pc, 0x206);

    let mut emu = Emulator::new();
    emu.load(&[0x60, 0x05, 0xE0, 0x9E]);
    emu.tick();
    emu.tick();
    assert_eq!(emu.pc, 0x204);
}

#[test]
fn set_and_copy_registers() {
    let emu = run(&[0x60, 0x2A, 0x81, 0x00], 2);
    assert_eq!(emu.v_regs[0], 0x2A);
    assert_eq!(emu.v_regs[1], 0x2A);
}

#[test]
fn add_immediate_wraps_without_flag() {
    // 250 + 16 wraps to 10; VF is untouched.
    let emu = run(&[0x60, 0xFA, 0x70, 0x10], 2);
    assert_eq!(emu.v_regs[0], 10);
    assert_eq!(emu.v_regs[0xF], 0);
}

#[test]
fn bitwise_or_and_xor() {
    let emu = run(&[0x60, 0x0C, 0x61, 0x0A, 0x80, 0x11], 3);
    assert_eq!(emu.v_regs[0], 0x0E);
    let emu = run(&[0x60, 0x0C, 0x61, 0x0A, 0x80, 0x12], 3);
    assert_eq!(emu.v_regs[0], 0x08);
    let emu = run(&[0x60, 0x0C, 0x61, 0x0A, 0x80, 0x13], 3);
    assert_eq!(emu.v_regs[0], 0x06);
}

#[test]
fn add_registers_sets_carry_exactly_on_overflow() {
    // 200 + 100 = 300 > 255: wrapped sum 44, VF = 1.
    let emu = run(&[0x60, 0xC8, 0x61, 0x64, 0x80, 0x14], 3);
    assert_eq!(emu.v_regs[0], 44);
    assert_eq!(emu.v_regs[0xF], 1);
    // 200 + 55 = 255: no overflow, VF = 0.
    let emu = run(&[0x60, 0xC8, 0x61, 0x37, 0x80, 0x14], 3);
    assert_eq!(emu.v_regs[0], 255);
    assert_eq!(emu.v_regs[0xF], 0);
}

#[test]
fn sub_registers_clears_flag_exactly_on_borrow() {
    // 5 - 10 borrows: wrapped difference 251, VF = 0.
    let emu = run(&[0x60, 0x05, 0x61, 0x0A, 0x80, 0x15], 3);
    assert_eq!(emu.v_regs[0], 251);
    assert_eq!(emu.v_regs[0xF], 0);
    // 10 - 5 = 5: no borrow, VF = 1.
    let emu = run(&[0x60, 0x0A, 0x61, 0x05, 0x80, 0x15], 3);
    assert_eq!(emu.v_regs[0], 5);
    assert_eq!(emu.v_regs[0xF], 1);
}

#[test]
fn sub_reversed_uses_vy_minus_vx() {
    // V0 := V1 - V0 = 10 - 5: VF = 1.
    let emu = run(&[0x60, 0x05, 0x61, 0x0A, 0x80, 0x17], 3);
    assert_eq!(emu.v_regs[0], 5);
    assert_eq!(emu.v_regs[0xF], 1);
    // V0 := V1 - V0 = 5 - 10 borrows: VF = 0.
    let emu = run(&[0x60, 0x0A, 0x61, 0x05, 0x80, 0x17], 3);
    assert_eq!(emu.v_regs[0], 251);
    assert_eq!(emu.v_regs[0xF], 0);
}

#[test]
fn shift_right_captures_low_bit() {
    let emu = run(&[0x60, 0x05, 0x80, 0x06], 2);
    assert_eq!(emu.v_regs[0], 2);
    assert_eq!(emu.v_regs[0xF], 1);
    let emu = run(&[0x60, 0x04, 0x80, 0x06], 2);
    assert_eq!(emu.v_regs[0], 2);
    assert_eq!(emu.v_regs[0xF], 0);
}

#[test]
fn shift_left_captures_high_bit() {
    let emu = run(&[0x60, 0x81, 0x80, 0x0E], 2);
    assert_eq!(emu.v_regs[0], 0x02);
    assert_eq!(emu.v_regs[0xF], 1);
    let emu = run(&[0x60, 0x40, 0x80, 0x0E], 2);
    assert_eq!(emu.v_regs[0], 0x80);
    assert_eq!(emu.v_regs[0xF], 0);
}

#[test]
fn set_and_add_address_register() {
    let emu = run(&[0xA1, 0x23], 1);
    assert_eq!(emu.i_reg, 0x123);
    let emu = run(&[0xA1, 0x00, 0x60, 0x05, 0xF0, 0x1E], 3);
    assert_eq!(emu.i_reg, 0x105);
}

#[test]
fn read_delay_timer_into_register() {
    // DT := 7 via V0, then V1 := DT.
    let emu = run(&[0x60, 0x07, 0xF0, 0x15, 0xF1, 0x07], 3);
    assert_eq!(emu.v_regs[1], 7);
}

#[test]
fn font_address_is_five_bytes_per_glyph() {
    let emu = run(&[0x60, 0x0A, 0xF0, 0x29], 2);
    assert_eq!(emu.i_reg, 50);
}

#[test]
fn bcd_decomposes_decimal_digits() {
    let emu = run(&[0x60, 0xFE, 0xA3, 0x00, 0xF0, 0x33], 3);
    assert_eq!(emu.ram[0x300], 2);
    assert_eq!(emu.ram[0x301], 5);
    assert_eq!(emu.ram[0x302], 4);
}

#[test]
fn store_and_load_register_range() {
    let emu = run(
        &[
            0x60, 0x05, // V0 := 5
            0x61, 0x03, // V1 := 3
            0xA3, 0x00, // I := 0x300
            0xF1, 0x55, // store V0..V1
            0x60, 0x00, // V0 := 0
            0x61, 0x00, // V1 := 0
            0xF1, 0x65, // load V0..V1
        ],
        7,
    );
    assert_eq!(emu.ram[0x300], 5);
    assert_eq!(emu.ram[0x301], 3);
    assert_eq!(emu.ram[0x302], 0);
    assert_eq!(emu.v_regs[0], 5);
    assert_eq!(emu.v_regs[1], 3);
}

#[test]
fn draw_wraps_columns_around_screen_width() {
    // An eight-pixel row drawn at x = 60 lights columns 60..63 then 0..3.
    let emu = run(
        &[
            0x60, 0x3C, // V0 := 60
            0x61, 0x00, // V1 := 0
            0xA2, 0x0A, // I := 0x20A
            0xD0, 0x11, // draw 1 row at (V0, V1)
            0x00, 0x00, // padding
            0xFF, // sprite row
        ],
        4,
    );
    let display = emu.get_display();
    for x in 0..SCREEN_WIDTH {
        let expected = (60..64).contains(&x) || x < 4;
        assert_eq!(display[x], expected);
    }
    assert_eq!(emu.v_regs[0xF], 0);
}

#[test]
fn drawing_twice_clears_sprite_and_collides() {
    let prog = [
        0xA2, 0x0A, // I := 0x20A
        0xD0, 0x15, // draw 5 rows at (0, 0)
        0xD0, 0x15, // draw the same sprite again
        0x00, 0x00, // padding
        0x00, 0x00, // padding
        0xF0, 0x90, 0x90, 0x90, 0xF0, // sprite
    ];
    let mut emu = Emulator::new();
    emu.load(&prog);
    emu.tick();
    emu.tick();
    assert_eq!(emu.v_regs[0xF], 0);
    assert!(emu.get_display().iter().any(|&p| p));
    emu.tick();
    assert_eq!(emu.v_regs[0xF], 1);
    assert!(emu.get_display().iter().all(|&p| !p));
}

#[test]
fn draw_with_zero_rows_draws_nothing() {
    let emu = run(&[0xA2, 0x00, 0xD0, 0x00], 2);
    assert!(emu.get_display().iter().all(|&p| !p));
    assert_eq!(emu.v_regs[0xF], 0);
}

#[test]
fn draw_wraps_rows_around_screen_height() {
    // Three rows drawn at y = 30 land on rows 30, 31 and 0.
    let emu = run(
        &[
            0x61, 0x1E, // V1 := 30
            0xA2, 0x08, // I := 0x208
            0xD0, 0x13, // draw 3 rows at (V0, V1) = (0, 30)
            0x00, 0x00, // padding
            0x80, 0x80, 0x80, // sprite: leftmost pixel of each row
        ],
        3,
    );
    let display = emu.get_display();
    assert!(display[30 * SCREEN_WIDTH]);
    assert!(display[31 * SCREEN_WIDTH]);
    assert!(display[0]);
    assert!(!display[1 * SCREEN_WIDTH]);
}

#[test]
fn clear_screen_turns_every_pixel_off() {
    let emu = run(
        &[0xA2, 0x08, 0xD0, 0x13, 0x00, 0xE0, 0x00, 0x00, 0xFF, 0xFF, 0xFF],
        3,
    );
    assert!(emu.get_display().iter().all(|&p| !p));
}

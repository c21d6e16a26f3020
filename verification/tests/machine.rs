use chip8_core::Emulator;
use chip8_core::SCREEN_HEIGHT;
use chip8_core::SCREEN_WIDTH;

fn run(prog: &[u8], ticks: usize) -> Emulator {
    let mut emu = Emulator::new();
    emu.load(prog);
    for _ in 0..ticks {
        emu.tick();
    }
    emu
}

#[test]
fn new_starts_in_initial_state() {
    let emu = Emulator::new();
    assert_eq!(emu.pc, 0x200);
    assert_eq!(emu.i_reg, 0);
    assert_eq!(emu.sp, 0);
    assert_eq!(emu.dt, 0);
    assert_eq!(emu.st, 0);
    // The glyph atlas is preloaded: glyph 0 starts 0xF0 0x90, glyph 1 with 0x20.
    assert_eq!(emu.ram[0], 0xF0);
    assert_eq!(emu.ram[1], 0x90);
    assert_eq!(emu.ram[5], 0x20);
    assert_eq!(emu.ram[79], 0x80);
    for j in 80..4096 {
        assert_eq!(emu.ram[j], 0);
    }
    assert!(emu.get_display().iter().all(|p| !p));
    assert!(emu.v_regs.iter().all(|&v| v == 0));
    assert!(emu.keys.iter().all(|&k| !k));
}

#[test]
fn reset_equals_fresh_machine() {
    let mut emu = Emulator::new();
    emu.load(&[0x60, 0x2A, 0x61, 0x07, 0x80, 0x14, 0xA2, 0x00, 0xD0, 0x15]);
    for _ in 0..5 {
        emu.tick();
    }
    emu.keypress(3, true);
    emu.tick_timers();
    emu.reset();
    assert_eq!(emu, Emulator::new());
}

#[test]
fn load_places_image_at_start_address() {
    let mut emu = Emulator::new();
    emu.load(&[0xAB, 0xCD, 0xEF]);
    assert_eq!(emu.ram[0x200], 0xAB);
    assert_eq!(emu.ram[0x201], 0xCD);
    assert_eq!(emu.ram[0x202], 0xEF);
    assert_eq!(emu.ram[0x203], 0x00);
}

#[test]
fn load_fills_memory_to_the_last_byte() {
    let mut emu = Emulator::new();
    let image = vec![0x77u8; 4096 - 0x200];
    emu.load(&image);
    assert_eq!(emu.ram[0x200], 0x77);
    assert_eq!(emu.ram[0xFFF], 0x77);
    assert_eq!(emu.ram[0x1FF], 0x00);
}

#[test]
fn keypress_sets_and_clears_keys() {
    let mut emu = Emulator::new();
    emu.keypress(4, true);
    assert!(emu.keys[4]);
    assert!(!emu.keys[5]);
    emu.keypress(4, false);
    assert!(!emu.keys[4]);
}

#[test]
fn get_display_has_one_flag_per_pixel() {
    let emu = Emulator::new();
    assert_eq!(emu.get_display().len(), SCREEN_WIDTH * SCREEN_HEIGHT);
}

#[test]
fn timers_decrement_and_stop_at_zero() {
    // V0 := 5, DT := V0, ST := V0.
    let mut emu = run(&[0x60, 0x05, 0xF0, 0x15, 0xF0, 0x18], 3);
    assert_eq!(emu.dt, 5);
    assert_eq!(emu.st, 5);
    for _ in 0..5 {
        emu.tick_timers();
    }
    assert_eq!(emu.dt, 0);
    assert_eq!(emu.st, 0);
    // The floor: arbitrarily many further ticks never underflow.
    for _ in 0..300 {
        emu.tick_timers();
        assert_eq!(emu.dt, 0);
        assert_eq!(emu.st, 0);
    }
}

#[test]
fn play_sound_fires_exactly_at_one() {
    // V0 := 2, ST := V0.
    let mut emu = run(&[0x60, 0x02, 0xF0, 0x18], 2);
    assert_eq!(emu.st, 2);
    assert!(!emu.play_sound());
    emu.tick_timers();
    assert_eq!(emu.st, 1);
    assert!(emu.play_sound());
    emu.tick_timers();
    assert_eq!(emu.st, 0);
    assert!(!emu.play_sound());
}

#[test]
fn block_on_key_reexecutes_until_a_key_arrives() {
    let mut emu = Emulator::new();
    emu.load(&[0xF0, 0x0A]);
    emu.tick();
    assert_eq!(emu.pc, 0x200);
    emu.tick();
    assert_eq!(emu.pc, 0x200);
    emu.keypress(5, true);
    emu.tick();
    assert_eq!(emu.pc, 0x202);
    assert_eq!(emu.v_regs[0], 5);
}

#[test]
fn block_on_key_takes_lowest_pressed_key() {
    let mut emu = Emulator::new();
    emu.load(&[0xF0, 0x0A]);
    emu.keypress(9, true);
    emu.keypress(2, true);
    emu.tick();
    assert_eq!(emu.v_regs[0], 2);
}

#[test]
fn scenario_add_registers() {
    // V0 := 5, V1 := 3, V0 += V1.
    let emu = run(&[0x60, 0x05, 0x61, 0x03, 0x80, 0x14], 3);
    assert_eq!(emu.v_regs[0], 8);
    assert_eq!(emu.v_regs[0xF], 0);
}

#[test]
fn scenario_draw_own_program_bytes() {
    // I := 0x200, draw 5 rows at (V0, V0) = (0, 0): the sprite is the
    // program itself, rows A2 00 D0 05 00.
    let mut emu = Emulator::new();
    emu.load(&[0xA2, 0x00, 0xD0, 0x05]);
    emu.tick();
    emu.tick();
    let rows: [u8; 5] = [0xA2, 0x00, 0xD0, 0x05, 0x00];
    let display = emu.get_display();
    for (y, row) in rows.iter().enumerate() {
        for x in 0..8 {
            let expected = row & (0x80 >> x) != 0;
            assert_eq!(display[y * SCREEN_WIDTH + x], expected);
        }
    }
    assert_eq!(emu.v_regs[0xF], 0);
}

#[test]
fn random_byte_is_masked_by_operand() {
    // V0 := random & 0x00 is always zero; V1 := random & 0x0F fits a nibble.
    let emu = run(&[0x60, 0xFF, 0xC0, 0x00, 0xC1, 0x0F], 3);
    assert_eq!(emu.v_regs[0], 0);
    assert!(emu.v_regs[1] <= 0x0F);
}

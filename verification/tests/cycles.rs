//! Whole fetch-decode-execute cycles and the sprite compositor.

use chip8::state::{Chip8Error, ChipContext};

fn machine_with_opcode(op: u16) -> ChipContext {
    let mut chip = ChipContext::new();
    chip.memory[0x200] = (op >> 8) as u8;
    chip.memory[0x201] = (op & 0xFF) as u8;
    chip.pc = 0x200;
    chip
}

#[test]
fn test_cycle_clear_screen() {
    let mut chip = machine_with_opcode(0x00E0);
    chip.framebuffer[0] = true;
    chip.framebuffer[77] = true;
    chip.framebuffer[2047] = true;
    assert_eq!(chip8::cycle::cycle(&mut chip), Ok(()));
    assert!(chip.framebuffer.iter().all(|&p| !p));
    assert_eq!(chip.pc, 0x202);
}

#[test]
fn test_cycle_load_byte() {
    let mut chip = machine_with_opcode(0x6A05);
    assert_eq!(chip8::cycle::cycle(&mut chip), Ok(()));
    assert_eq!(chip.v[0xA], 5);
    assert_eq!(chip.pc, 0x202);
}

#[test]
fn test_cycle_font_address_for_glyph_zero() {
    let mut chip = ChipContext::new();
    chip.load_font();
    chip.memory[0x200] = 0xA2;
    chip.memory[0x201] = 0x34;
    chip.memory[0x202] = 0xF0;
    chip.memory[0x203] = 0x29;
    chip.pc = 0x200;
    assert_eq!(chip8::cycle::cycle(&mut chip), Ok(()));
    assert_eq!(chip.i, 0x234);
    assert_eq!(chip8::cycle::cycle(&mut chip), Ok(()));
    // V0 = 0: I points at the font base, where glyph 0 lives
    assert_eq!(chip.i, 0x50);
    assert_eq!(&chip.memory[0x50..0x55], &[0xF0, 0x90, 0x90, 0x90, 0xF0]);
}

#[test]
fn test_cycle_unknown_opcode_is_fatal() {
    let mut chip = machine_with_opcode(0xFFFF);
    assert_eq!(
        chip8::cycle::cycle(&mut chip),
        Err(Chip8Error::UnknownOpcode(0xFFFF))
    );
    // the counter stays past the faulting opcode
    assert_eq!(chip.pc, 0x202);
}

#[test]
fn test_cycle_fetch_past_memory() {
    let mut chip = ChipContext::new();
    chip.pc = 4095;
    assert_eq!(
        chip8::cycle::cycle(&mut chip),
        Err(Chip8Error::OutOfBoundsAccess)
    );
    assert_eq!(chip.pc, 4095);
}

#[test]
fn test_cycle_await_key_busy_waits() {
    let mut chip = machine_with_opcode(0xF30A);
    assert_eq!(chip8::cycle::cycle(&mut chip), Ok(()));
    // no key: the counter is back on the same instruction
    assert_eq!(chip.pc, 0x200);
    chip.keyboard[0xC] = true;
    assert_eq!(chip8::cycle::cycle(&mut chip), Ok(()));
    assert_eq!(chip.pc, 0x202);
    assert_eq!(chip.v[3], 0xC);
}

#[test]
fn test_cycle_random_masked() {
    let mut chip = machine_with_opcode(0xC503);
    assert_eq!(chip8::cycle::cycle(&mut chip), Ok(()));
    assert!(chip.v[5] <= 3);
    assert_eq!(chip.pc, 0x202);
}

#[test]
fn test_draw_glyph_pattern() {
    let mut chip = ChipContext::new();
    chip.load_font();
    chip.i = 0x50;
    assert_eq!(chip8::draw::draw(&mut chip, 0, 1, 5), Ok(()));
    assert_eq!(chip.v[0xF], 0);
    // glyph 0: rows F0 90 90 90 F0 at the top-left corner
    let want = [
        [true, true, true, true],
        [true, false, false, true],
        [true, false, false, true],
        [true, false, false, true],
        [true, true, true, true],
    ];
    for y in 0..5 {
        for x in 0..4 {
            assert_eq!(chip.get_pixel(x, y), want[y][x], "pixel ({}, {})", x, y);
        }
        assert!(!chip.get_pixel(4, y));
    }
}

#[test]
fn test_draw_twice_restores_screen() {
    let mut chip = ChipContext::new();
    chip.load_font();
    chip.i = 0x50;
    chip.framebuffer[5 * 32 + 7] = true;
    let before: Vec<bool> = chip.framebuffer.clone();
    assert_eq!(chip8::draw::draw(&mut chip, 0, 1, 5), Ok(()));
    assert_ne!(chip.framebuffer, before);
    assert_eq!(chip.v[0xF], 0);
    assert_eq!(chip8::draw::draw(&mut chip, 0, 1, 5), Ok(()));
    // XOR compositing undoes itself; the second pass hit its own pixels
    assert_eq!(chip.framebuffer, before);
    assert_eq!(chip.v[0xF], 1);
}

#[test]
fn test_draw_collision_flag() {
    let mut chip = ChipContext::new();
    chip.memory[0x300] = 0x80;
    chip.i = 0x300;
    chip.framebuffer[0] = true;
    assert_eq!(chip8::draw::draw(&mut chip, 0, 1, 1), Ok(()));
    // the sprite's set bit lands on a set pixel: cleared, flagged
    assert!(!chip.get_pixel(0, 0));
    assert_eq!(chip.v[0xF], 1);
}

#[test]
fn test_draw_wraps_both_axes() {
    let mut chip = ChipContext::new();
    chip.memory[0x300] = 0xFF;
    chip.memory[0x301] = 0xFF;
    chip.i = 0x300;
    chip.v[0] = 62;
    chip.v[1] = 31;
    assert_eq!(chip8::draw::draw(&mut chip, 0, 1, 2), Ok(()));
    // columns wrap 62..63 then 0..5; rows wrap 31 then 0
    for x in [62usize, 63, 0, 1, 2, 3, 4, 5] {
        assert!(chip.get_pixel(x, 31), "column {} row 31", x);
        assert!(chip.get_pixel(x, 0), "column {} row 0", x);
        assert!(!chip.get_pixel(x, 1), "column {} row 1", x);
    }
    assert!(!chip.get_pixel(6, 31));
    assert!(!chip.get_pixel(61, 0));
    assert_eq!(chip.v[0xF], 0);
}

#[test]
fn test_draw_coordinates_reduce_modulo_screen() {
    let mut chip = ChipContext::new();
    chip.memory[0x300] = 0x80;
    chip.i = 0x300;
    chip.v[0] = 64;
    chip.v[1] = 32;
    assert_eq!(chip8::draw::draw(&mut chip, 0, 1, 1), Ok(()));
    assert!(chip.get_pixel(0, 0));
}

#[test]
fn test_draw_sprite_read_out_of_bounds() {
    let mut chip = ChipContext::new();
    chip.i = 4095;
    assert_eq!(
        chip8::draw::draw(&mut chip, 0, 1, 2),
        Err(Chip8Error::OutOfBoundsAccess)
    );
    assert!(chip.framebuffer.iter().all(|&p| !p));
    assert_eq!(chip8::draw::draw(&mut chip, 0, 1, 1), Ok(()));
}

#[test]
fn test_draw_zero_rows_only_clears_flag() {
    let mut chip = ChipContext::new();
    chip.v[0xF] = 1;
    chip.i = 4096;
    assert_eq!(chip8::draw::draw(&mut chip, 0, 1, 0), Ok(()));
    assert_eq!(chip.v[0xF], 0);
    assert!(chip.framebuffer.iter().all(|&p| !p));
}

#[test]
fn test_cycle_program_counts_down() {
    // a five-instruction program: V0 = 3, then a loop that decrements
    // V0 and jumps back while V0 != 0
    let mut chip = ChipContext::new();
    let rom = vec![
        0x60, 0x03, // LD V0, 3
        0x30, 0x00, // SE V0, 0
        0x12, 0x08, // JP 0x208
        0x12, 0x06, // JP 0x206 (halt: jump to itself)
        0x70, 0xFF, // ADD V0, 255  (wraps: V0 - 1)
        0x12, 0x02, // JP 0x202
    ];
    assert_eq!(chip.load_rom(&rom), Ok(()));
    let mut steps = 0;
    while chip.pc != 0x206 && steps < 100 {
        assert_eq!(chip8::cycle::cycle(&mut chip), Ok(()));
        steps += 1;
    }
    assert_eq!(chip.v[0], 0);
    assert_eq!(chip.pc, 0x206);
}

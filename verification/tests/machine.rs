//! Machine construction, font and ROM loading, and the decoder.

use chip8::decode::{decode, Instruction};
use chip8::state::{Chip8Error, ChipContext};

#[test]
fn test_new_machine_is_zeroed() {
    let chip = ChipContext::new();
    assert!(chip.memory.iter().all(|&b| b == 0));
    assert!(chip.v.iter().all(|&b| b == 0));
    assert!(chip.stack.iter().all(|&w| w == 0));
    assert!(chip.framebuffer.iter().all(|&p| !p));
    assert!(chip.keyboard.iter().all(|&k| !k));
    assert_eq!(chip.memory.len(), 4096);
    assert_eq!(chip.v.len(), 16);
    assert_eq!(chip.stack.len(), 16);
    assert_eq!(chip.framebuffer.len(), 2048);
    assert_eq!(chip.keyboard.len(), 16);
    assert_eq!((chip.pc, chip.sp, chip.i, chip.dt, chip.st), (0, 0, 0, 0, 0));
}

#[test]
fn test_load_font_writes_glyphs() {
    let mut chip = ChipContext::new();
    chip.load_font();
    // glyph 0 starts the table, glyph F ends it
    assert_eq!(&chip.memory[0x50..0x55], &[0xF0, 0x90, 0x90, 0x90, 0xF0]);
    assert_eq!(&chip.memory[0x9B..0xA0], &[0xF0, 0x80, 0xF0, 0x80, 0x80]);
    assert_eq!(chip.memory[0x4F], 0);
    assert_eq!(chip.memory[0xA0], 0);
}

#[test]
fn test_load_rom_copies_and_sets_pc() {
    let mut chip = ChipContext::new();
    let rom = vec![0x12, 0x34, 0x56];
    assert_eq!(chip.load_rom(&rom), Ok(()));
    assert_eq!(&chip.memory[0x200..0x203], &[0x12, 0x34, 0x56]);
    assert_eq!(chip.memory[0x203], 0);
    assert_eq!(chip.pc, 0x200);
}

#[test]
fn test_load_rom_rejects_oversize() {
    let mut chip = ChipContext::new();
    let rom = vec![0xAB; 3585];
    assert_eq!(chip.load_rom(&rom), Err(Chip8Error::OutOfBoundsAccess));
    assert_eq!(chip.pc, 0);
    assert!(chip.memory.iter().all(|&b| b == 0));
}

#[test]
fn test_load_rom_accepts_largest() {
    let mut chip = ChipContext::new();
    let rom = vec![0xAB; 3584];
    assert_eq!(chip.load_rom(&rom), Ok(()));
    assert_eq!(chip.memory[4095], 0xAB);
}

#[test]
fn test_decode_screen_and_flow() {
    assert_eq!(decode(0x00E0), Ok(Instruction::Cls));
    assert_eq!(decode(0x00EE), Ok(Instruction::Ret));
    assert_eq!(decode(0x0000), Ok(Instruction::Nop));
    assert_eq!(decode(0x0100), Ok(Instruction::Nop));
    assert_eq!(decode(0x1234), Ok(Instruction::Jp { nnn: 0x234 }));
    assert_eq!(decode(0x2ABC), Ok(Instruction::Call { nnn: 0xABC }));
    assert_eq!(decode(0xB123), Ok(Instruction::JpV0 { nnn: 0x123 }));
}

#[test]
fn test_decode_immediates() {
    assert_eq!(decode(0x3A42), Ok(Instruction::SeByte { x: 0xA, kk: 0x42 }));
    assert_eq!(decode(0x4A42), Ok(Instruction::SneByte { x: 0xA, kk: 0x42 }));
    assert_eq!(decode(0x5AB0), Ok(Instruction::SeReg { x: 0xA, y: 0xB }));
    assert_eq!(decode(0x6A05), Ok(Instruction::LdByte { x: 0xA, kk: 5 }));
    assert_eq!(decode(0x7A05), Ok(Instruction::AddByte { x: 0xA, kk: 5 }));
    assert_eq!(decode(0x9AB0), Ok(Instruction::SneReg { x: 0xA, y: 0xB }));
    assert_eq!(decode(0xA234), Ok(Instruction::LdI { nnn: 0x234 }));
    assert_eq!(decode(0xC599), Ok(Instruction::Rnd { x: 5, kk: 0x99 }));
    assert_eq!(decode(0xD123), Ok(Instruction::Drw { x: 1, y: 2, n: 3 }));
}

#[test]
fn test_decode_register_ops() {
    assert_eq!(decode(0x8120), Ok(Instruction::LdReg { x: 1, y: 2 }));
    assert_eq!(decode(0x8121), Ok(Instruction::Or { x: 1, y: 2 }));
    assert_eq!(decode(0x8122), Ok(Instruction::And { x: 1, y: 2 }));
    assert_eq!(decode(0x8123), Ok(Instruction::Xor { x: 1, y: 2 }));
    assert_eq!(decode(0x8124), Ok(Instruction::AddReg { x: 1, y: 2 }));
    assert_eq!(decode(0x8125), Ok(Instruction::Sub { x: 1, y: 2 }));
    assert_eq!(decode(0x8126), Ok(Instruction::Shr { x: 1, y: 2 }));
    assert_eq!(decode(0x8127), Ok(Instruction::Subn { x: 1, y: 2 }));
    assert_eq!(decode(0x812E), Ok(Instruction::Shl { x: 1, y: 2 }));
}

#[test]
fn test_decode_key_and_misc() {
    assert_eq!(decode(0xE29E), Ok(Instruction::Skp { x: 2 }));
    assert_eq!(decode(0xE2A1), Ok(Instruction::Sknp { x: 2 }));
    assert_eq!(decode(0xF207), Ok(Instruction::LdVxDt { x: 2 }));
    assert_eq!(decode(0xF20A), Ok(Instruction::LdKey { x: 2 }));
    assert_eq!(decode(0xF215), Ok(Instruction::LdDtVx { x: 2 }));
    assert_eq!(decode(0xF218), Ok(Instruction::LdStVx { x: 2 }));
    assert_eq!(decode(0xF21E), Ok(Instruction::AddIVx { x: 2 }));
    assert_eq!(decode(0xF229), Ok(Instruction::LdFVx { x: 2 }));
    assert_eq!(decode(0xF233), Ok(Instruction::LdBVx { x: 2 }));
    assert_eq!(decode(0xF255), Ok(Instruction::StRegs { x: 2 }));
    assert_eq!(decode(0xF265), Ok(Instruction::LdRegs { x: 2 }));
}

#[test]
fn test_decode_unknown_opcodes() {
    assert_eq!(decode(0x0012), Err(Chip8Error::UnknownOpcode(0x0012)));
    assert_eq!(decode(0x8128), Err(Chip8Error::UnknownOpcode(0x8128)));
    assert_eq!(decode(0xE2FF), Err(Chip8Error::UnknownOpcode(0xE2FF)));
    assert_eq!(decode(0xF2FF), Err(Chip8Error::UnknownOpcode(0xF2FF)));
    assert_eq!(decode(0x00FF), Err(Chip8Error::UnknownOpcode(0x00FF)));
}

#[test]
fn test_fetch_reads_big_endian_and_advances() {
    let mut chip = ChipContext::new();
    chip.memory[0x200] = 0x6A;
    chip.memory[0x201] = 0x05;
    chip.pc = 0x200;
    assert_eq!(chip8::cycle::fetch(&mut chip), Ok(0x6A05));
    assert_eq!(chip.pc, 0x202);
}

#[test]
fn test_fetch_out_of_bounds() {
    let mut chip = ChipContext::new();
    chip.pc = 4095;
    assert_eq!(
        chip8::cycle::fetch(&mut chip),
        Err(Chip8Error::OutOfBoundsAccess)
    );
    assert_eq!(chip.pc, 4095);
    chip.pc = 4094;
    assert_eq!(chip8::cycle::fetch(&mut chip), Ok(0));
    assert_eq!(chip.pc, 4096);
}

#[test]
fn test_get_pixel_reads_grid() {
    let mut chip = ChipContext::new();
    chip.framebuffer[10 * 32 + 3] = true;
    assert!(chip.get_pixel(10, 3));
    assert!(!chip.get_pixel(3, 10));
}

//! The decoder: a pure, total function from a 16-bit opcode to a
//! structured instruction, or `UnknownOpcode` when no case matches.

use vstd::prelude::*;
use crate::state::Chip8Error;

verus! {

/// One decoded CHIP-8 instruction. Field conventions follow the opcode
/// layout: `x` and `y` are register indices taken from the middle
/// nibbles, `n` is the low nibble, `kk` the low byte and `nnn` the low
/// twelve bits.
#[derive(Clone, Copy, Debug, PartialEq, Eq, Structural)]
pub enum Instruction {
    /// `0x0kk` with `kk` zero: machine routine call, ignored.
    Nop,
    /// `00E0`: clear the screen.
    Cls,
    /// `00EE`: return from a subroutine.
    Ret,
    /// `1nnn`: jump to `nnn`.
    Jp { nnn: u16 },
    /// `2nnn`: call the subroutine at `nnn`.
    Call { nnn: u16 },
    /// `3xkk`: skip the next instruction if `Vx == kk`.
    SeByte { x: u8, kk: u8 },
    /// `4xkk`: skip the next instruction if `Vx != kk`.
    SneByte { x: u8, kk: u8 },
    /// `5xy0`: skip the next instruction if `Vx == Vy`.
    SeReg { x: u8, y: u8 },
    /// `6xkk`: set `Vx = kk`.
    LdByte { x: u8, kk: u8 },
    /// `7xkk`: set `Vx = Vx + kk`, wrapping, flag untouched.
    AddByte { x: u8, kk: u8 },
    /// `8xy0`: set `Vx = Vy`.
    LdReg { x: u8, y: u8 },
    /// `8xy1`: set `Vx = Vx | Vy`.
    Or { x: u8, y: u8 },
    /// `8xy2`: set `Vx = Vx & Vy`.
    And { x: u8, y: u8 },
    /// `8xy3`: set `Vx = Vx ^ Vy`.
    Xor { x: u8, y: u8 },
    /// `8xy4`: set `Vx = Vx + Vy` wrapping, `VF` = carry.
    AddReg { x: u8, y: u8 },
    /// `8xy5`: set `Vx = Vx - Vy` wrapping, `VF` = no-borrow.
    Sub { x: u8, y: u8 },
    /// `8xy6`: shift `Vx` right by one, `VF` = pre-shift low bit.
    Shr { x: u8, y: u8 },
    /// `8xy7`: set `Vx = Vy - Vx` wrapping, `VF` = no-borrow.
    Subn { x: u8, y: u8 },
    /// `8xyE`: shift `Vx` left by one, `VF` = pre-shift high bit.
    Shl { x: u8, y: u8 },
    /// `9xy0`: skip the next instruction if `Vx != Vy`.
    SneReg { x: u8, y: u8 },
    /// `Annn`: set `I = nnn`.
    LdI { nnn: u16 },
    /// `Bnnn`: jump to `nnn + V0`.
    JpV0 { nnn: u16 },
    /// `Cxkk`: set `Vx` to a random byte masked with `kk`.
    Rnd { x: u8, kk: u8 },
    /// `Dxyn`: draw the `n`-row sprite at memory `I` to `(Vx, Vy)`.
    Drw { x: u8, y: u8, n: u8 },
    /// `Ex9E`: skip the next instruction if key `Vx` is pressed.
    Skp { x: u8 },
    /// `ExA1`: skip the next instruction if key `Vx` is not pressed.
    Sknp { x: u8 },
    /// `Fx07`: set `Vx` to the delay timer.
    LdVxDt { x: u8 },
    /// `Fx0A`: await a key press and store it in `Vx`.
    LdKey { x: u8 },
    /// `Fx15`: set the delay timer to `Vx`.
    LdDtVx { x: u8 },
    /// `Fx18`: set the sound timer to `Vx`.
    LdStVx { x: u8 },
    /// `Fx1E`: set `I = I + Vx`, wrapping.
    AddIVx { x: u8 },
    /// `Fx29`: point `I` at the font glyph for the digit `Vx`.
    LdFVx { x: u8 },
    /// `Fx33`: store the decimal digits of `Vx` at `I`, `I+1`, `I+2`.
    LdBVx { x: u8 },
    /// `Fx55`: store `V0..=Vx` to memory starting at `I`.
    StRegs { x: u8 },
    /// `Fx65`: load `V0..=Vx` from memory starting at `I`.
    LdRegs { x: u8 },
}

/// The `x` field: the high nibble of the low byte.
pub open spec fn op_x(op: u16) -> u8 {
    ((op >> 8) & 0xF) as u8
}

/// The `y` field: the low nibble of the high byte of the low twelve bits.
pub open spec fn op_y(op: u16) -> u8 {
    ((op >> 4) & 0xF) as u8
}

/// The `n` field: the low nibble.
pub open spec fn op_n(op: u16) -> u8 {
    (op & 0xF) as u8
}

/// The `kk` field: the low byte.
pub open spec fn op_kk(op: u16) -> u8 {
    (op & 0xFF) as u8
}

/// The `nnn` field: the low twelve bits.
pub open spec fn op_nnn(op: u16) -> u16 {
    op & 0xFFF
}

/// What `decode` returns on every opcode: exactly one instruction
/// variant, or `UnknownOpcode` when no case of the set matches.
pub open spec fn spec_decode(op: u16) -> Result<Instruction, Chip8Error> {
    let x = op_x(op);
    let y = op_y(op);
    let n = op_n(op);
    let kk = op_kk(op);
    let nnn = op_nnn(op);
    match op >> 12 {
        0x0 => match kk {
            0x00 => Ok(Instruction::Nop),
            0xE0 => Ok(Instruction::Cls),
            0xEE => Ok(Instruction::Ret),
            _ => Err(Chip8Error::UnknownOpcode(op)),
        },
        0x1 => Ok(Instruction::Jp { nnn }),
        0x2 => Ok(Instruction::Call { nnn }),
        0x3 => Ok(Instruction::SeByte { x, kk }),
        0x4 => Ok(Instruction::SneByte { x, kk }),
        0x5 => Ok(Instruction::SeReg { x, y }),
        0x6 => Ok(Instruction::LdByte { x, kk }),
        0x7 => Ok(Instruction::AddByte { x, kk }),
        0x8 => match n {
            0x0 => Ok(Instruction::LdReg { x, y }),
            0x1 => Ok(Instruction::Or { x, y }),
            0x2 => Ok(Instruction::And { x, y }),
            0x3 => Ok(Instruction::Xor { x, y }),
            0x4 => Ok(Instruction::AddReg { x, y }),
            0x5 => Ok(Instruction::Sub { x, y }),
            0x6 => Ok(Instruction::Shr { x, y }),
            0x7 => Ok(Instruction::Subn { x, y }),
            0xE => Ok(Instruction::Shl { x, y }),
            _ => Err(Chip8Error::UnknownOpcode(op)),
        },
        0x9 => Ok(Instruction::SneReg { x, y }),
        0xA => Ok(Instruction::LdI { nnn }),
        0xB => Ok(Instruction::JpV0 { nnn }),
        0xC => Ok(Instruction::Rnd { x, kk }),
        0xD => Ok(Instruction::Drw { x, y, n }),
        0xE => match kk {
            0x9E => Ok(Instruction::Skp { x }),
            0xA1 => Ok(Instruction::Sknp { x }),
            _ => Err(Chip8Error::UnknownOpcode(op)),
        },
        0xF => match kk {
            0x07 => Ok(Instruction::LdVxDt { x }),
            0x0A => Ok(Instruction::LdKey { x }),
            0x15 => Ok(Instruction::LdDtVx { x }),
            0x18 => Ok(Instruction::LdStVx { x }),
            0x1E => Ok(Instruction::AddIVx { x }),
            0x29 => Ok(Instruction::LdFVx { x }),
            0x33 => Ok(Instruction::LdBVx { x }),
            0x55 => Ok(Instruction::StRegs { x }),
            0x65 => Ok(Instruction::LdRegs { x }),
            _ => Err(Chip8Error::UnknownOpcode(op)),
        },
        _ => Err(Chip8Error::UnknownOpcode(op)),
    }
}

/// Every field of a decoded instruction respects its opcode field width:
/// register indices and `n` are nibbles, addresses are twelve bits.
pub open spec fn instr_wf(instr: Instruction) -> bool {
    match instr {
        Instruction::Nop => true,
        Instruction::Cls => true,
        Instruction::Ret => true,
        Instruction::Jp { nnn } => nnn < 0x1000,
        Instruction::Call { nnn } => nnn < 0x1000,
        Instruction::SeByte { x, kk } => x < 16,
        Instruction::SneByte { x, kk } => x < 16,
        Instruction::SeReg { x, y } => x < 16 && y < 16,
        Instruction::LdByte { x, kk } => x < 16,
        Instruction::AddByte { x, kk } => x < 16,
        Instruction::LdReg { x, y } => x < 16 && y < 16,
        Instruction::Or { x, y } => x < 16 && y < 16,
        Instruction::And { x, y } => x < 16 && y < 16,
        Instruction::Xor { x, y } => x < 16 && y < 16,
        Instruction::AddReg { x, y } => x < 16 && y < 16,
        Instruction::Sub { x, y } => x < 16 && y < 16,
        Instruction::Shr { x, y } => x < 16 && y < 16,
        Instruction::Subn { x, y } => x < 16 && y < 16,
        Instruction::Shl { x, y } => x < 16 && y < 16,
        Instruction::SneReg { x, y } => x < 16 && y < 16,
        Instruction::LdI { nnn } => nnn < 0x1000,
        Instruction::JpV0 { nnn } => nnn < 0x1000,
        Instruction::Rnd { x, kk } => x < 16,
        Instruction::Drw { x, y, n } => x < 16 && y < 16 && n < 16,
        Instruction::Skp { x } => x < 16,
        Instruction::Sknp { x } => x < 16,
        Instruction::LdVxDt { x } => x < 16,
        Instruction::LdKey { x } => x < 16,
        Instruction::LdDtVx { x } => x < 16,
        Instruction::LdStVx { x } => x < 16,
        Instruction::AddIVx { x } => x < 16,
        Instruction::LdFVx { x } => x < 16,
        Instruction::LdBVx { x } => x < 16,
        Instruction::StRegs { x } => x < 16,
        Instruction::LdRegs { x } => x < 16,
    }
}

/// Whatever `spec_decode` accepts is well-formed in the sense of
/// `instr_wf`: every extracted field respects its width.
pub proof fn lemma_decode_wf(op: u16)
    ensures
        spec_decode(op) matches Ok(instr) ==> instr_wf(instr),
{
    assert((op >> 8) & 0xF < 16) by (bit_vector);
    assert((op >> 4) & 0xF < 16) by (bit_vector);
    assert(op & 0xF < 16) by (bit_vector);
    assert(op & 0xFFF < 0x1000) by (bit_vector);
}

/// Maps a 16-bit opcode to its instruction, or reports `UnknownOpcode`.
/// Total and side-effect-free.
pub fn decode(op: u16) -> (r: Result<Instruction, Chip8Error>)
    ensures
        r == spec_decode(op),
        r matches Ok(instr) ==> instr_wf(instr),
{
    proof {
        lemma_decode_wf(op);
    }
    let x = ((op >> 8) & 0xF) as u8;
    let y = ((op >> 4) & 0xF) as u8;
    let n = (op & 0xF) as u8;
    let kk = (op & 0xFF) as u8;
    let nnn = op & 0xFFF;
    match op >> 12 {
        0x0 => match kk {
            0x00 => Ok(Instruction::Nop),
            0xE0 => Ok(Instruction::Cls),
            0xEE => Ok(Instruction::Ret),
            _ => Err(Chip8Error::UnknownOpcode(op)),
        },
        0x1 => Ok(Instruction::Jp { nnn }),
        0x2 => Ok(Instruction::Call { nnn }),
        0x3 => Ok(Instruction::SeByte { x, kk }),
        0x4 => Ok(Instruction::SneByte { x, kk }),
        0x5 => Ok(Instruction::SeReg { x, y }),
        0x6 => Ok(Instruction::LdByte { x, kk }),
        0x7 => Ok(Instruction::AddByte { x, kk }),
        0x8 => match n {
            0x0 => Ok(Instruction::LdReg { x, y }),
            0x1 => Ok(Instruction::Or { x, y }),
            0x2 => Ok(Instruction::And { x, y }),
            0x3 => Ok(Instruction::Xor { x, y }),
            0x4 => Ok(Instruction::AddReg { x, y }),
            0x5 => Ok(Instruction::Sub { x, y }),
            0x6 => Ok(Instruction::Shr { x, y }),
            0x7 => Ok(Instruction::Subn { x, y }),
            0xE => Ok(Instruction::Shl { x, y }),
            _ => Err(Chip8Error::UnknownOpcode(op)),
        },
        0x9 => Ok(Instruction::SneReg { x, y }),
        0xA => Ok(Instruction::LdI { nnn }),
        0xB => Ok(Instruction::JpV0 { nnn }),
        0xC => Ok(Instruction::Rnd { x, kk }),
        0xD => Ok(Instruction::Drw { x, y, n }),
        0xE => match kk {
            0x9E => Ok(Instruction::Skp { x }),
            0xA1 => Ok(Instruction::Sknp { x }),
            _ => Err(Chip8Error::UnknownOpcode(op)),
        },
        0xF => match kk {
            0x07 => Ok(Instruction::LdVxDt { x }),
            0x0A => Ok(Instruction::LdKey { x }),
            0x15 => Ok(Instruction::LdDtVx { x }),
            0x18 => Ok(Instruction::LdStVx { x }),
            0x1E => Ok(Instruction::AddIVx { x }),
            0x29 => Ok(Instruction::LdFVx { x }),
            0x33 => Ok(Instruction::LdBVx { x }),
            0x55 => Ok(Instruction::StRegs { x }),
            0x65 => Ok(Instruction::LdRegs { x }),
            _ => Err(Chip8Error::UnknownOpcode(op)),
        },
        _ => Err(Chip8Error::UnknownOpcode(op)),
    }
}

} // verus!

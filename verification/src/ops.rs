//! The executor's register, stack, timer, memory and key instructions:
//! one executable function per instruction, each proved against a spec
//! function over `Chip8State`, plus the arithmetic-flag and
//! call/return laws.

use vstd::prelude::*;
use vstd::pervasive::VecAdditionalExecFns;
use crate::state::{Chip8State, Chip8Error, ChipContext, applies};

verus! {

/// 1 when the condition holds, else 0: the value written to `VF`.
pub open spec fn flag(b: bool) -> u8 {
    if b {
        1u8
    } else {
        0u8
    }
}

/// `n` reduced modulo 256: 8-bit wrapping semantics.
pub open spec fn wrap8(n: int) -> u8 {
    (n % 256) as u8
}

/// `n` reduced modulo 2^16: 16-bit wrapping semantics.
pub open spec fn wrap16(n: int) -> u16 {
    (n % 0x10000) as u16
}

/// The state with the program counter moved past one instruction.
pub open spec fn spec_skip(s: Chip8State) -> Chip8State {
    Chip8State { pc: wrap16(s.pc + 2), ..s }
}

/// `00EE`: pop the return address, or fail when no call is outstanding.
pub open spec fn spec_return_sbr(s: Chip8State) -> Result<Chip8State, Chip8Error> {
    if s.sp == 0 {
        Err(Chip8Error::StackUnderflow)
    } else {
        Ok(Chip8State { sp: (s.sp - 1) as u8, pc: s.stack[s.sp - 1], ..s })
    }
}

/// `1nnn`: set the program counter.
pub open spec fn spec_jump(s: Chip8State, nnn: u16) -> Chip8State {
    Chip8State { pc: nnn, ..s }
}

/// `2nnn`: push the current program counter and jump, or fail when all
/// sixteen stack slots are in use.
pub open spec fn spec_call_sbr(s: Chip8State, nnn: u16) -> Result<Chip8State, Chip8Error> {
    if s.sp >= 16 {
        Err(Chip8Error::StackOverflow)
    } else {
        Ok(
            Chip8State {
                stack: s.stack.update(s.sp as int, s.pc),
                sp: (s.sp + 1) as u8,
                pc: nnn,
                ..s
            },
        )
    }
}

/// `3xkk`: skip when `Vx == kk`.
pub open spec fn spec_skip_if(s: Chip8State, x: u8, kk: u8) -> Chip8State {
    if s.v[x as int] == kk {
        spec_skip(s)
    } else {
        s
    }
}

/// `4xkk`: skip when `Vx != kk`.
pub open spec fn spec_skip_diff(s: Chip8State, x: u8, kk: u8) -> Chip8State {
    if s.v[x as int] != kk {
        spec_skip(s)
    } else {
        s
    }
}

/// `5xy0`: skip when `Vx == Vy`.
pub open spec fn spec_skip_equals(s: Chip8State, x: u8, y: u8) -> Chip8State {
    if s.v[x as int] == s.v[y as int] {
        spec_skip(s)
    } else {
        s
    }
}

/// `6xkk`: set `Vx = kk`.
pub open spec fn spec_load(s: Chip8State, x: u8, kk: u8) -> Chip8State {
    Chip8State { v: s.v.update(x as int, kk), ..s }
}

/// `7xkk`: set `Vx = (Vx + kk) mod 256`; the flag is untouched.
pub open spec fn spec_add(s: Chip8State, x: u8, kk: u8) -> Chip8State {
    Chip8State { v: s.v.update(x as int, wrap8(s.v[x as int] + kk)), ..s }
}

/// `8xy0`: set `Vx = Vy`.
pub open spec fn spec_load_vx_vy(s: Chip8State, x: u8, y: u8) -> Chip8State {
    Chip8State { v: s.v.update(x as int, s.v[y as int]), ..s }
}

/// `8xy1`: set `Vx = Vx | Vy`.
pub open spec fn spec_or(s: Chip8State, x: u8, y: u8) -> Chip8State {
    Chip8State { v: s.v.update(x as int, s.v[x as int] | s.v[y as int]), ..s }
}

/// `8xy2`: set `Vx = Vx & Vy`.
pub open spec fn spec_and(s: Chip8State, x: u8, y: u8) -> Chip8State {
    Chip8State { v: s.v.update(x as int, s.v[x as int] & s.v[y as int]), ..s }
}

/// `8xy3`: set `Vx = Vx ^ Vy`.
pub open spec fn spec_xor(s: Chip8State, x: u8, y: u8) -> Chip8State {
    Chip8State { v: s.v.update(x as int, s.v[x as int] ^ s.v[y as int]), ..s }
}

/// `8xy4`: set `Vx = (Vx + Vy) mod 256`, then `VF` = 1 exactly when the
/// true sum exceeds 255.
pub open spec fn spec_add_vx_vy(s: Chip8State, x: u8, y: u8) -> Chip8State {
    let sum = s.v[x as int] + s.v[y as int];
    Chip8State { v: s.v.update(x as int, wrap8(sum)).update(15, flag(sum > 255)), ..s }
}

/// `8xy5`: first `VF` = 1 exactly when `Vx > Vy`, then
/// `Vx = (Vx - Vy) mod 256` over the registers as already updated,
/// exactly as the flag write precedes the subtraction.
pub open spec fn spec_sub(s: Chip8State, x: u8, y: u8) -> Chip8State {
    let v1 = s.v.update(15, flag(s.v[x as int] > s.v[y as int]));
    Chip8State { v: v1.update(x as int, wrap8(v1[x as int] - v1[y as int])), ..s }
}

/// `8xy6`: first `VF` = the low bit of `Vx`, then `Vx` shifted right by
/// one; the `y` operand is ignored in the legacy convention.
pub open spec fn spec_shr(s: Chip8State, x: u8) -> Chip8State {
    let v1 = s.v.update(15, s.v[x as int] & 1);
    Chip8State { v: v1.update(x as int, v1[x as int] >> 1u8), ..s }
}

/// `8xy7`: first `VF` = 1 exactly when `Vy > Vx`, then
/// `Vx = (Vy - Vx) mod 256` over the registers as already updated.
pub open spec fn spec_subn(s: Chip8State, x: u8, y: u8) -> Chip8State {
    let v1 = s.v.update(15, flag(s.v[y as int] > s.v[x as int]));
    Chip8State { v: v1.update(x as int, wrap8(v1[y as int] - v1[x as int])), ..s }
}

/// `8xyE`: first `VF` = the high bit of `Vx`, then `Vx` shifted left by
/// one, dropping the high bit; the `y` operand is ignored.
pub open spec fn spec_shl(s: Chip8State, x: u8) -> Chip8State {
    let v1 = s.v.update(15, (s.v[x as int] & 0x80) >> 7u8);
    Chip8State { v: v1.update(x as int, v1[x as int] << 1u8), ..s }
}

/// `9xy0`: skip when `Vx != Vy`.
pub open spec fn spec_sne(s: Chip8State, x: u8, y: u8) -> Chip8State {
    if s.v[x as int] != s.v[y as int] {
        spec_skip(s)
    } else {
        s
    }
}

/// `Annn`: set `I = nnn`.
pub open spec fn spec_set_index(s: Chip8State, nnn: u16) -> Chip8State {
    Chip8State { i: nnn, ..s }
}

/// `Bnnn`: jump to `nnn + V0`.
pub open spec fn spec_jump_v0(s: Chip8State, nnn: u16) -> Chip8State {
    Chip8State { pc: (nnn + s.v[0]) as u16, ..s }
}

/// `Cxkk`: set `Vx` to the random byte masked with `kk`.
pub open spec fn spec_rnd(s: Chip8State, x: u8, kk: u8, rb: u8) -> Chip8State {
    Chip8State { v: s.v.update(x as int, rb & kk), ..s }
}

/// `Ex9E`: skip when the key named by `Vx` is pressed; a register value
/// outside the sixteen keys is an out-of-bounds failure.
pub open spec fn spec_skip_key(s: Chip8State, x: u8) -> Result<Chip8State, Chip8Error> {
    if s.v[x as int] >= 16 {
        Err(Chip8Error::OutOfBoundsAccess)
    } else if s.keys[s.v[x as int] as int] {
        Ok(spec_skip(s))
    } else {
        Ok(s)
    }
}

/// `ExA1`: skip when the key named by `Vx` is not pressed.
pub open spec fn spec_skip_not_key(s: Chip8State, x: u8) -> Result<Chip8State, Chip8Error> {
    if s.v[x as int] >= 16 {
        Err(Chip8Error::OutOfBoundsAccess)
    } else if !s.keys[s.v[x as int] as int] {
        Ok(spec_skip(s))
    } else {
        Ok(s)
    }
}

/// `Fx07`: set `Vx` to the delay timer.
pub open spec fn spec_load_vx_dt(s: Chip8State, x: u8) -> Chip8State {
    Chip8State { v: s.v.update(x as int, s.dt), ..s }
}

/// The lowest pressed key at or after index `k`, if any.
pub open spec fn first_pressed_from(keys: Seq<bool>, k: int) -> Option<int>
    decreases 16 - k,
{
    if k < 0 || k >= 16 {
        None
    } else if keys[k] {
        Some(k)
    } else {
        first_pressed_from(keys, k + 1)
    }
}

/// The lowest pressed key, if any.
pub open spec fn first_pressed(keys: Seq<bool>) -> Option<int> {
    first_pressed_from(keys, 0)
}

/// `Fx0A`: store the lowest pressed key in `Vx`; with no key pressed,
/// rewind the program counter by 2 so the same instruction is
/// re-fetched on the next cycle.
pub open spec fn spec_load_key(s: Chip8State, x: u8) -> Chip8State {
    match first_pressed(s.keys) {
        Some(k) => Chip8State { v: s.v.update(x as int, k as u8), ..s },
        None => Chip8State { pc: wrap16(s.pc - 2), ..s },
    }
}

/// `Fx15`: set the delay timer to `Vx`.
pub open spec fn spec_load_dt_vx(s: Chip8State, x: u8) -> Chip8State {
    Chip8State { dt: s.v[x as int], ..s }
}

/// `Fx18`: set the sound timer to `Vx`.
pub open spec fn spec_load_st_vx(s: Chip8State, x: u8) -> Chip8State {
    Chip8State { st: s.v[x as int], ..s }
}

/// `Fx1E`: set `I = (I + Vx) mod 2^16`.
pub open spec fn spec_add_i_vx(s: Chip8State, x: u8) -> Chip8State {
    Chip8State { i: wrap16(s.i + s.v[x as int]), ..s }
}

/// `Fx29`: point `I` at the 5-byte font glyph for the digit `Vx`.
pub open spec fn spec_load_f_vx(s: Chip8State, x: u8) -> Chip8State {
    Chip8State { i: (0x50 + s.v[x as int] * 5) as u16, ..s }
}

/// `Fx33`: write the hundreds, tens and units digits of `Vx` to
/// `I`, `I+1`, `I+2`, or fail when `I+2` falls outside memory.
pub open spec fn spec_load_b_vx(s: Chip8State, x: u8) -> Result<Chip8State, Chip8Error> {
    if s.i + 2 >= 4096 {
        Err(Chip8Error::OutOfBoundsAccess)
    } else {
        let vx = s.v[x as int];
        Ok(
            Chip8State {
                mem: s.mem.update(s.i as int, vx / 100).update(s.i + 1, (vx / 10) % 10).update(
                    s.i + 2,
                    vx % 10,
                ),
                ..s
            },
        )
    }
}

/// `Fx55`: copy `V0..=Vx` to memory at `I`, or fail when `I+x` falls
/// outside memory.
pub open spec fn spec_load_i_vx(s: Chip8State, x: u8) -> Result<Chip8State, Chip8Error> {
    if s.i + x >= 4096 {
        Err(Chip8Error::OutOfBoundsAccess)
    } else {
        Ok(
            Chip8State {
                mem: Seq::new(
                    4096,
                    |a: int|
                        if s.i <= a <= s.i + x {
                            s.v[a - s.i]
                        } else {
                            s.mem[a]
                        },
                ),
                ..s
            },
        )
    }
}

/// `Fx65`: load `V0..=Vx` from memory at `I`, or fail when `I+x` falls
/// outside memory.
pub open spec fn spec_load_vx_i(s: Chip8State, x: u8) -> Result<Chip8State, Chip8Error> {
    if s.i + x >= 4096 {
        Err(Chip8Error::OutOfBoundsAccess)
    } else {
        Ok(
            Chip8State {
                v: Seq::new(
                    16,
                    |r: int|
                        if 0 <= r <= x {
                            s.mem[s.i + r]
                        } else {
                            s.v[r]
                        },
                ),
                ..s
            },
        )
    }
}

/// `00EE`: return from a subroutine, or report a stack underflow with
/// the machine unchanged.
pub fn return_sbr(chip: &mut ChipContext) -> (r: Result<(), Chip8Error>)
    requires
        old(chip)@.wf(),
    ensures
        final(chip)@.wf(),
        applies(spec_return_sbr(old(chip)@), old(chip)@, final(chip)@, r),
{
    if chip.sp == 0 {
        return Err(Chip8Error::StackUnderflow);
    }
    chip.sp = chip.sp - 1;
    chip.pc = chip.stack[chip.sp as usize];
    Ok(())
}

/// `1nnn`: jump to `nnn`.
pub fn jump(chip: &mut ChipContext, nnn: u16)
    requires
        old(chip)@.wf(),
    ensures
        final(chip)@.wf(),
        final(chip)@ == spec_jump(old(chip)@, nnn),
{
    chip.pc = nnn;
}

/// `2nnn`: call the subroutine at `nnn`, or report a stack overflow
/// with the machine unchanged.
pub fn call_sbr(chip: &mut ChipContext, nnn: u16) -> (r: Result<(), Chip8Error>)
    requires
        old(chip)@.wf(),
    ensures
        final(chip)@.wf(),
        applies(spec_call_sbr(old(chip)@, nnn), old(chip)@, final(chip)@, r),
{
    if chip.sp >= 16 {
        return Err(Chip8Error::StackOverflow);
    }
    chip.stack.set(chip.sp as usize, chip.pc);
    chip.sp = chip.sp + 1;
    chip.pc = nnn;
    Ok(())
}

/// `3xkk`: skip the next instruction when `Vx == kk`.
pub fn skip_if(chip: &mut ChipContext, x: u8, kk: u8)
    requires
        old(chip)@.wf(),
        x < 16,
    ensures
        final(chip)@.wf(),
        final(chip)@ == spec_skip_if(old(chip)@, x, kk),
{
    if chip.v[x as usize] == kk {
        chip.pc = chip.pc.wrapping_add(2);
    }
}

/// `4xkk`: skip the next instruction when `Vx != kk`.
pub fn skip_diff(chip: &mut ChipContext, x: u8, kk: u8)
    requires
        old(chip)@.wf(),
        x < 16,
    ensures
        final(chip)@.wf(),
        final(chip)@ == spec_skip_diff(old(chip)@, x, kk),
{
    if chip.v[x as usize] != kk {
        chip.pc = chip.pc.wrapping_add(2);
    }
}

/// `5xy0`: skip the next instruction when `Vx == Vy`.
pub fn skip_equals(chip: &mut ChipContext, x: u8, y: u8)
    requires
        old(chip)@.wf(),
        x < 16,
        y < 16,
    ensures
        final(chip)@.wf(),
        final(chip)@ == spec_skip_equals(old(chip)@, x, y),
{
    if chip.v[x as usize] == chip.v[y as usize] {
        chip.pc = chip.pc.wrapping_add(2);
    }
}

/// `6xkk`: set `Vx = kk`.
pub fn load(chip: &mut ChipContext, x: u8, kk: u8)
    requires
        old(chip)@.wf(),
        x < 16,
    ensures
        final(chip)@.wf(),
        final(chip)@ == spec_load(old(chip)@, x, kk),
{
    chip.v.set(x as usize, kk);
}

/// `7xkk`: set `Vx = (Vx + kk) mod 256`; the flag register is not
/// touched by this form of addition.
pub fn add(chip: &mut ChipContext, x: u8, kk: u8)
    requires
        old(chip)@.wf(),
        x < 16,
    ensures
        final(chip)@.wf(),
        final(chip)@ == spec_add(old(chip)@, x, kk),
{
    let sum: u16 = (chip.v[x as usize] as u16) + (kk as u16);
    chip.v.set(x as usize, (sum % 256) as u8);
}

/// `8xy0`: set `Vx = Vy`.
pub fn load_vx_vy(chip: &mut ChipContext, x: u8, y: u8)
    requires
        old(chip)@.wf(),
        x < 16,
        y < 16,
    ensures
        final(chip)@.wf(),
        final(chip)@ == spec_load_vx_vy(old(chip)@, x, y),
{
    let vy = chip.v[y as usize];
    chip.v.set(x as usize, vy);
}

/// `8xy1`: set `Vx = Vx | Vy`.
pub fn or(chip: &mut ChipContext, x: u8, y: u8)
    requires
        old(chip)@.wf(),
        x < 16,
        y < 16,
    ensures
        final(chip)@.wf(),
        final(chip)@ == spec_or(old(chip)@, x, y),
{
    let r = chip.v[x as usize] | chip.v[y as usize];
    chip.v.set(x as usize, r);
}

/// `8xy2`: set `Vx = Vx & Vy`.
pub fn and(chip: &mut ChipContext, x: u8, y: u8)
    requires
        old(chip)@.wf(),
        x < 16,
        y < 16,
    ensures
        final(chip)@.wf(),
        final(chip)@ == spec_and(old(chip)@, x, y),
{
    let r = chip.v[x as usize] & chip.v[y as usize];
    chip.v.set(x as usize, r);
}

/// `8xy3`: set `Vx = Vx ^ Vy`.
pub fn xor(chip: &mut ChipContext, x: u8, y: u8)
    requires
        old(chip)@.wf(),
        x < 16,
        y < 16,
    ensures
        final(chip)@.wf(),
        final(chip)@ == spec_xor(old(chip)@, x, y),
{
    let r = chip.v[x as usize] ^ chip.v[y as usize];
    chip.v.set(x as usize, r);
}

/// `8xy4`: set `Vx = (Vx + Vy) mod 256` and `VF` = 1 exactly when the
/// sum exceeds 255, else 0.
pub fn add_vx_vy(chip: &mut ChipContext, x: u8, y: u8)
    requires
        old(chip)@.wf(),
        x < 16,
        y < 16,
    ensures
        final(chip)@.wf(),
        final(chip)@ == spec_add_vx_vy(old(chip)@, x, y),
{
    let sum: u16 = (chip.v[x as usize] as u16) + (chip.v[y as usize] as u16);
    chip.v.set(x as usize, (sum % 256) as u8);
    chip.v.set(15, if sum > 0xFF { 1 } else { 0 });
}

/// `8xy5`: set `VF` = 1 exactly when `Vx > Vy`, then subtract with
/// 8-bit wrapping.
pub fn sub(chip: &mut ChipContext, x: u8, y: u8)
    requires
        old(chip)@.wf(),
        x < 16,
        y < 16,
    ensures
        final(chip)@.wf(),
        final(chip)@ == spec_sub(old(chip)@, x, y),
{
    let f: u8 = if chip.v[x as usize] > chip.v[y as usize] {
        1
    } else {
        0
    };
    chip.v.set(15, f);
    let d = chip.v[x as usize].wrapping_sub(chip.v[y as usize]);
    chip.v.set(x as usize, d);
}

/// `8xy6`: set `VF` to the pre-shift low bit of `Vx`, then shift `Vx`
/// right by one; the `y` operand is ignored.
pub fn shr(chip: &mut ChipContext, x: u8, _y: u8)
    requires
        old(chip)@.wf(),
        x < 16,
    ensures
        final(chip)@.wf(),
        final(chip)@ == spec_shr(old(chip)@, x),
{
    let f = chip.v[x as usize] & 0x1;
    chip.v.set(15, f);
    let shifted = chip.v[x as usize] >> 1u8;
    chip.v.set(x as usize, shifted);
}

/// `8xy7`: set `VF` = 1 exactly when `Vy > Vx`, then set
/// `Vx = Vy - Vx` with 8-bit wrapping.
pub fn subn(chip: &mut ChipContext, x: u8, y: u8)
    requires
        old(chip)@.wf(),
        x < 16,
        y < 16,
    ensures
        final(chip)@.wf(),
        final(chip)@ == spec_subn(old(chip)@, x, y),
{
    let f: u8 = if chip.v[y as usize] > chip.v[x as usize] {
        1
    } else {
        0
    };
    chip.v.set(15, f);
    let d = chip.v[y as usize].wrapping_sub(chip.v[x as usize]);
    chip.v.set(x as usize, d);
}

/// `8xyE`: set `VF` to the pre-shift high bit of `Vx`, then shift `Vx`
/// left by one; the `y` operand is ignored.
pub fn shl(chip: &mut ChipContext, x: u8, _y: u8)
    requires
        old(chip)@.wf(),
        x < 16,
    ensures
        final(chip)@.wf(),
        final(chip)@ == spec_shl(old(chip)@, x),
{
    let f = (chip.v[x as usize] & 0x80) >> 7u8;
    chip.v.set(15, f);
    let shifted = chip.v[x as usize] << 1u8;
    chip.v.set(x as usize, shifted);
}

/// `9xy0`: skip the next instruction when `Vx != Vy`.
pub fn sne(chip: &mut ChipContext, x: u8, y: u8)
    requires
        old(chip)@.wf(),
        x < 16,
        y < 16,
    ensures
        final(chip)@.wf(),
        final(chip)@ == spec_sne(old(chip)@, x, y),
{
    if chip.v[x as usize] != chip.v[y as usize] {
        chip.pc = chip.pc.wrapping_add(2);
    }
}

/// `Annn`: set `I = nnn`.
pub fn set_index(chip: &mut ChipContext, nnn: u16)
    requires
        old(chip)@.wf(),
    ensures
        final(chip)@.wf(),
        final(chip)@ == spec_set_index(old(chip)@, nnn),
{
    chip.i = nnn;
}

/// `Bnnn`: jump to `nnn + V0`. The address field is twelve bits wide,
/// so the sum fits in sixteen.
pub fn jump_v0(chip: &mut ChipContext, nnn: u16)
    requires
        old(chip)@.wf(),
        nnn < 0x1000,
    ensures
        final(chip)@.wf(),
        final(chip)@ == spec_jump_v0(old(chip)@, nnn),
{
    chip.pc = nnn + (chip.v[0] as u16);
}

/// `Cxkk` with the random byte fixed: set `Vx` to `rb & kk`. Verified
/// for every value the random source may hand back.
pub fn rnd_with(chip: &mut ChipContext, x: u8, kk: u8, rb: u8)
    requires
        old(chip)@.wf(),
        x < 16,
    ensures
        final(chip)@.wf(),
        final(chip)@ == spec_rnd(old(chip)@, x, kk, rb),
{
    chip.v.set(x as usize, rb & kk);
}

/// `Ex9E`: skip the next instruction when the key named by `Vx` is
/// pressed; a register value past the sixteen keys is reported with
/// the machine unchanged.
pub fn skip_key(chip: &mut ChipContext, x: u8) -> (r: Result<(), Chip8Error>)
    requires
        old(chip)@.wf(),
        x < 16,
    ensures
        final(chip)@.wf(),
        applies(spec_skip_key(old(chip)@, x), old(chip)@, final(chip)@, r),
{
    let k = chip.v[x as usize];
    if k >= 16 {
        return Err(Chip8Error::OutOfBoundsAccess);
    }
    if chip.keyboard[k as usize] {
        chip.pc = chip.pc.wrapping_add(2);
    }
    Ok(())
}

/// `ExA1`: skip the next instruction when the key named by `Vx` is not
/// pressed.
pub fn skip_not_key(chip: &mut ChipContext, x: u8) -> (r: Result<(), Chip8Error>)
    requires
        old(chip)@.wf(),
        x < 16,
    ensures
        final(chip)@.wf(),
        applies(spec_skip_not_key(old(chip)@, x), old(chip)@, final(chip)@, r),
{
    let k = chip.v[x as usize];
    if k >= 16 {
        return Err(Chip8Error::OutOfBoundsAccess);
    }
    if !chip.keyboard[k as usize] {
        chip.pc = chip.pc.wrapping_add(2);
    }
    Ok(())
}

/// `Fx07`: set `Vx` to the delay timer.
pub fn load_vx_dt(chip: &mut ChipContext, x: u8)
    requires
        old(chip)@.wf(),
        x < 16,
    ensures
        final(chip)@.wf(),
        final(chip)@ == spec_load_vx_dt(old(chip)@, x),
{
    let t = chip.dt;
    chip.v.set(x as usize, t);
}

/// `Fx0A`: store the lowest pressed key in `Vx`, or rewind the program
/// counter by 2 so the same instruction is re-fetched next cycle.
pub fn load_key(chip: &mut ChipContext, x: u8)
    requires
        old(chip)@.wf(),
        x < 16,
    ensures
        final(chip)@.wf(),
        final(chip)@ == spec_load_key(old(chip)@, x),
{
    let mut pressed: bool = false;
    let mut k: usize = 0;
    while k < 16
        invariant_except_break
            old(chip)@.wf(),
            x < 16,
            k <= 16,
            !pressed,
            *chip == *old(chip),
            first_pressed(old(chip)@.keys) == first_pressed_from(old(chip)@.keys, k as int),
        ensures
            old(chip)@.wf(),
            x < 16,
            pressed ==> (first_pressed(old(chip)@.keys) matches Some(j) && chip@ == (
            Chip8State { v: old(chip)@.v.update(x as int, j as u8), ..old(chip)@ })),
            !pressed ==> first_pressed(old(chip)@.keys) is None && *chip == *old(chip),
        decreases 16 - k,
    {
        if chip.keyboard[k] {
            chip.v.set(x as usize, k as u8);
            pressed = true;
            break;
        }
        k = k + 1;
    }
    if !pressed {
        chip.pc = chip.pc.wrapping_sub(2);
    }
}

/// `Fx15`: set the delay timer to `Vx`.
pub fn load_dt_vx(chip: &mut ChipContext, x: u8)
    requires
        old(chip)@.wf(),
        x < 16,
    ensures
        final(chip)@.wf(),
        final(chip)@ == spec_load_dt_vx(old(chip)@, x),
{
    chip.dt = chip.v[x as usize];
}

/// `Fx18`: set the sound timer to `Vx`.
pub fn load_st_vx(chip: &mut ChipContext, x: u8)
    requires
        old(chip)@.wf(),
        x < 16,
    ensures
        final(chip)@.wf(),
        final(chip)@ == spec_load_st_vx(old(chip)@, x),
{
    chip.st = chip.v[x as usize];
}

/// `Fx1E`: add `Vx` to `I` with 16-bit wrapping.
pub fn add_i_vx(chip: &mut ChipContext, x: u8)
    requires
        old(chip)@.wf(),
        x < 16,
    ensures
        final(chip)@.wf(),
        final(chip)@ == spec_add_i_vx(old(chip)@, x),
{
    chip.i = chip.i.wrapping_add(chip.v[x as usize] as u16);
}

/// `Fx29`: point `I` at the font glyph for the digit `Vx`; glyphs are
/// five bytes each, starting at the font base offset.
pub fn load_f_vx(chip: &mut ChipContext, x: u8)
    requires
        old(chip)@.wf(),
        x < 16,
    ensures
        final(chip)@.wf(),
        final(chip)@ == spec_load_f_vx(old(chip)@, x),
{
    chip.i = crate::state::FONT_BASE + (chip.v[x as usize] as u16) * crate::state::FONT_GLYPH_SIZE;
}

/// `Fx33`: write the three decimal digits of `Vx` to `I`, `I+1`,
/// `I+2`, or report an out-of-bounds address with the machine
/// unchanged.
pub fn load_b_vx(chip: &mut ChipContext, x: u8) -> (r: Result<(), Chip8Error>)
    requires
        old(chip)@.wf(),
        x < 16,
    ensures
        final(chip)@.wf(),
        applies(spec_load_b_vx(old(chip)@, x), old(chip)@, final(chip)@, r),
{
    if chip.i >= 4094 {
        return Err(Chip8Error::OutOfBoundsAccess);
    }
    let vx = chip.v[x as usize];
    let base = chip.i as usize;
    chip.memory.set(base, vx / 100);
    chip.memory.set(base + 1, (vx / 10) % 10);
    chip.memory.set(base + 2, vx % 10);
    Ok(())
}

/// `Fx55`: copy `V0..=Vx` to memory starting at `I`, or report an
/// out-of-bounds address with the machine unchanged.
pub fn load_i_vx(chip: &mut ChipContext, x: u8) -> (r: Result<(), Chip8Error>)
    requires
        old(chip)@.wf(),
        x < 16,
    ensures
        final(chip)@.wf(),
        applies(spec_load_i_vx(old(chip)@, x), old(chip)@, final(chip)@, r),
{
    if chip.i as usize + x as usize >= 4096 {
        return Err(Chip8Error::OutOfBoundsAccess);
    }
    let base = chip.i as usize;
    let mut k: usize = 0;
    while k <= x as usize
        invariant
            old(chip)@.wf(),
            x < 16,
            k <= x + 1,
            base == old(chip)@.i,
            base + x < 4096,
            chip.memory@.len() == 4096,
            chip.v@ == old(chip)@.v,
            chip.dt == old(chip)@.dt,
            chip.st == old(chip)@.st,
            chip.pc == old(chip)@.pc,
            chip.sp == old(chip)@.sp,
            chip.i == old(chip)@.i,
            chip.stack@ == old(chip)@.stack,
            chip.framebuffer@ == old(chip)@.fb,
            chip.keyboard@ == old(chip)@.keys,
            forall|a: int|
                0 <= a < 4096 && !(base <= a < base + k) ==> chip.memory@[a] == old(chip)@.mem[a],
            forall|a: int| base <= a < base + k ==> chip.memory@[a] == old(chip)@.v[a - base],
        decreases x + 1 - k,
    {
        let vk = chip.v[k];
        chip.memory.set(base + k, vk);
        k = k + 1;
    }
    proof {
        assert(chip@ =~~= spec_load_i_vx(old(chip)@, x)->Ok_0);
    }
    Ok(())
}

/// `Fx65`: load `V0..=Vx` from memory starting at `I`, or report an
/// out-of-bounds address with the machine unchanged.
pub fn load_vx_i(chip: &mut ChipContext, x: u8) -> (r: Result<(), Chip8Error>)
    requires
        old(chip)@.wf(),
        x < 16,
    ensures
        final(chip)@.wf(),
        applies(spec_load_vx_i(old(chip)@, x), old(chip)@, final(chip)@, r),
{
    if chip.i as usize + x as usize >= 4096 {
        return Err(Chip8Error::OutOfBoundsAccess);
    }
    let base = chip.i as usize;
    let mut k: usize = 0;
    while k <= x as usize
        invariant
            old(chip)@.wf(),
            x < 16,
            k <= x + 1,
            base == old(chip)@.i,
            base + x < 4096,
            chip.v@.len() == 16,
            chip.memory@ == old(chip)@.mem,
            chip.dt == old(chip)@.dt,
            chip.st == old(chip)@.st,
            chip.pc == old(chip)@.pc,
            chip.sp == old(chip)@.sp,
            chip.i == old(chip)@.i,
            chip.stack@ == old(chip)@.stack,
            chip.framebuffer@ == old(chip)@.fb,
            chip.keyboard@ == old(chip)@.keys,
            forall|r_i: int| k <= r_i < 16 ==> chip.v@[r_i] == old(chip)@.v[r_i],
            forall|r_i: int| 0 <= r_i < k ==> chip.v@[r_i] == old(chip)@.mem[base + r_i],
        decreases x + 1 - k,
    {
        let b = chip.memory[base + k];
        chip.v.set(k, b);
        k = k + 1;
    }
    proof {
        assert(chip@ =~~= spec_load_vx_i(old(chip)@, x)->Ok_0);
    }
    Ok(())
}

/// For all registers `x`, `y`, the register addition `8xy4` sets `VF`
/// to 1 exactly when the true sum `Vx + Vy` exceeds 255 and to 0
/// otherwise, and leaves `Vx` holding the sum modulo 256. The sum
/// clause speaks of `x != 15`: there `Vx` is the flag target itself,
/// and the flag write wins.
pub proof fn lemma_add_carry(s: Chip8State, x: u8, y: u8)
    requires
        s.wf(),
        x < 16,
        y < 16,
    ensures
        spec_add_vx_vy(s, x, y).v[15] == flag(s.v[x as int] + s.v[y as int] > 255),
        x != 15 ==> spec_add_vx_vy(s, x, y).v[x as int] == (s.v[x as int] + s.v[y as int]) % 256,
{
}

/// For all registers `x`, `y` other than the flag register itself,
/// the subtraction `8xy5` sets `VF` to 1 exactly when `Vx > Vy` held
/// before the operation, and leaves `Vx` holding `(Vx - Vy) mod 256`
/// over the pre-operation values.
pub proof fn lemma_sub_borrow(s: Chip8State, x: u8, y: u8)
    requires
        s.wf(),
        x < 16,
        y < 16,
    ensures
        x != 15 ==> spec_sub(s, x, y).v[15] == flag(s.v[x as int] > s.v[y as int]),
        x != 15 && y != 15 ==> spec_sub(s, x, y).v[x as int] == (s.v[x as int] - s.v[y as int])
            % 256,
{
}

/// For every register `x` other than the flag register itself, the
/// right shift `8xy6` sets `VF` to the pre-shift low bit of `Vx` and
/// halves `Vx`, and the left shift `8xyE` sets `VF` to the pre-shift
/// high bit and doubles `Vx` modulo 256.
pub proof fn lemma_shift_flags(s: Chip8State, x: u8)
    requires
        s.wf(),
        x < 16,
        x != 15,
    ensures
        spec_shr(s, x).v[15] == s.v[x as int] % 2,
        spec_shr(s, x).v[x as int] == s.v[x as int] / 2,
        spec_shl(s, x).v[15] == s.v[x as int] / 128,
        spec_shl(s, x).v[x as int] == (s.v[x as int] * 2) % 256,
{
    let b = s.v[x as int];
    assert(b & 1 == b % 2) by (bit_vector);
    assert(b >> 1u8 == b / 2) by (bit_vector);
    assert((b & 0x80) >> 7u8 == b / 128) by (bit_vector);
    assert(b << 1u8 == (b * 2) % 256) by (bit_vector);
}

/// Calling a subroutine and then returning restores the program
/// counter to the instruction immediately after the call; the one
/// trace the pair leaves is the return address written to the stack
/// slot the call used.
pub proof fn lemma_call_then_return(s: Chip8State, nnn: u16)
    requires
        s.wf(),
        s.sp < 16,
    ensures
        spec_call_sbr(s, nnn) matches Ok(s1) && spec_return_sbr(s1) matches Ok(s2) && s2.pc == s.pc
            && s2 == (Chip8State { stack: s.stack.update(s.sp as int, s.pc), ..s }),
{
    let s1 = spec_call_sbr(s, nnn)->Ok_0;
    let s2 = spec_return_sbr(s1)->Ok_0;
    assert(s2 =~~= (Chip8State { stack: s.stack.update(s.sp as int, s.pc), ..s }));
}

} // verus!

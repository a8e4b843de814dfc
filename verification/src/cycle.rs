//! The cycle driver: instruction fetch, the executor's dispatch over
//! decoded instructions, one fetch-decode-execute step, and the 60 Hz
//! timer tick. Wall-clock pacing belongs to the surrounding driver;
//! only the decrement itself is the machine's own contract.

use vstd::prelude::*;
use crate::state::{Chip8State, Chip8Error, ChipContext, applies};
use crate::decode::{Instruction, spec_decode, instr_wf};
use crate::ops::{
    spec_return_sbr, spec_jump, spec_call_sbr, spec_skip_if, spec_skip_diff, spec_skip_equals,
    spec_load, spec_add, spec_load_vx_vy, spec_or, spec_and, spec_xor, spec_add_vx_vy, spec_sub,
    spec_shr, spec_subn, spec_shl, spec_sne, spec_set_index, spec_jump_v0, spec_rnd,
    spec_skip_key, spec_skip_not_key, spec_load_vx_dt, spec_load_key, spec_load_dt_vx,
    spec_load_st_vx, spec_add_i_vx, spec_load_f_vx, spec_load_b_vx, spec_load_i_vx,
    spec_load_vx_i,
};
use crate::draw::{spec_clean_screen, spec_draw};

verus! {

/// What executing one decoded instruction does to the machine: the
/// next state, or the error that leaves the machine unchanged. The
/// byte `rb` stands for whatever the random source hands back; every
/// instruction but the random draw ignores it.
pub open spec fn spec_execute(s: Chip8State, instr: Instruction, rb: u8) -> Result<
    Chip8State,
    Chip8Error,
> {
    match instr {
        Instruction::Nop => Ok(s),
        Instruction::Cls => Ok(spec_clean_screen(s)),
        Instruction::Ret => spec_return_sbr(s),
        Instruction::Jp { nnn } => Ok(spec_jump(s, nnn)),
        Instruction::Call { nnn } => spec_call_sbr(s, nnn),
        Instruction::SeByte { x, kk } => Ok(spec_skip_if(s, x, kk)),
        Instruction::SneByte { x, kk } => Ok(spec_skip_diff(s, x, kk)),
        Instruction::SeReg { x, y } => Ok(spec_skip_equals(s, x, y)),
        Instruction::LdByte { x, kk } => Ok(spec_load(s, x, kk)),
        Instruction::AddByte { x, kk } => Ok(spec_add(s, x, kk)),
        Instruction::LdReg { x, y } => Ok(spec_load_vx_vy(s, x, y)),
        Instruction::Or { x, y } => Ok(spec_or(s, x, y)),
        Instruction::And { x, y } => Ok(spec_and(s, x, y)),
        Instruction::Xor { x, y } => Ok(spec_xor(s, x, y)),
        Instruction::AddReg { x, y } => Ok(spec_add_vx_vy(s, x, y)),
        Instruction::Sub { x, y } => Ok(spec_sub(s, x, y)),
        Instruction::Shr { x, y } => Ok(spec_shr(s, x)),
        Instruction::Subn { x, y } => Ok(spec_subn(s, x, y)),
        Instruction::Shl { x, y } => Ok(spec_shl(s, x)),
        Instruction::SneReg { x, y } => Ok(spec_sne(s, x, y)),
        Instruction::LdI { nnn } => Ok(spec_set_index(s, nnn)),
        Instruction::JpV0 { nnn } => Ok(spec_jump_v0(s, nnn)),
        Instruction::Rnd { x, kk } => Ok(spec_rnd(s, x, kk, rb)),
        Instruction::Drw { x, y, n } => spec_draw(s, x, y, n),
        Instruction::Skp { x } => spec_skip_key(s, x),
        Instruction::Sknp { x } => spec_skip_not_key(s, x),
        Instruction::LdVxDt { x } => Ok(spec_load_vx_dt(s, x)),
        Instruction::LdKey { x } => Ok(spec_load_key(s, x)),
        Instruction::LdDtVx { x } => Ok(spec_load_dt_vx(s, x)),
        Instruction::LdStVx { x } => Ok(spec_load_st_vx(s, x)),
        Instruction::AddIVx { x } => Ok(spec_add_i_vx(s, x)),
        Instruction::LdFVx { x } => Ok(spec_load_f_vx(s, x)),
        Instruction::LdBVx { x } => spec_load_b_vx(s, x),
        Instruction::StRegs { x } => spec_load_i_vx(s, x),
        Instruction::LdRegs { x } => spec_load_vx_i(s, x),
    }
}

/// Applies one decoded instruction to the machine. On an error the
/// machine is left unchanged. For the random draw the contract holds
/// for some byte the generator returned; every other instruction is
/// pinned down exactly.
pub fn execute(chip: &mut ChipContext, instr: Instruction) -> (r: Result<(), Chip8Error>)
    requires
        old(chip)@.wf(),
        instr_wf(instr),
    ensures
        final(chip)@.wf(),
        instr is Rnd ==> exists|rb: u8|
            #[trigger] applies(spec_execute(old(chip)@, instr, rb), old(chip)@, final(chip)@, r),
        !(instr is Rnd) ==> applies(
            spec_execute(old(chip)@, instr, 0),
            old(chip)@,
            final(chip)@,
            r,
        ),
{
    match instr {
        Instruction::Nop => Ok(()),
        Instruction::Cls => {
            crate::draw::clean_screen(chip);
            Ok(())
        },
        Instruction::Ret => crate::ops::return_sbr(chip),
        Instruction::Jp { nnn } => {
            crate::ops::jump(chip, nnn);
            Ok(())
        },
        Instruction::Call { nnn } => crate::ops::call_sbr(chip, nnn),
        Instruction::SeByte { x, kk } => {
            crate::ops::skip_if(chip, x, kk);
            Ok(())
        },
        Instruction::SneByte { x, kk } => {
            crate::ops::skip_diff(chip, x, kk);
            Ok(())
        },
        Instruction::SeReg { x, y } => {
            crate::ops::skip_equals(chip, x, y);
            Ok(())
        },
        Instruction::LdByte { x, kk } => {
            crate::ops::load(chip, x, kk);
            Ok(())
        },
        Instruction::AddByte { x, kk } => {
            crate::ops::add(chip, x, kk);
            Ok(())
        },
        Instruction::LdReg { x, y } => {
            crate::ops::load_vx_vy(chip, x, y);
            Ok(())
        },
        Instruction::Or { x, y } => {
            crate::ops::or(chip, x, y);
            Ok(())
        },
        Instruction::And { x, y } => {
            crate::ops::and(chip, x, y);
            Ok(())
        },
        Instruction::Xor { x, y } => {
            crate::ops::xor(chip, x, y);
            Ok(())
        },
        Instruction::AddReg { x, y } => {
            crate::ops::add_vx_vy(chip, x, y);
            Ok(())
        },
        Instruction::Sub { x, y } => {
            crate::ops::sub(chip, x, y);
            Ok(())
        },
        Instruction::Shr { x, y } => {
            crate::ops::shr(chip, x, y);
            Ok(())
        },
        Instruction::Subn { x, y } => {
            crate::ops::subn(chip, x, y);
            Ok(())
        },
        Instruction::Shl { x, y } => {
            crate::ops::shl(chip, x, y);
            Ok(())
        },
        Instruction::SneReg { x, y } => {
            crate::ops::sne(chip, x, y);
            Ok(())
        },
        Instruction::LdI { nnn } => {
            crate::ops::set_index(chip, nnn);
            Ok(())
        },
        Instruction::JpV0 { nnn } => {
            crate::ops::jump_v0(chip, nnn);
            Ok(())
        },
        Instruction::Rnd { x, kk } => {
            crate::rng::rnd(chip, x, kk);
            proof {
                let rb = choose|rb: u8| chip@ == spec_rnd(old(chip)@, x, kk, rb);
                assert(applies(
                    spec_execute(old(chip)@, instr, rb),
                    old(chip)@,
                    chip@,
                    Ok::<(), Chip8Error>(()),
                ));
            }
            Ok(())
        },
        Instruction::Drw { x, y, n } => crate::draw::draw(chip, x, y, n),
        Instruction::Skp { x } => crate::ops::skip_key(chip, x),
        Instruction::Sknp { x } => crate::ops::skip_not_key(chip, x),
        Instruction::LdVxDt { x } => {
            crate::ops::load_vx_dt(chip, x);
            Ok(())
        },
        Instruction::LdKey { x } => {
            crate::ops::load_key(chip, x);
            Ok(())
        },
        Instruction::LdDtVx { x } => {
            crate::ops::load_dt_vx(chip, x);
            Ok(())
        },
        Instruction::LdStVx { x } => {
            crate::ops::load_st_vx(chip, x);
            Ok(())
        },
        Instruction::AddIVx { x } => {
            crate::ops::add_i_vx(chip, x);
            Ok(())
        },
        Instruction::LdFVx { x } => {
            crate::ops::load_f_vx(chip, x);
            Ok(())
        },
        Instruction::LdBVx { x } => crate::ops::load_b_vx(chip, x),
        Instruction::StRegs { x } => crate::ops::load_i_vx(chip, x),
        Instruction::LdRegs { x } => crate::ops::load_vx_i(chip, x),
    }
}

/// What fetching does: the opcode read big-endian at the program
/// counter, with the counter already moved past it, or an
/// out-of-bounds failure when the counter leaves memory.
pub open spec fn spec_fetch(s: Chip8State) -> Result<(u16, Chip8State), Chip8Error> {
    if s.pc + 1 >= 4096 {
        Err(Chip8Error::OutOfBoundsAccess)
    } else {
        Ok(
            (
                (s.mem[s.pc as int] * 256 + s.mem[s.pc as int + 1]) as u16,
                Chip8State { pc: (s.pc + 2) as u16, ..s },
            ),
        )
    }
}

/// Reads the two opcode bytes at the program counter and moves the
/// counter past them, or reports a counter outside memory with the
/// machine unchanged.
pub fn fetch(chip: &mut ChipContext) -> (r: Result<u16, Chip8Error>)
    requires
        old(chip)@.wf(),
    ensures
        final(chip)@.wf(),
        match spec_fetch(old(chip)@) {
            Ok((op, s1)) => r == Ok::<u16, Chip8Error>(op) && final(chip)@ == s1,
            Err(e) => r == Err::<u16, Chip8Error>(e) && final(chip)@ == old(chip)@,
        },
{
    if chip.pc >= 4095 {
        return Err(Chip8Error::OutOfBoundsAccess);
    }
    let b1 = chip.memory[chip.pc as usize];
    let b2 = chip.memory[chip.pc as usize + 1];
    let op: u16 = (b1 as u16) * 256 + (b2 as u16);
    chip.pc = chip.pc + 2;
    Ok(op)
}

/// One fetch-decode-execute step: the machine after it, paired with
/// what the step reported. A fetch failure moves nothing; after a
/// successful fetch the counter stays moved even when decode or
/// execute fails, so the faulting opcode's address is the counter
/// less two.
pub open spec fn spec_cycle(s: Chip8State, rb: u8) -> (Chip8State, Result<(), Chip8Error>) {
    match spec_fetch(s) {
        Err(e) => (s, Err(e)),
        Ok((op, s1)) => match spec_decode(op) {
            Err(e) => (s1, Err(e)),
            Ok(instr) => match spec_execute(s1, instr, rb) {
                Ok(s2) => (s2, Ok(())),
                Err(e) => (s1, Err(e)),
            },
        },
    }
}

/// How one executed cycle relates the machine before and after, for
/// the random byte `rb`.
pub open spec fn cycle_ok(
    pre: Chip8State,
    rb: u8,
    post: Chip8State,
    r: Result<(), Chip8Error>,
) -> bool {
    post == spec_cycle(pre, rb).0 && r == spec_cycle(pre, rb).1
}

/// Whether the instruction at the program counter is the random draw:
/// the one case a cycle is not a function of the machine alone.
pub open spec fn cycle_is_rnd(s: Chip8State) -> bool {
    spec_fetch(s) matches Ok((op, s1)) && spec_decode(op) matches Ok(instr) && instr is Rnd
}

/// One fetch-decode-execute step against the machine. Every cycle
/// satisfies `cycle_ok` for some byte of the random source, and a
/// cycle not at a random draw is pinned down exactly.
pub fn cycle(chip: &mut ChipContext) -> (r: Result<(), Chip8Error>)
    requires
        old(chip)@.wf(),
    ensures
        final(chip)@.wf(),
        exists|rb: u8| #[trigger] cycle_ok(old(chip)@, rb, final(chip)@, r),
        !cycle_is_rnd(old(chip)@) ==> cycle_ok(old(chip)@, 0, final(chip)@, r),
{
    let op = match fetch(chip) {
        Ok(op) => op,
        Err(e) => {
            proof {
                assert(cycle_ok(old(chip)@, 0, chip@, Err::<(), Chip8Error>(e)));
            }
            return Err(e);
        },
    };
    let ghost s1 = chip@;
    let instr = match crate::decode::decode(op) {
        Ok(instr) => instr,
        Err(e) => {
            proof {
                assert(cycle_ok(old(chip)@, 0, chip@, Err::<(), Chip8Error>(e)));
            }
            return Err(e);
        },
    };
    let r = execute(chip, instr);
    proof {
        if instr is Rnd {
            let rb = choose|rb: u8| applies(spec_execute(s1, instr, rb), s1, chip@, r);
            assert(cycle_ok(old(chip)@, rb, chip@, r));
        } else {
            assert(cycle_ok(old(chip)@, 0, chip@, r));
        }
    }
    r
}

/// One 60 Hz timer tick: each timer counts down toward zero and
/// saturates there.
pub open spec fn spec_tick_timers(s: Chip8State) -> Chip8State {
    Chip8State {
        dt: if s.dt > 0 {
            (s.dt - 1) as u8
        } else {
            0
        },
        st: if s.st > 0 {
            (s.st - 1) as u8
        } else {
            0
        },
        ..s
    }
}

/// Decrement both countdown timers by one tick, never below zero.
/// The surrounding driver calls this at its 60 Hz wall-clock cadence,
/// independent of the CPU cycle rate.
pub fn tick_timers(chip: &mut ChipContext)
    requires
        old(chip)@.wf(),
    ensures
        final(chip)@.wf(),
        final(chip)@ == spec_tick_timers(old(chip)@),
{
    chip.dt = if chip.dt > 0 {
        chip.dt - 1
    } else {
        0
    };
    chip.st = if chip.st > 0 {
        chip.st - 1
    } else {
        0
    };
}

} // verus!

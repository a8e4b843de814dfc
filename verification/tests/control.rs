//! Control flow: jumps, the call stack, skips, keys and timers.

use chip8::state::{Chip8Error, ChipContext};

#[test]
fn test_call_then_return_restores_pc() {
    let mut chip = ChipContext::new();
    chip.pc = 0x302;
    assert_eq!(chip8::ops::call_sbr(&mut chip, 0x400), Ok(()));
    assert_eq!(chip.pc, 0x400);
    assert_eq!(chip.sp, 1);
    assert_eq!(chip.stack[0], 0x302);
    assert_eq!(chip8::ops::return_sbr(&mut chip), Ok(()));
    assert_eq!(chip.pc, 0x302);
    assert_eq!(chip.sp, 0);
}

#[test]
fn test_sixteen_nested_calls_then_overflow() {
    let mut chip = ChipContext::new();
    chip.pc = 0x200;
    for k in 0..16u16 {
        assert_eq!(chip8::ops::call_sbr(&mut chip, 0x300 + 2 * k), Ok(()));
    }
    assert_eq!(chip.sp, 16);
    let pc_before = chip.pc;
    assert_eq!(
        chip8::ops::call_sbr(&mut chip, 0x500),
        Err(Chip8Error::StackOverflow)
    );
    assert_eq!(chip.pc, pc_before);
    assert_eq!(chip.sp, 16);
    // the sixteen returns unwind in order
    for k in (0..16u16).rev() {
        assert_eq!(chip8::ops::return_sbr(&mut chip), Ok(()));
        if k > 0 {
            assert_eq!(chip.pc, 0x300 + 2 * (k - 1));
        }
    }
    assert_eq!(chip.pc, 0x200);
}

#[test]
fn test_return_on_empty_stack_underflows() {
    let mut chip = ChipContext::new();
    assert_eq!(
        chip8::ops::return_sbr(&mut chip),
        Err(Chip8Error::StackUnderflow)
    );
    assert_eq!(chip.pc, 0);
}

#[test]
fn test_jump_and_jump_v0() {
    let mut chip = ChipContext::new();
    chip8::ops::jump(&mut chip, 0xABC);
    assert_eq!(chip.pc, 0xABC);
    chip.v[0] = 0x10;
    chip8::ops::jump_v0(&mut chip, 0x200);
    assert_eq!(chip.pc, 0x210);
}

#[test]
fn test_set_index() {
    let mut chip = ChipContext::new();
    chip8::ops::set_index(&mut chip, 0x234);
    assert_eq!(chip.i, 0x234);
}

#[test]
fn test_skip_if_byte() {
    let mut chip = ChipContext::new();
    chip.pc = 0x200;
    chip.v[3] = 9;
    chip8::ops::skip_if(&mut chip, 3, 9);
    assert_eq!(chip.pc, 0x202);
    chip8::ops::skip_if(&mut chip, 3, 8);
    assert_eq!(chip.pc, 0x202);
}

#[test]
fn test_skip_diff_byte() {
    let mut chip = ChipContext::new();
    chip.pc = 0x200;
    chip.v[3] = 9;
    chip8::ops::skip_diff(&mut chip, 3, 9);
    assert_eq!(chip.pc, 0x200);
    chip8::ops::skip_diff(&mut chip, 3, 8);
    assert_eq!(chip.pc, 0x202);
}

#[test]
fn test_skip_register_comparisons() {
    let mut chip = ChipContext::new();
    chip.pc = 0x200;
    chip.v[1] = 4;
    chip.v[2] = 4;
    chip8::ops::skip_equals(&mut chip, 1, 2);
    assert_eq!(chip.pc, 0x202);
    chip8::ops::sne(&mut chip, 1, 2);
    assert_eq!(chip.pc, 0x202);
    chip.v[2] = 5;
    chip8::ops::skip_equals(&mut chip, 1, 2);
    assert_eq!(chip.pc, 0x202);
    chip8::ops::sne(&mut chip, 1, 2);
    assert_eq!(chip.pc, 0x204);
}

#[test]
fn test_skip_key_pressed() {
    let mut chip = ChipContext::new();
    chip.pc = 0x200;
    chip.v[0] = 7;
    chip.keyboard[7] = true;
    assert_eq!(chip8::ops::skip_key(&mut chip, 0), Ok(()));
    assert_eq!(chip.pc, 0x202);
    chip.keyboard[7] = false;
    assert_eq!(chip8::ops::skip_key(&mut chip, 0), Ok(()));
    assert_eq!(chip.pc, 0x202);
}

#[test]
fn test_skip_not_key() {
    let mut chip = ChipContext::new();
    chip.pc = 0x200;
    chip.v[0] = 7;
    assert_eq!(chip8::ops::skip_not_key(&mut chip, 0), Ok(()));
    assert_eq!(chip.pc, 0x202);
    chip.keyboard[7] = true;
    assert_eq!(chip8::ops::skip_not_key(&mut chip, 0), Ok(()));
    assert_eq!(chip.pc, 0x202);
}

#[test]
fn test_skip_key_index_out_of_bounds() {
    let mut chip = ChipContext::new();
    chip.v[0] = 16;
    assert_eq!(
        chip8::ops::skip_key(&mut chip, 0),
        Err(Chip8Error::OutOfBoundsAccess)
    );
    assert_eq!(
        chip8::ops::skip_not_key(&mut chip, 0),
        Err(Chip8Error::OutOfBoundsAccess)
    );
}

#[test]
fn test_await_key_rewinds_without_press() {
    let mut chip = ChipContext::new();
    chip.pc = 0x202;
    chip8::ops::load_key(&mut chip, 4);
    // the same instruction will be fetched again next cycle
    assert_eq!(chip.pc, 0x200);
    assert_eq!(chip.v[4], 0);
}

#[test]
fn test_await_key_takes_lowest_pressed() {
    let mut chip = ChipContext::new();
    chip.pc = 0x202;
    chip.keyboard[9] = true;
    chip.keyboard[3] = true;
    chip8::ops::load_key(&mut chip, 4);
    assert_eq!(chip.v[4], 3);
    assert_eq!(chip.pc, 0x202);
}

#[test]
fn test_timer_transfers() {
    let mut chip = ChipContext::new();
    chip.v[2] = 42;
    chip8::ops::load_dt_vx(&mut chip, 2);
    assert_eq!(chip.dt, 42);
    chip8::ops::load_st_vx(&mut chip, 2);
    assert_eq!(chip.st, 42);
    chip.dt = 17;
    chip8::ops::load_vx_dt(&mut chip, 5);
    assert_eq!(chip.v[5], 17);
}

#[test]
fn test_timer_ticks_saturate_at_zero() {
    let mut chip = ChipContext::new();
    chip.v[0] = 5;
    chip8::ops::load_dt_vx(&mut chip, 0);
    assert_eq!(chip.dt, 5);
    for _ in 0..5 {
        chip8::cycle::tick_timers(&mut chip);
    }
    assert_eq!(chip.dt, 0);
    // a sixth tick must not go below zero
    chip8::cycle::tick_timers(&mut chip);
    assert_eq!(chip.dt, 0);
    assert_eq!(chip.st, 0);
}

#[test]
fn test_add_index() {
    let mut chip = ChipContext::new();
    chip.i = 0x100;
    chip.v[1] = 0x20;
    chip8::ops::add_i_vx(&mut chip, 1);
    assert_eq!(chip.i, 0x120);
}

#[test]
fn test_font_index_per_glyph() {
    let mut chip = ChipContext::new();
    chip.v[0] = 0;
    chip8::ops::load_f_vx(&mut chip, 0);
    assert_eq!(chip.i, 0x50);
    chip.v[0] = 0xF;
    chip8::ops::load_f_vx(&mut chip, 0);
    assert_eq!(chip.i, 0x50 + 75);
}

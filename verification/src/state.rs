//! The machine state of the CHIP-8 virtual machine: memory, registers,
//! timers, program counter, stack, framebuffer and key state, together
//! with its mathematical model and the error taxonomy.

use vstd::prelude::*;
use vstd::pervasive::VecAdditionalExecFns;

verus! {

/// Bytes of addressable memory.
pub const MEMORY_SIZE: usize = 4096;

/// Number of general-purpose registers `V0`..`VF`.
pub const NUM_REGISTERS: usize = 16;

/// Capacity of the call stack, in return addresses.
pub const STACK_SIZE: usize = 16;

/// Width of the monochrome display, in pixels.
pub const SCREEN_WIDTH: usize = 64;

/// Height of the monochrome display, in pixels.
pub const SCREEN_HEIGHT: usize = 32;

/// Number of pixels of the display.
pub const SCREEN_PIXELS: usize = 2048;

/// Number of keys of the input device.
pub const NUM_KEYS: usize = 16;

/// Memory offset where the font glyphs are preloaded.
pub const FONT_BASE: u16 = 0x50;

/// Bytes per font glyph.
pub const FONT_GLYPH_SIZE: u16 = 5;

/// Memory offset where ROM images are loaded and execution starts.
pub const ROM_BASE: u16 = 0x200;

/// Why a decode or execute step failed; a faulting ROM halts emulation.
#[derive(Clone, Copy, Debug, PartialEq, Eq, Structural)]
pub enum Chip8Error {
    /// The 16-bit opcode matches no instruction of the CHIP-8 set.
    UnknownOpcode(u16),
    /// A call was made with all sixteen stack slots in use.
    StackOverflow,
    /// A return was made with no call outstanding.
    StackUnderflow,
    /// A computed address fell outside memory, or a key index outside
    /// the sixteen keys.
    OutOfBoundsAccess,
}

/// How a fallible step relates the machine before and after: on
/// success the machine moves to the state the step describes; on
/// failure the step's error is returned and the machine is unchanged.
pub open spec fn applies(
    step: Result<Chip8State, Chip8Error>,
    pre: Chip8State,
    post: Chip8State,
    r: Result<(), Chip8Error>,
) -> bool {
    match step {
        Ok(s2) => r == Ok::<(), Chip8Error>(()) && post == s2,
        Err(e) => r == Err::<(), Chip8Error>(e) && post == pre,
    }
}

/// The mathematical model of the machine: every contract of this crate
/// speaks of values of this type.
#[verifier::ext_equal]
pub ghost struct Chip8State {
    /// The 4096 bytes of memory.
    pub mem: Seq<u8>,
    /// The sixteen 8-bit registers `V0`..`VF`.
    pub v: Seq<u8>,
    /// The delay timer.
    pub dt: u8,
    /// The sound timer.
    pub st: u8,
    /// The program counter.
    pub pc: u16,
    /// The stack pointer: number of return addresses in use.
    pub sp: u8,
    /// The index register `I`.
    pub i: u16,
    /// The sixteen call-stack slots.
    pub stack: Seq<u16>,
    /// The 64x32 pixel grid, flattened; see `pixel_index`.
    pub fb: Seq<bool>,
    /// The sixteen key flags.
    pub keys: Seq<bool>,
}

/// Position of pixel `(x, y)` in the flattened framebuffer.
pub open spec fn pixel_index(x: int, y: int) -> int {
    x * 32 + y
}

impl Chip8State {
    /// Well-formedness: every component has its fixed size and the stack
    /// pointer stays within the sixteen slots.
    pub open spec fn wf(self) -> bool {
        &&& self.mem.len() == 4096
        &&& self.v.len() == 16
        &&& self.stack.len() == 16
        &&& self.fb.len() == 2048
        &&& self.keys.len() == 16
        &&& self.sp <= 16
    }

    /// The zero-initialized machine: all memory, registers, timers,
    /// pointers, pixels and keys cleared.
    pub open spec fn initial() -> Chip8State {
        Chip8State {
            mem: Seq::new(4096, |a: int| 0u8),
            v: Seq::new(16, |r: int| 0u8),
            dt: 0,
            st: 0,
            pc: 0,
            sp: 0,
            i: 0,
            stack: Seq::new(16, |s: int| 0u16),
            fb: Seq::new(2048, |p: int| false),
            keys: Seq::new(16, |k: int| false),
        }
    }
}

/// The sixteen 5-byte font glyphs: the hexadecimal digits 0 to F,
/// five rows of eight pixels each, in glyph order.
pub open spec fn font_seq() -> Seq<u8> {
    seq![
        0xF0u8, 0x90, 0x90, 0x90, 0xF0,
        0x20, 0x60, 0x20, 0x20, 0x70,
        0xF0, 0x10, 0xF0, 0x80, 0xF0,
        0xF0, 0x10, 0xF0, 0x10, 0xF0,
        0x90, 0x90, 0xF0, 0x10, 0x10,
        0xF0, 0x80, 0xF0, 0x10, 0xF0,
        0xF0, 0x80, 0xF0, 0x90, 0xF0,
        0xF0, 0x10, 0x20, 0x40, 0x40,
        0xF0, 0x90, 0xF0, 0x90, 0xF0,
        0xF0, 0x90, 0xF0, 0x10, 0xF0,
        0xF0, 0x90, 0xF0, 0x90, 0x90,
        0xE0, 0x90, 0xE0, 0x90, 0xE0,
        0xF0, 0x80, 0x80, 0x80, 0xF0,
        0xE0, 0x90, 0x90, 0x90, 0xE0,
        0xF0, 0x80, 0xF0, 0x80, 0xF0,
        0xF0, 0x80, 0xF0, 0x80, 0x80,
    ]
}

/// Memory with the font glyphs written at the font base offset and
/// every other byte kept.
pub open spec fn font_loaded(mem: Seq<u8>) -> Seq<u8> {
    Seq::new(
        4096,
        |a: int|
            if 0x50 <= a < 0xA0 {
                font_seq()[a - 0x50]
            } else {
                mem[a]
            },
    )
}

/// What loading a ROM image does: the bytes land at the ROM base
/// offset and the program counter points there, or an image longer
/// than the memory past that offset is rejected.
pub open spec fn spec_load_rom(s: Chip8State, rom: Seq<u8>) -> Result<Chip8State, Chip8Error> {
    if rom.len() > 3584 {
        Err(Chip8Error::OutOfBoundsAccess)
    } else {
        Ok(
            Chip8State {
                mem: Seq::new(
                    4096,
                    |a: int|
                        if 0x200 <= a < 0x200 + rom.len() {
                            rom[a - 0x200]
                        } else {
                            s.mem[a]
                        },
                ),
                pc: 0x200,
                ..s
            },
        )
    }
}

/// The machine state as executable data. The fields are public: the
/// surrounding driver owns the machine, sets and clears key flags
/// between cycles, and reads the framebuffer to present it; the CPU
/// instructions alone mutate the rest.
pub struct ChipContext {
    /// 4096 bytes of memory.
    pub memory: Vec<u8>,
    /// The sixteen registers `V0`..`VF`.
    pub v: Vec<u8>,
    /// The delay timer.
    pub dt: u8,
    /// The sound timer.
    pub st: u8,
    /// The program counter.
    pub pc: u16,
    /// The stack pointer.
    pub sp: u8,
    /// The index register `I`.
    pub i: u16,
    /// The call stack.
    pub stack: Vec<u16>,
    /// The pixel grid, flattened; pixel `(x, y)` lives at `x * 32 + y`.
    pub framebuffer: Vec<bool>,
    /// The sixteen key flags.
    pub keyboard: Vec<bool>,
}

impl View for ChipContext {
    type V = Chip8State;

    open spec fn view(&self) -> Chip8State {
        Chip8State {
            mem: self.memory@,
            v: self.v@,
            dt: self.dt,
            st: self.st,
            pc: self.pc,
            sp: self.sp,
            i: self.i,
            stack: self.stack@,
            fb: self.framebuffer@,
            keys: self.keyboard@,
        }
    }
}

/// A vector of `n` copies of `value`.
fn filled<T: Copy>(n: usize, value: T) -> (r: Vec<T>)
    ensures
        r@.len() == n,
        forall|k: int| 0 <= k < n ==> r@[k] == value,
{
    let mut r: Vec<T> = Vec::new();
    let mut j: usize = 0;
    while j < n
        invariant
            j <= n,
            r@.len() == j,
            forall|k: int| 0 <= k < j ==> r@[k] == value,
        decreases n - j,
    {
        r.push(value);
        j = j + 1;
    }
    r
}

impl ChipContext {
    /// The machine at startup: zero-initialized in every component.
    pub fn new() -> (c: ChipContext)
        ensures
            c@ == Chip8State::initial(),
            c@.wf(),
    {
        let c = ChipContext {
            memory: filled(MEMORY_SIZE, 0u8),
            v: filled(NUM_REGISTERS, 0u8),
            dt: 0,
            st: 0,
            pc: 0,
            sp: 0,
            i: 0,
            stack: filled(STACK_SIZE, 0u16),
            framebuffer: filled(SCREEN_PIXELS, false),
            keyboard: filled(NUM_KEYS, false),
        };
        proof {
            assert(c@ =~~= Chip8State::initial());
        }
        c
    }

    /// Preload the sixteen font glyphs at the font base offset; the
    /// rest of the machine is untouched.
    pub fn load_font(&mut self)
        requires
            old(self)@.wf(),
        ensures
            final(self)@.wf(),
            final(self)@ == (Chip8State { mem: font_loaded(old(self)@.mem), ..old(self)@ }),
    {
        let font: [u8; 80] = [
            0xF0, 0x90, 0x90, 0x90, 0xF0,
            0x20, 0x60, 0x20, 0x20, 0x70,
            0xF0, 0x10, 0xF0, 0x80, 0xF0,
            0xF0, 0x10, 0xF0, 0x10, 0xF0,
            0x90, 0x90, 0xF0, 0x10, 0x10,
            0xF0, 0x80, 0xF0, 0x10, 0xF0,
            0xF0, 0x80, 0xF0, 0x90, 0xF0,
            0xF0, 0x10, 0x20, 0x40, 0x40,
            0xF0, 0x90, 0xF0, 0x90, 0xF0,
            0xF0, 0x90, 0xF0, 0x10, 0xF0,
            0xF0, 0x90, 0xF0, 0x90, 0x90,
            0xE0, 0x90, 0xE0, 0x90, 0xE0,
            0xF0, 0x80, 0x80, 0x80, 0xF0,
            0xE0, 0x90, 0x90, 0x90, 0xE0,
            0xF0, 0x80, 0xF0, 0x80, 0xF0,
            0xF0, 0x80, 0xF0, 0x80, 0x80,
        ];
        proof {
            assert(font@ =~= font_seq());
        }
        let mut k: usize = 0;
        while k < 80
            invariant
                old(self)@.wf(),
                k <= 80,
                font@ == font_seq(),
                self.memory@.len() == 4096,
                self.v@ == old(self)@.v,
                self.dt == old(self)@.dt,
                self.st == old(self)@.st,
                self.pc == old(self)@.pc,
                self.sp == old(self)@.sp,
                self.i == old(self)@.i,
                self.stack@ == old(self)@.stack,
                self.framebuffer@ == old(self)@.fb,
                self.keyboard@ == old(self)@.keys,
                forall|a: int|
                    0 <= a < 4096 && !(0x50 <= a < 0x50 + k) ==> self.memory@[a] == old(
                        self,
                    )@.mem[a],
                forall|a: int| 0x50 <= a < 0x50 + k ==> self.memory@[a] == font_seq()[a - 0x50],
            decreases 80 - k,
        {
            self.memory.set(0x50 + k, font[k]);
            k = k + 1;
        }
        proof {
            assert(self@ =~~= (Chip8State { mem: font_loaded(old(self)@.mem), ..old(self)@ }));
        }
    }

    /// Copy a ROM image into memory at the ROM base offset and point
    /// the program counter there, or reject an image longer than the
    /// memory past that offset with the machine unchanged.
    pub fn load_rom(&mut self, rom: &Vec<u8>) -> (r: Result<(), Chip8Error>)
        requires
            old(self)@.wf(),
        ensures
            final(self)@.wf(),
            applies(spec_load_rom(old(self)@, rom@), old(self)@, final(self)@, r),
    {
        if rom.len() > MEMORY_SIZE - ROM_BASE as usize {
            return Err(Chip8Error::OutOfBoundsAccess);
        }
        let mut k: usize = 0;
        while k < rom.len()
            invariant
                old(self)@.wf(),
                rom@.len() <= 3584,
                k <= rom@.len(),
                self.memory@.len() == 4096,
                self.v@ == old(self)@.v,
                self.dt == old(self)@.dt,
                self.st == old(self)@.st,
                self.pc == old(self)@.pc,
                self.sp == old(self)@.sp,
                self.i == old(self)@.i,
                self.stack@ == old(self)@.stack,
                self.framebuffer@ == old(self)@.fb,
                self.keyboard@ == old(self)@.keys,
                forall|a: int|
                    0 <= a < 4096 && !(0x200 <= a < 0x200 + k) ==> self.memory@[a] == old(
                        self,
                    )@.mem[a],
                forall|a: int| 0x200 <= a < 0x200 + k ==> self.memory@[a] == rom@[a - 0x200],
            decreases rom@.len() - k,
        {
            self.memory.set(0x200 + k, rom[k]);
            k = k + 1;
        }
        self.pc = 0x200;
        proof {
            assert(self@ =~~= spec_load_rom(old(self)@, rom@)->Ok_0);
        }
        Ok(())
    }

    /// Reads pixel `(x, y)` of the display.
    pub fn get_pixel(&self, x: usize, y: usize) -> (on: bool)
        requires
            self@.wf(),
            x < SCREEN_WIDTH,
            y < SCREEN_HEIGHT,
        ensures
            on == self@.fb[pixel_index(x as int, y as int)],
    {
        self.framebuffer[x * 32 + y]
    }
}

} // verus!

use vstd::prelude::*;

verus! {

/// Size of the address space in bytes.
pub const MEMORY_SIZE: usize = 4096;

/// Address at which programs are loaded and execution starts.
pub const PROGRAM_START: usize = 0x200;

/// Width of the framebuffer in pixels.
pub const SCREEN_WIDTH: usize = 64;

/// Height of the framebuffer in pixels.
pub const SCREEN_HEIGHT: usize = 32;

/// Number of pixels in the framebuffer.
pub const SCREEN_PIXELS: usize = 2048;

/// The dialect whose behaviour the machine follows where dialects disagree.
#[derive(Debug, Clone, Copy, PartialEq, Eq, Structural)]
pub enum CpuType {
    /// The COSMAC VIP interpreter of 1977.
    Chip8,
    /// SUPER-CHIP.
    Schip,
    /// XO-CHIP.
    XoChip,
}

/// The conditions that halt the machine.
#[derive(Debug, Clone, Copy, PartialEq, Eq, Structural)]
pub enum Chip8Error {
    /// A return was executed with an empty call stack.
    StackUnderflow,
    /// A fetch, sprite read or bulk transfer reached past the last address.
    MemoryOutOfBounds,
    /// A program does not fit between the load address and the end of memory.
    ProgramTooLarge,
}

/// The mathematical model of the whole machine state.
pub struct CpuState {
    pub memory: Seq<u8>,
    pub v: Seq<u8>,
    pub i: u16,
    pub pc: u16,
    pub gfx: Seq<u8>,
    pub delay_timer: u8,
    pub sound_timer: u8,
    pub stack: Seq<u16>,
    pub draw_flag: bool,
    pub sound_flag: bool,
    pub keys_held: Seq<bool>,
    pub key_pressed: Option<u8>,
    pub cpu_type: CpuType,
}

/// The 16 built-in hexadecimal glyphs, five rows of four pixels each.
pub open spec fn font_glyphs() -> Seq<u8> {
    seq![
        0xF0u8, 0x90, 0x90, 0x90, 0xF0, 0x20, 0x60, 0x20, 0x20, 0x70,
        0xF0, 0x10, 0xF0, 0x80, 0xF0, 0xF0, 0x10, 0xF0, 0x10, 0xF0,
        0x90, 0x90, 0xF0, 0x10, 0x10, 0xF0, 0x80, 0xF0, 0x10, 0xF0,
        0xF0, 0x80, 0xF0, 0x90, 0xF0, 0xF0, 0x10, 0x20, 0x40, 0x40,
        0xF0, 0x90, 0xF0, 0x90, 0xF0, 0xF0, 0x90, 0xF0, 0x10, 0xF0,
        0xF0, 0x90, 0xF0, 0x90, 0x90, 0xE0, 0x90, 0xE0, 0x90, 0xE0,
        0xF0, 0x80, 0x80, 0x80, 0xF0, 0xE0, 0x90, 0x90, 0x90, 0xE0,
        0xF0, 0x80, 0xF0, 0x80, 0xF0, 0xF0, 0x80, 0xF0, 0x80, 0x80,
    ]
}

impl CpuState {
    /// The sizes that every part of the machine keeps.
    pub open spec fn wf(self) -> bool {
        &&& self.memory.len() == MEMORY_SIZE
        &&& self.v.len() == 16
        &&& self.gfx.len() == SCREEN_PIXELS
        &&& pixels_binary(self.gfx)
        &&& self.keys_held.len() == 16
    }

    /// Register `x`.
    pub open spec fn reg(self, x: u8) -> u8 {
        self.v[x as int]
    }

    /// The state with register `x` set to `val`.
    pub open spec fn set_reg(self, x: u8, val: u8) -> CpuState {
        CpuState { v: self.v.update(x as int, val), ..self }
    }

    /// The state with the program counter moved to `pc`.
    pub open spec fn jump(self, pc: u16) -> CpuState {
        CpuState { pc, ..self }
    }

    /// The state with the next instruction skipped when `cond` holds.
    pub open spec fn skip_if(self, cond: bool) -> CpuState {
        if cond {
            self.jump(pc_plus_2(self.pc))
        } else {
            self
        }
    }

    /// Whether key `k` is currently held; values above 0xF name no key.
    pub open spec fn held(self, k: u8) -> bool {
        k < 16 && self.keys_held[k as int]
    }

    /// The pixel at column `px` and row `py`.
    pub open spec fn pixel(self, px: int, py: int) -> u8 {
        self.gfx[px + 64 * py]
    }
}

/// The program counter two bytes further on, in 16-bit arithmetic.
pub open spec fn pc_plus_2(pc: u16) -> u16 {
    ((pc + 2) % 0x10000) as u16
}

/// The program counter two bytes back, in 16-bit arithmetic.
pub open spec fn pc_minus_2(pc: u16) -> u16 {
    ((pc - 2 + 0x10000) % 0x10000) as u16
}

/// Whether every pixel holds 0 or 1.
pub open spec fn pixels_binary(gfx: Seq<u8>) -> bool {
    forall|p: int| 0 <= p < gfx.len() ==> #[trigger] gfx[p] <= 1
}

/// A blank framebuffer.
pub open spec fn blank_screen() -> Seq<u8> {
    Seq::new(SCREEN_PIXELS as nat, |p: int| 0u8)
}

} // verus!

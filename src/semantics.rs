use vstd::prelude::*;
use crate::instruction::Instruction;
use crate::state::{
    CpuState, CpuType, Chip8Error, MEMORY_SIZE, SCREEN_PIXELS, blank_screen, pc_minus_2,
};

verus! {

/// `00E0`: every pixel off, and a redraw requested.
pub open spec fn clear_screen(s: CpuState) -> CpuState {
    CpuState { gfx: blank_screen(), draw_flag: true, ..s }
}

/// `00EE`: return to the address on top of the call stack.
pub open spec fn return_from(s: CpuState) -> Result<CpuState, Chip8Error> {
    if s.stack.len() == 0 {
        Err(Chip8Error::StackUnderflow)
    } else {
        Ok(CpuState { pc: s.stack.last(), stack: s.stack.drop_last(), ..s })
    }
}

/// `2nnn`: push the program counter and jump to `nnn`.
pub open spec fn call(s: CpuState, nnn: u16) -> CpuState {
    CpuState { stack: s.stack.push(s.pc), pc: nnn, ..s }
}

/// `8xy1`, `8xy2`, `8xy3`: the bitwise result, with VF cleared.
pub open spec fn bitwise(s: CpuState, x: u8, val: u8) -> CpuState {
    s.set_reg(x, val).set_reg(15, 0)
}

/// `8xy4`: the sum modulo 256, VF set exactly when the sum passes 255.
pub open spec fn add_regs(s: CpuState, x: u8, y: u8) -> CpuState {
    let sum = s.reg(x) + s.reg(y);
    s.set_reg(x, (sum % 256) as u8).set_reg(15, if sum > 255 { 1u8 } else { 0u8 })
}

/// `a - b` modulo 256.
pub open spec fn sub_mod(a: u8, b: u8) -> u8 {
    ((a - b + 256) % 256) as u8
}

/// `8xy5`: Vx - Vy modulo 256, VF set exactly when nothing was borrowed.
pub open spec fn sub_regs(s: CpuState, x: u8, y: u8) -> CpuState {
    s.set_reg(x, sub_mod(s.reg(x), s.reg(y))).set_reg(15, if s.reg(x) >= s.reg(y) { 1u8 } else { 0u8 })
}

/// `8xy7`: Vy - Vx modulo 256, VF set exactly when nothing was borrowed.
pub open spec fn subn_regs(s: CpuState, x: u8, y: u8) -> CpuState {
    s.set_reg(x, sub_mod(s.reg(y), s.reg(x))).set_reg(15, if s.reg(y) >= s.reg(x) { 1u8 } else { 0u8 })
}

/// The register that a shift reads: Vx under SUPER-CHIP, Vy otherwise.
pub open spec fn shift_source(s: CpuState, x: u8, y: u8) -> u8 {
    if s.cpu_type == CpuType::Schip { s.reg(x) } else { s.reg(y) }
}

/// `8xy6`: the source halved, VF the bit shifted out.
pub open spec fn shift_right(s: CpuState, x: u8, y: u8) -> CpuState {
    let src = shift_source(s, x, y);
    s.set_reg(x, src / 2).set_reg(15, src % 2)
}

/// `8xyE`: the source doubled modulo 256, VF the bit shifted out.
pub open spec fn shift_left(s: CpuState, x: u8, y: u8) -> CpuState {
    let src = shift_source(s, x, y);
    s.set_reg(x, ((src * 2) % 256) as u8).set_reg(15, src / 128)
}

/// The register that `Bnnn` adds: V0 on legacy CHIP-8, Vx otherwise.
pub open spec fn jump_offset_reg(t: CpuType, x: u8) -> u8 {
    if t == CpuType::Chip8 { 0 } else { x }
}

/// `Bnnn`: jump to `nnn` plus the offset register.
pub open spec fn jump_offset(s: CpuState, x: u8, nnn: u16) -> CpuState {
    s.jump((nnn + s.reg(jump_offset_reg(s.cpu_type, x))) as u16)
}

/// Whether sprites wrap round the screen edges rather than being clipped.
pub open spec fn wraps(t: CpuType) -> bool {
    t == CpuType::XoChip
}

/// The sprite column that lands on screen column `px` for a sprite at `xc`.
pub open spec fn sprite_col(t: CpuType, xc: int, px: int) -> int {
    let d = px - xc;
    if wraps(t) && d < 0 { d + 64 } else { d }
}

/// The sprite row that lands on screen row `py` for a sprite at `yc`.
pub open spec fn sprite_row(t: CpuType, yc: int, py: int) -> int {
    let d = py - yc;
    if wraps(t) && d < 0 { d + 32 } else { d }
}

/// Bit `col` of a sprite row, counted from the most significant bit.
pub open spec fn sprite_bit(b: u8, col: int) -> bool {
    b & (0x80u8 >> (col as u8)) != 0
}

/// Whether an `n`-row sprite read from I and placed at (`xc`, `yc`) has a set
/// bit on screen column `px`, row `py`.
pub open spec fn sprite_hit(s: CpuState, xc: int, yc: int, n: int, px: int, py: int) -> bool {
    let col = sprite_col(s.cpu_type, xc, px);
    let row = sprite_row(s.cpu_type, yc, py);
    &&& 0 <= col < 8
    &&& 0 <= row < n
    &&& sprite_bit(s.memory[s.i + row], col)
}

/// `sprite_hit` at the pixel of flat index `p`.
pub open spec fn hit_at(s: CpuState, xc: int, yc: int, n: int, p: int) -> bool {
    sprite_hit(s, xc, yc, n, p % 64, p / 64)
}

/// The framebuffer with every pixel under a set sprite bit flipped.
pub open spec fn drawn_screen(s: CpuState, xc: int, yc: int, n: int) -> Seq<u8> {
    Seq::new(
        SCREEN_PIXELS as nat,
        |p: int| if hit_at(s, xc, yc, n, p) { s.gfx[p] ^ 1 } else { s.gfx[p] },
    )
}

/// Whether the sprite turns off a pixel that was on.
pub open spec fn draw_collides(s: CpuState, xc: int, yc: int, n: int) -> bool {
    exists|p: int| 0 <= p < SCREEN_PIXELS && #[trigger] hit_at(s, xc, yc, n, p) && s.gfx[p] == 1
}

/// `Dxyn`: XOR an `n`-row sprite from memory at I onto the screen at
/// (Vx mod 64, Vy mod 32); VF is 1 exactly when a pixel was turned off.
pub open spec fn draw(s: CpuState, x: u8, y: u8, n: u8) -> Result<CpuState, Chip8Error> {
    let xc = s.reg(x) % 64;
    let yc = s.reg(y) % 32;
    if s.i + n > MEMORY_SIZE {
        Err(Chip8Error::MemoryOutOfBounds)
    } else {
        Ok(CpuState { gfx: drawn_screen(s, xc as int, yc as int, n as int), draw_flag: true, ..s }.set_reg(
            15,
            if draw_collides(s, xc as int, yc as int, n as int) { 1u8 } else { 0u8 },
        ))
    }
}

/// `Fx0A`: take the newly pressed key, or go back to wait for one.
pub open spec fn wait_key(s: CpuState, x: u8) -> CpuState {
    match s.key_pressed {
        Some(k) => s.set_reg(x, k),
        None => s.jump(pc_minus_2(s.pc)),
    }
}

/// `Fx33`: the three decimal digits of Vx at I, I+1, I+2.
pub open spec fn store_bcd(s: CpuState, x: u8) -> Result<CpuState, Chip8Error> {
    let val = s.reg(x);
    if s.i + 2 >= MEMORY_SIZE {
        Err(Chip8Error::MemoryOutOfBounds)
    } else {
        Ok(CpuState {
            memory: s.memory.update(s.i as int, val / 100).update(s.i + 1, (val / 10) % 10).update(
                s.i + 2,
                val % 10,
            ),
            ..s
        })
    }
}

/// The index register after a bulk transfer: one further on under XO-CHIP.
pub open spec fn index_after_transfer(t: CpuType, i: u16) -> u16 {
    if t == CpuType::XoChip { (i + 1) as u16 } else { i }
}

/// `Fx55`: V0..=Vx copied to memory from I on.
pub open spec fn store_regs(s: CpuState, x: u8) -> Result<CpuState, Chip8Error> {
    if s.i + x >= MEMORY_SIZE {
        Err(Chip8Error::MemoryOutOfBounds)
    } else {
        Ok(CpuState {
            memory: Seq::new(
                MEMORY_SIZE as nat,
                |a: int| if s.i <= a <= s.i + x { s.v[a - s.i] } else { s.memory[a] },
            ),
            i: index_after_transfer(s.cpu_type, s.i),
            ..s
        })
    }
}

/// `Fx65`: V0..=Vx copied from memory from I on.
pub open spec fn load_regs(s: CpuState, x: u8) -> Result<CpuState, Chip8Error> {
    if s.i + x >= MEMORY_SIZE {
        Err(Chip8Error::MemoryOutOfBounds)
    } else {
        Ok(CpuState {
            v: Seq::new(16, |r: int| if r <= x { s.memory[s.i + r] } else { s.v[r] }),
            i: index_after_transfer(s.cpu_type, s.i),
            ..s
        })
    }
}

/// Whether `ins` is one of the instructions the machine knows.
pub open spec fn is_known(ins: Instruction) -> bool {
    match ins.op {
        0x0 => ins.nnn == 0x0E0 || ins.nnn == 0x0EE,
        0x5 | 0x9 => ins.n == 0,
        0x8 => ins.n <= 7 || ins.n == 0xE,
        0xE => ins.nn == 0x9E || ins.nn == 0xA1,
        0xF => ins.nn == 0x07 || ins.nn == 0x0A || ins.nn == 0x15 || ins.nn == 0x18
            || ins.nn == 0x1E || ins.nn == 0x29 || ins.nn == 0x33 || ins.nn == 0x55
            || ins.nn == 0x65,
        _ => ins.op < 16,
    }
}

/// The state after executing `ins`, where `rnd` is the random byte that
/// `Cxnn` draws; an unknown instruction changes nothing.
pub open spec fn exec(s: CpuState, ins: Instruction, rnd: u8) -> Result<CpuState, Chip8Error> {
    let x = ins.x;
    let y = ins.y;
    let nn = ins.nn;
    let nnn = ins.nnn;
    if !is_known(ins) {
        Ok(s)
    } else {
        match ins.op {
            0x0 => if nnn == 0x0E0 { Ok(clear_screen(s)) } else { return_from(s) },
            0x1 => Ok(s.jump(nnn)),
            0x2 => Ok(call(s, nnn)),
            0x3 => Ok(s.skip_if(s.reg(x) == nn)),
            0x4 => Ok(s.skip_if(s.reg(x) != nn)),
            0x5 => Ok(s.skip_if(s.reg(x) == s.reg(y))),
            0x6 => Ok(s.set_reg(x, nn)),
            0x7 => Ok(s.set_reg(x, ((s.reg(x) + nn) % 256) as u8)),
            0x8 => match ins.n {
                0x0 => Ok(s.set_reg(x, s.reg(y))),
                0x1 => Ok(bitwise(s, x, s.reg(x) | s.reg(y))),
                0x2 => Ok(bitwise(s, x, s.reg(x) & s.reg(y))),
                0x3 => Ok(bitwise(s, x, s.reg(x) ^ s.reg(y))),
                0x4 => Ok(add_regs(s, x, y)),
                0x5 => Ok(sub_regs(s, x, y)),
                0x6 => Ok(shift_right(s, x, y)),
                0x7 => Ok(subn_regs(s, x, y)),
                _ => Ok(shift_left(s, x, y)),
            },
            0x9 => Ok(s.skip_if(s.reg(x) != s.reg(y))),
            0xA => Ok(CpuState { i: nnn, ..s }),
            0xB => Ok(jump_offset(s, x, nnn)),
            0xC => Ok(s.set_reg(x, rnd & nn)),
            0xD => draw(s, x, y, ins.n),
            0xE => Ok(s.skip_if(if nn == 0x9E { s.held(s.reg(x)) } else { !s.held(s.reg(x)) })),
            _ => if nn == 0x07 {
                Ok(s.set_reg(x, s.delay_timer))
            } else if nn == 0x0A {
                Ok(wait_key(s, x))
            } else if nn == 0x15 {
                Ok(CpuState { delay_timer: s.reg(x), ..s })
            } else if nn == 0x18 {
                Ok(CpuState { sound_timer: s.reg(x), ..s })
            } else if nn == 0x1E {
                Ok(CpuState { i: ((s.i + s.reg(x)) % 0x10000) as u16, ..s })
            } else if nn == 0x29 {
                // the glyph of the low hexadecimal digit of Vx
                Ok(CpuState { i: (5 * (s.reg(x) % 16)) as u16, ..s })
            } else if nn == 0x33 {
                store_bcd(s, x)
            } else if nn == 0x55 {
                store_regs(s, x)
            } else {
                load_regs(s, x)
            },
        }
    }
}

} // verus!

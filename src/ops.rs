use vstd::prelude::*;
use crate::cpu::CPU;
use crate::semantics::{
    add_regs, bitwise, call, clear_screen, draw, draw_collides, drawn_screen, hit_at, jump_offset,
    load_regs, return_from, shift_left, shift_right, sprite_bit, sprite_col, sprite_row,
    store_bcd, store_regs, sub_regs, subn_regs, wait_key, wraps,
};
use crate::state::{CpuState, CpuType, Chip8Error, MEMORY_SIZE, SCREEN_PIXELS, blank_screen};

verus! {

impl CPU {
    /// Sets register `x`.
    fn set_v(&mut self, x: u8, val: u8)
        requires
            old(self)@.wf(),
            x < 16,
        ensures
            final(self)@ == old(self)@.set_reg(x, val),
    {
        self.v[x as usize] = val;
    }

    /// Skips the next instruction when `cond` holds.
    fn skip_if(&mut self, cond: bool)
        ensures
            final(self)@ == old(self)@.skip_if(cond),
    {
        if cond {
            self.pc = self.pc.wrapping_add(2);
        }
    }

    /// CLS
    pub(crate) fn e_00e0(&mut self)
        requires
            old(self)@.wf(),
        ensures
            final(self)@ == clear_screen(old(self)@),
    {
        let mut p: usize = 0;
        while p < SCREEN_PIXELS
            invariant
                p <= SCREEN_PIXELS,
                self@ == (CpuState { gfx: self.gfx@, ..old(self)@ }),
                self.gfx@.len() == SCREEN_PIXELS,
                forall|q: int| 0 <= q < p ==> self.gfx@[q] == 0,
            decreases SCREEN_PIXELS - p,
        {
            self.gfx[p] = 0;
            p = p + 1;
        }
        assert(self.gfx@ =~= blank_screen());
        self.draw_flag = true;
    }

    /// JP addr
    pub(crate) fn e_1nnn(&mut self, nnn: u16)
        ensures
            final(self)@ == old(self)@.jump(nnn),
    {
        self.pc = nnn;
    }

    /// RET
    pub(crate) fn e_00ee(&mut self) -> (r: Result<(), Chip8Error>)
        ensures
            match return_from(old(self)@) {
                Ok(s) => r is Ok && final(self)@ == s,
                Err(e) => r == Err::<(), Chip8Error>(e) && final(self)@ == old(self)@,
            },
    {
        match self.stack.pop() {
            Some(addr) => {
                self.pc = addr;
                Ok(())
            },
            None => Err(Chip8Error::StackUnderflow),
        }
    }

    /// CALL addr
    pub(crate) fn e_2nnn(&mut self, nnn: u16)
        ensures
            final(self)@ == call(old(self)@, nnn),
    {
        self.stack.push(self.pc);
        self.pc = nnn;
    }

    /// SE Vx, byte
    pub(crate) fn e_3xnn(&mut self, x: u8, nn: u8)
        requires
            old(self)@.wf(),
            x < 16,
        ensures
            final(self)@ == old(self)@.skip_if(old(self)@.reg(x) == nn),
    {
        let c = self.v[x as usize] == nn;
        self.skip_if(c);
    }

    /// SNE Vx, byte
    pub(crate) fn e_4xnn(&mut self, x: u8, nn: u8)
        requires
            old(self)@.wf(),
            x < 16,
        ensures
            final(self)@ == old(self)@.skip_if(old(self)@.reg(x) != nn),
    {
        let c = self.v[x as usize] != nn;
        self.skip_if(c);
    }

    /// SE Vx, Vy
    pub(crate) fn e_5xy0(&mut self, x: u8, y: u8)
        requires
            old(self)@.wf(),
            x < 16,
            y < 16,
        ensures
            final(self)@ == old(self)@.skip_if(old(self)@.reg(x) == old(self)@.reg(y)),
    {
        let c = self.v[x as usize] == self.v[y as usize];
        self.skip_if(c);
    }

    /// SNE Vx, Vy
    pub(crate) fn e_9xy0(&mut self, x: u8, y: u8)
        requires
            old(self)@.wf(),
            x < 16,
            y < 16,
        ensures
            final(self)@ == old(self)@.skip_if(old(self)@.reg(x) != old(self)@.reg(y)),
    {
        let c = self.v[x as usize] != self.v[y as usize];
        self.skip_if(c);
    }

    /// LD Vx, byte
    pub(crate) fn e_6xnn(&mut self, x: u8, nn: u8)
        requires
            old(self)@.wf(),
            x < 16,
        ensures
            final(self)@ == old(self)@.set_reg(x, nn),
    {
        self.set_v(x, nn);
    }

    /// ADD Vx, byte
    pub(crate) fn e_7xnn(&mut self, x: u8, nn: u8)
        requires
            old(self)@.wf(),
            x < 16,
        ensures
            final(self)@ == old(self)@.set_reg(x, ((old(self)@.reg(x) + nn) % 256) as u8),
    {
        let val = ((self.v[x as usize] as u16 + nn as u16) & 0xFF) as u8;
        assert(forall|a: u16| #![auto] a & 0xFF == a % 256) by (bit_vector);
        self.set_v(x, val);
    }

    /// LD Vx, Vy
    pub(crate) fn e_8xy0(&mut self, x: u8, y: u8)
        requires
            old(self)@.wf(),
            x < 16,
            y < 16,
        ensures
            final(self)@ == old(self)@.set_reg(x, old(self)@.reg(y)),
    {
        let val = self.v[y as usize];
        self.set_v(x, val);
    }

    /// OR Vx, Vy
    pub(crate) fn e_8xy1(&mut self, x: u8, y: u8)
        requires
            old(self)@.wf(),
            x < 16,
            y < 16,
        ensures
            final(self)@ == bitwise(old(self)@, x, old(self)@.reg(x) | old(self)@.reg(y)),
    {
        let val = self.v[x as usize] | self.v[y as usize];
        self.set_v(x, val);
        self.set_v(0xF, 0);
    }

    /// AND Vx, Vy
    pub(crate) fn e_8xy2(&mut self, x: u8, y: u8)
        requires
            old(self)@.wf(),
            x < 16,
            y < 16,
        ensures
            final(self)@ == bitwise(old(self)@, x, old(self)@.reg(x) & old(self)@.reg(y)),
    {
        let val = self.v[x as usize] & self.v[y as usize];
        self.set_v(x, val);
        self.set_v(0xF, 0);
    }

    /// XOR Vx, Vy
    pub(crate) fn e_8xy3(&mut self, x: u8, y: u8)
        requires
            old(self)@.wf(),
            x < 16,
            y < 16,
        ensures
            final(self)@ == bitwise(old(self)@, x, old(self)@.reg(x) ^ old(self)@.reg(y)),
    {
        let val = self.v[x as usize] ^ self.v[y as usize];
        self.set_v(x, val);
        self.set_v(0xF, 0);
    }

    /// ADD Vx, Vy
    pub(crate) fn e_8xy4(&mut self, x: u8, y: u8)
        requires
            old(self)@.wf(),
            x < 16,
            y < 16,
        ensures
            final(self)@ == add_regs(old(self)@, x, y),
    {
        let a = self.v[x as usize];
        let b = self.v[y as usize];
        let sum = a as u16 + b as u16;
        let overflowed = sum > 255;
        let wrapped: u8 = if overflowed { (sum - 256) as u8 } else { sum as u8 };
        self.set_v(x, wrapped);
        if overflowed {
            self.set_v(0xF, 1);
        } else {
            self.set_v(0xF, 0);
        }
    }

    /// SUB Vx, Vy
    pub(crate) fn e_8xy5(&mut self, x: u8, y: u8)
        requires
            old(self)@.wf(),
            x < 16,
            y < 16,
        ensures
            final(self)@ == sub_regs(old(self)@, x, y),
    {
        let a = self.v[x as usize];
        let b = self.v[y as usize];
        let no_borrow = a >= b;
        let diff: u8 = if no_borrow { a - b } else { (a as u16 + 256 - b as u16) as u8 };
        self.set_v(x, diff);
        if no_borrow {
            self.set_v(0xF, 1);
        } else {
            self.set_v(0xF, 0);
        }
    }

    /// SUBN Vx, Vy
    pub(crate) fn e_8xy7(&mut self, x: u8, y: u8)
        requires
            old(self)@.wf(),
            x < 16,
            y < 16,
        ensures
            final(self)@ == subn_regs(old(self)@, x, y),
    {
        let a = self.v[y as usize];
        let b = self.v[x as usize];
        let no_borrow = a >= b;
        let diff: u8 = if no_borrow { a - b } else { (a as u16 + 256 - b as u16) as u8 };
        self.set_v(x, diff);
        if no_borrow {
            self.set_v(0xF, 1);
        } else {
            self.set_v(0xF, 0);
        }
    }

    /// SHR Vx {, Vy}
    pub(crate) fn e_8xy6(&mut self, x: u8, y: u8)
        requires
            old(self)@.wf(),
            x < 16,
            y < 16,
        ensures
            final(self)@ == shift_right(old(self)@, x, y),
    {
        let src = match self.cpu_type {
            CpuType::Schip => self.v[x as usize],
            _ => self.v[y as usize],
        };
        let flag_bit = src & 1;
        assert(src & 1 == src % 2) by (bit_vector);
        assert(src >> 1u8 == src / 2) by (bit_vector);
        self.set_v(x, src >> 1);
        self.set_v(0xF, flag_bit);
    }

    /// SHL Vx {, Vy}
    pub(crate) fn e_8xye(&mut self, x: u8, y: u8)
        requires
            old(self)@.wf(),
            x < 16,
            y < 16,
        ensures
            final(self)@ == shift_left(old(self)@, x, y),
    {
        let src = match self.cpu_type {
            CpuType::Schip => self.v[x as usize],
            _ => self.v[y as usize],
        };
        let flag_bit: u8 = if src & 0x80 == 0x80 { 1 } else { 0 };
        assert((src & 0x80 == 0x80) == (src / 128 == 1)) by (bit_vector);
        assert(src / 128 <= 1) by (bit_vector);
        assert(src << 1u8 == (src * 2) % 256) by (bit_vector);
        self.set_v(x, src << 1);
        self.set_v(0xF, flag_bit);
    }

    /// LD I, addr
    pub(crate) fn e_annn(&mut self, nnn: u16)
        ensures
            final(self)@ == (CpuState { i: nnn, ..old(self)@ }),
    {
        self.i = nnn;
    }

    /// JP V0, addr
    pub(crate) fn e_bnnn(&mut self, x: u8, nnn: u16)
        requires
            old(self)@.wf(),
            x < 16,
            nnn < 4096,
        ensures
            final(self)@ == jump_offset(old(self)@, x, nnn),
    {
        let offset = match self.cpu_type {
            CpuType::Chip8 => self.v[0],
            _ => self.v[x as usize],
        };
        self.pc = nnn + offset as u16;
    }

    /// RND Vx, byte, with `rnd` the random byte drawn.
    pub(crate) fn e_cxnn(&mut self, x: u8, nn: u8, rnd: u8)
        requires
            old(self)@.wf(),
            x < 16,
        ensures
            final(self)@ == old(self)@.set_reg(x, rnd & nn),
    {
        self.set_v(x, rnd & nn);
    }

    /// SKP Vx
    pub(crate) fn e_ex9e(&mut self, x: u8)
        requires
            old(self)@.wf(),
            x < 16,
        ensures
            final(self)@ == old(self)@.skip_if(old(self)@.held(old(self)@.reg(x))),
    {
        let k = self.v[x as usize];
        let c = k < 16 && self.keys_held[k as usize];
        self.skip_if(c);
    }

    /// SKNP Vx
    pub(crate) fn e_exa1(&mut self, x: u8)
        requires
            old(self)@.wf(),
            x < 16,
        ensures
            final(self)@ == old(self)@.skip_if(!old(self)@.held(old(self)@.reg(x))),
    {
        let k = self.v[x as usize];
        let c = !(k < 16 && self.keys_held[k as usize]);
        self.skip_if(c);
    }

    /// LD Vx, DT
    pub(crate) fn e_fx07(&mut self, x: u8)
        requires
            old(self)@.wf(),
            x < 16,
        ensures
            final(self)@ == old(self)@.set_reg(x, old(self)@.delay_timer),
    {
        let val = self.delay_timer;
        self.set_v(x, val);
    }

    /// LD DT, Vx
    pub(crate) fn e_fx15(&mut self, x: u8)
        requires
            old(self)@.wf(),
            x < 16,
        ensures
            final(self)@ == (CpuState { delay_timer: old(self)@.reg(x), ..old(self)@ }),
    {
        self.delay_timer = self.v[x as usize];
    }

    /// LD ST, Vx
    pub(crate) fn e_fx18(&mut self, x: u8)
        requires
            old(self)@.wf(),
            x < 16,
        ensures
            final(self)@ == (CpuState { sound_timer: old(self)@.reg(x), ..old(self)@ }),
    {
        self.sound_timer = self.v[x as usize];
    }

    /// ADD I, Vx
    pub(crate) fn e_fx1e(&mut self, x: u8)
        requires
            old(self)@.wf(),
            x < 16,
        ensures
            final(self)@ == (CpuState { i: ((old(self)@.i + old(self)@.reg(x)) % 0x10000) as u16, ..old(self)@ }),
    {
        self.i = self.i.wrapping_add(self.v[x as usize] as u16);
    }

    /// LD Vx, K
    pub(crate) fn e_fx0a(&mut self, x: u8)
        requires
            old(self)@.wf(),
            x < 16,
        ensures
            final(self)@ == wait_key(old(self)@, x),
    {
        match self.key_pressed {
            Some(key) => self.set_v(x, key),
            None => {
                self.pc = self.pc.wrapping_sub(2);
            },
        }
    }

    /// LD F, Vx
    pub(crate) fn e_fx29(&mut self, x: u8)
        requires
            old(self)@.wf(),
            x < 16,
        ensures
            final(self)@ == (CpuState { i: (5 * (old(self)@.reg(x) % 16)) as u16, ..old(self)@ }),
    {
        self.i = 5 * (self.v[x as usize] % 16) as u16;
    }

    /// LD B, Vx
    pub(crate) fn e_fx33(&mut self, x: u8) -> (r: Result<(), Chip8Error>)
        requires
            old(self)@.wf(),
            x < 16,
        ensures
            match store_bcd(old(self)@, x) {
                Ok(s) => r is Ok && final(self)@ == s,
                Err(e) => r == Err::<(), Chip8Error>(e) && final(self)@ == old(self)@,
            },
    {
        let i = self.i as usize;
        if i + 2 >= MEMORY_SIZE {
            return Err(Chip8Error::MemoryOutOfBounds);
        }
        let val = self.v[x as usize];
        self.memory[i] = val / 100;
        self.memory[i + 1] = (val / 10) % 10;
        self.memory[i + 2] = val % 10;
        Ok(())
    }

    /// LD [I], Vx
    pub(crate) fn e_fx55(&mut self, x: u8) -> (r: Result<(), Chip8Error>)
        requires
            old(self)@.wf(),
            x < 16,
        ensures
            match store_regs(old(self)@, x) {
                Ok(s) => r is Ok && final(self)@ == s,
                Err(e) => r == Err::<(), Chip8Error>(e) && final(self)@ == old(self)@,
            },
    {
        let base = self.i as usize;
        if base + x as usize >= MEMORY_SIZE {
            return Err(Chip8Error::MemoryOutOfBounds);
        }
        let ghost s0 = self@;
        let mut r: usize = 0;
        while r <= x as usize
            invariant
                r <= x + 1,
                base == s0.i,
                base + x < MEMORY_SIZE,
                x < 16,
                s0.wf(),
                self@ == (CpuState { memory: self.memory@, ..s0 }),
                self.memory@.len() == MEMORY_SIZE,
                forall|a: int| 0 <= a < MEMORY_SIZE ==> self.memory@[a] == (
                    if base <= a < base + r { s0.v[a - base] } else { s0.memory[a] }),
            decreases x + 1 - r,
        {
            self.memory[base + r] = self.v[r];
            r = r + 1;
        }
        if self.cpu_type == CpuType::XoChip {
            self.i = self.i + 1;
        }
        assert(self.memory@ =~= store_regs(s0, x).unwrap().memory);
        Ok(())
    }

    /// LD Vx, [I]
    pub(crate) fn e_fx65(&mut self, x: u8) -> (r: Result<(), Chip8Error>)
        requires
            old(self)@.wf(),
            x < 16,
        ensures
            match load_regs(old(self)@, x) {
                Ok(s) => r is Ok && final(self)@ == s,
                Err(e) => r == Err::<(), Chip8Error>(e) && final(self)@ == old(self)@,
            },
    {
        let base = self.i as usize;
        if base + x as usize >= MEMORY_SIZE {
            return Err(Chip8Error::MemoryOutOfBounds);
        }
        let ghost s0 = self@;
        let mut r: usize = 0;
        while r <= x as usize
            invariant
                r <= x + 1,
                base == s0.i,
                base + x < MEMORY_SIZE,
                x < 16,
                s0.wf(),
                self@ == (CpuState { v: self.v@, ..s0 }),
                self.v@.len() == 16,
                forall|q: int| 0 <= q < 16 ==> self.v@[q] == (if q < r { s0.memory[base + q] } else { s0.v[q] }),
            decreases x + 1 - r,
        {
            self.v[r] = self.memory[base + r];
            r = r + 1;
        }
        if self.cpu_type == CpuType::XoChip {
            self.i = self.i + 1;
        }
        assert(self.v@ =~= load_regs(s0, x).unwrap().v);
        Ok(())
    }
}

/// Whether the sprite cell that lands on pixel `p` comes before (`row`, `col`)
/// in drawing order.
spec fn drawn_before(s: CpuState, xc: int, yc: int, p: int, row: int, col: int) -> bool {
    let pr = sprite_row(s.cpu_type, yc, p / 64);
    let pc = sprite_col(s.cpu_type, xc, p % 64);
    pr < row || (pr == row && pc < col)
}

/// Pixel `p` once the sprite cells before (`row`, `col`) have been drawn.
spec fn partly_drawn(s: CpuState, xc: int, yc: int, n: int, p: int, row: int, col: int) -> u8 {
    if hit_at(s, xc, yc, n, p) && drawn_before(s, xc, yc, p, row, col) {
        s.gfx[p] ^ 1
    } else {
        s.gfx[p]
    }
}

/// Whether pixel `p` was turned off by a sprite cell before (`row`, `col`).
spec fn collided_before(s: CpuState, xc: int, yc: int, n: int, p: int, row: int, col: int) -> bool {
    hit_at(s, xc, yc, n, p) && drawn_before(s, xc, yc, p, row, col) && s.gfx[p] == 1
}

/// A pixel index splits into its column and row.
proof fn lemma_split_index(p: int)
    requires
        0 <= p < SCREEN_PIXELS,
    ensures
        0 <= p % 64 < 64,
        0 <= p / 64 < 32,
        p == p % 64 + 64 * (p / 64),
{
    vstd::arithmetic::div_mod::lemma_fundamental_div_mod(p, 64);
    vstd::arithmetic::div_mod::lemma_mod_bound(p, 64);
}

/// A column and row give back the pixel index.
proof fn lemma_join_index(px: int, py: int)
    requires
        0 <= px < 64,
        0 <= py < 32,
    ensures
        (px + 64 * py) % 64 == px,
        (px + 64 * py) / 64 == py,
        0 <= px + 64 * py < SCREEN_PIXELS,
{
    vstd::arithmetic::div_mod::lemma_fundamental_div_mod_converse(px + 64 * py, 64, py, px);
}

impl CPU {
    /// DRW Vx, Vy, nibble
    #[verifier::rlimit(50)]
    pub(crate) fn e_dxyn(&mut self, x: u8, y: u8, n: u8) -> (r: Result<(), Chip8Error>)
        requires
            old(self)@.wf(),
            x < 16,
            y < 16,
            n < 16,
        ensures
            match draw(old(self)@, x, y, n) {
                Ok(s) => r is Ok && final(self)@ == s,
                Err(e) => r == Err::<(), Chip8Error>(e) && final(self)@ == old(self)@,
            },
    {
        let x_coord = self.v[x as usize] % 64;
        let y_coord = self.v[y as usize] % 32;
        let base = self.i as usize;
        if base + n as usize > MEMORY_SIZE {
            return Err(Chip8Error::MemoryOutOfBounds);
        }
        let ghost s0 = self@;
        let ghost xc = x_coord as int;
        let ghost yc = y_coord as int;
        let ghost nn = n as int;
        let wrap = self.cpu_type == CpuType::XoChip;
        let mut collided = false;
        let mut row: u8 = 0;
        while row < n
            invariant
                s0.wf(),
                row <= n,
                n < 16,
                nn == n,
                xc < 64,
                yc < 32,
                x_coord == xc,
                y_coord == yc,
                base == s0.i,
                base + n <= MEMORY_SIZE,
                wrap == wraps(s0.cpu_type),
                self@ == (CpuState { gfx: self.gfx@, ..s0 }),
                self.gfx@.len() == SCREEN_PIXELS,
                forall|p: int| 0 <= p < SCREEN_PIXELS ==> self.gfx@[p] == partly_drawn(s0, xc, yc, nn, p, row as int, 0),
                collided == exists|p: int| 0 <= p < SCREEN_PIXELS && #[trigger] collided_before(s0, xc, yc, nn, p, row as int, 0),
            decreases n - row,
        {
            let row_pixels = self.memory[base + row as usize];
            let mut col: u8 = 0;
            while col < 8
                invariant
                    s0.wf(),
                    row < n,
                    n < 16,
                    nn == n,
                    col <= 8,
                    xc < 64,
                    yc < 32,
                    x_coord == xc,
                    y_coord == yc,
                    base == s0.i,
                    base + n <= MEMORY_SIZE,
                    row_pixels == s0.memory[base + row],
                    wrap == wraps(s0.cpu_type),
                    self@ == (CpuState { gfx: self.gfx@, ..s0 }),
                    self.gfx@.len() == SCREEN_PIXELS,
                    forall|p: int| 0 <= p < SCREEN_PIXELS ==> self.gfx@[p] == partly_drawn(s0, xc, yc, nn, p, row as int, col as int),
                    collided == exists|p: int| 0 <= p < SCREEN_PIXELS && #[trigger] collided_before(s0, xc, yc, nn, p, row as int, col as int),
                decreases 8 - col,
            {
                let mut curr_x = x_coord as usize + col as usize;
                let mut curr_y = y_coord as usize + row as usize;
                let mut visible = true;
                if curr_x > 63 || curr_y > 31 {
                    if wrap {
                        if curr_x > 63 {
                            curr_x = curr_x - 64;
                        }
                        if curr_y > 31 {
                            curr_y = curr_y - 32;
                        }
                    } else {
                        visible = false;
                    }
                }
                let bit = row_pixels & (0x80 >> col) != 0;
                let ghost target: int = if visible { curr_x + 64 * curr_y } else { -1 };
                let ghost was_collided = collided;
                let ghost before = self.gfx@;
                proof {
                    if visible {
                        lemma_join_index(curr_x as int, curr_y as int);
                        assert(sprite_col(s0.cpu_type, xc, curr_x as int) == col);
                        assert(sprite_row(s0.cpu_type, yc, curr_y as int) == row);
                        assert(sprite_bit(row_pixels, col as int) == bit);
                        assert(hit_at(s0, xc, yc, nn, target) == bit);
                        assert(!drawn_before(s0, xc, yc, target, row as int, col as int));
                    }
                    assert forall|p: int| 0 <= p < SCREEN_PIXELS implies
                        (drawn_before(s0, xc, yc, p, row as int, col as int + 1)
                            <==> (drawn_before(s0, xc, yc, p, row as int, col as int)
                                || (sprite_row(s0.cpu_type, yc, p / 64) == row
                                    && sprite_col(s0.cpu_type, xc, p % 64) == col)))
                        && (hit_at(s0, xc, yc, nn, p) && sprite_row(s0.cpu_type, yc, p / 64) == row
                            && sprite_col(s0.cpu_type, xc, p % 64) == col ==> p == target)
                    by {
                        lemma_split_index(p);
                    }
                }
                if visible && bit {
                    let idx = curr_x + 64 * curr_y;
                    if self.gfx[idx] == 1 {
                        collided = true;
                    }
                    self.gfx[idx] = self.gfx[idx] ^ 1;
                }
                proof {
                    assert forall|p: int| 0 <= p < SCREEN_PIXELS implies
                        self.gfx@[p] == partly_drawn(s0, xc, yc, nn, p, row as int, col as int + 1)
                    by {
                        lemma_split_index(p);
                    }
                    assert forall|p: int| 0 <= p < SCREEN_PIXELS implies
                        (#[trigger] collided_before(s0, xc, yc, nn, p, row as int, col as int + 1)
                            <==> (collided_before(s0, xc, yc, nn, p, row as int, col as int)
                                || (p == target && hit_at(s0, xc, yc, nn, p) && s0.gfx[p] == 1)))
                    by {
                        lemma_split_index(p);
                    }
                    if visible && bit && before[target] == 1 {
                        assert(collided_before(s0, xc, yc, nn, target, row as int, col as int + 1));
                    }
                    if was_collided {
                        let w = choose|w: int| 0 <= w < SCREEN_PIXELS && #[trigger] collided_before(s0, xc, yc, nn, w, row as int, col as int);
                        assert(collided_before(s0, xc, yc, nn, w, row as int, col as int + 1));
                    }
                    if !collided {
                        assert forall|p: int| 0 <= p < SCREEN_PIXELS implies
                            !#[trigger] collided_before(s0, xc, yc, nn, p, row as int, col as int + 1)
                        by {
                            assert(!collided_before(s0, xc, yc, nn, p, row as int, col as int));
                        }
                    }
                }
                col = col + 1;
            }
            proof {
                assert forall|p: int| 0 <= p < SCREEN_PIXELS implies
                    self.gfx@[p] == partly_drawn(s0, xc, yc, nn, p, row as int + 1, 0)
                    && (collided_before(s0, xc, yc, nn, p, row as int, 8)
                        == #[trigger] collided_before(s0, xc, yc, nn, p, row as int + 1, 0))
                by {
                    lemma_split_index(p);
                }
                if collided {
                    let w = choose|w: int| 0 <= w < SCREEN_PIXELS && #[trigger] collided_before(s0, xc, yc, nn, w, row as int, 8);
                    assert(collided_before(s0, xc, yc, nn, w, row as int + 1, 0));
                } else {
                    assert forall|p: int| 0 <= p < SCREEN_PIXELS implies
                        !#[trigger] collided_before(s0, xc, yc, nn, p, row as int + 1, 0)
                    by {
                        assert(!collided_before(s0, xc, yc, nn, p, row as int, 8));
                    }
                }
            }
            row = row + 1;
        }
        proof {
            assert forall|p: int| 0 <= p < SCREEN_PIXELS implies
                self.gfx@[p] == drawn_screen(s0, xc, yc, nn)[p]
                && (collided_before(s0, xc, yc, nn, p, nn, 0)
                    == (#[trigger] hit_at(s0, xc, yc, nn, p) && s0.gfx[p] == 1))
            by {
                lemma_split_index(p);
            }
            assert(self.gfx@ =~= drawn_screen(s0, xc, yc, nn));
            assert(collided == draw_collides(s0, xc, yc, nn));
        }
        self.v[15] = if collided { 1 } else { 0 };
        self.draw_flag = true;
        Ok(())
    }
}

} // verus!

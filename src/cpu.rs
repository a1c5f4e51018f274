use vstd::prelude::*;
use crate::laws::lemma_exec_keeps_wf;
use crate::instruction::{Instruction, decode, decoded, fields_in_range, word_of};
use crate::semantics::{exec, is_known};
use crate::state::{
    CpuState, CpuType, Chip8Error, MEMORY_SIZE, PROGRAM_START, SCREEN_PIXELS, blank_screen,
    font_glyphs, pc_plus_2,
};

verus! {

/// The whole machine: memory, registers, timers, call stack, framebuffer,
/// the input snapshot and the requests raised for the driver.
pub struct CPU {
    /// The 4096-byte address space; the font sits at 0, programs at 0x200.
    pub memory: Vec<u8>,
    /// The registers V0..=VF; VF doubles as the flag register.
    pub v: Vec<u8>,
    /// The index register.
    pub i: u16,
    /// The program counter.
    pub pc: u16,
    /// The 64x32 screen, row-major, one byte of 0 or 1 per pixel.
    pub gfx: Vec<u8>,
    /// Counts down at 60 Hz; programs read it for timing.
    pub delay_timer: u8,
    /// Counts down at 60 Hz; a tone sounds while it runs.
    pub sound_timer: u8,
    /// Return addresses of the calls in progress, innermost last.
    pub stack: Vec<u16>,
    /// Set when the framebuffer changed; the driver clears it after rendering.
    pub draw_flag: bool,
    /// Set on a timer tick while the sound timer runs; the driver clears it.
    pub sound_flag: bool,
    /// Which of the keys 0x0..=0xF are currently held.
    pub keys_held: Vec<bool>,
    /// A key newly pressed since the last driver tick, if any.
    pub key_pressed: Option<u8>,
    /// The dialect, fixed for the life of the machine.
    pub cpu_type: CpuType,
}

impl View for CPU {
    type V = CpuState;

    open spec fn view(&self) -> CpuState {
        CpuState {
            memory: self.memory@,
            v: self.v@,
            i: self.i,
            pc: self.pc,
            gfx: self.gfx@,
            delay_timer: self.delay_timer,
            sound_timer: self.sound_timer,
            stack: self.stack@,
            draw_flag: self.draw_flag,
            sound_flag: self.sound_flag,
            keys_held: self.keys_held@,
            key_pressed: self.key_pressed,
            cpu_type: self.cpu_type,
        }
    }
}

/// The state of a fresh machine of dialect `t`.
pub open spec fn initial_state(t: CpuType) -> CpuState {
    CpuState {
        memory: font_glyphs() + Seq::new((MEMORY_SIZE - 80) as nat, |a: int| 0u8),
        v: Seq::new(16, |r: int| 0u8),
        i: 0,
        pc: PROGRAM_START as u16,
        gfx: blank_screen(),
        delay_timer: 0,
        sound_timer: 0,
        stack: Seq::empty(),
        draw_flag: false,
        sound_flag: false,
        keys_held: Seq::new(16, |k: int| false),
        key_pressed: None,
        cpu_type: t,
    }
}

/// The memory with `program` copied in at the load address.
pub open spec fn with_program(mem: Seq<u8>, program: Seq<u8>) -> Seq<u8> {
    Seq::new(
        MEMORY_SIZE as nat,
        |a: int|
            if PROGRAM_START <= a < PROGRAM_START + program.len() {
                program[a - PROGRAM_START]
            } else {
                mem[a]
            },
    )
}

/// Whether the two bytes at `pc` lie inside memory.
pub open spec fn fetch_in_bounds(s: CpuState) -> bool {
    s.pc + 1 < MEMORY_SIZE
}

/// The instruction word at the program counter.
pub open spec fn word_at_pc(s: CpuState) -> u16 {
    word_of(s.memory[s.pc as int], s.memory[s.pc + 1])
}

/// One whole step: fetch, decode and execute, where `rnd` is the random byte
/// that `Cxnn` draws.
pub open spec fn step_state(s: CpuState, rnd: u8) -> Result<CpuState, Chip8Error> {
    if !fetch_in_bounds(s) {
        Err(Chip8Error::MemoryOutOfBounds)
    } else {
        exec(s.jump(pc_plus_2(s.pc)), decoded(word_at_pc(s)), rnd)
    }
}

/// One 60 Hz timer tick applied to the timers and the sound request.
pub open spec fn tick(s: CpuState) -> CpuState {
    CpuState {
        delay_timer: if s.delay_timer > 0 { (s.delay_timer - 1) as u8 } else { 0 },
        sound_timer: if s.sound_timer > 0 { (s.sound_timer - 1) as u8 } else { 0 },
        sound_flag: s.sound_flag || s.sound_timer > 0,
        ..s
    }
}

/// Relies on rand::random: a byte drawn from the thread-local generator.
/// Nothing is known of its value. The generator panics only where the
/// operating system cannot seed it.
#[verifier::external_body]
fn random_byte() -> (r: u8) {
    rand::random::<u8>()
}

/// A vector of `len` zero bytes.
fn zeros(len: usize) -> (r: Vec<u8>)
    ensures
        r@ == Seq::new(len as nat, |k: int| 0u8),
{
    let mut r: Vec<u8> = Vec::new();
    while r.len() < len
        invariant
            r.len() <= len,
            forall|k: int| 0 <= k < r.len() ==> r@[k] == 0,
        decreases len - r.len(),
    {
        r.push(0);
    }
    assert(r@ =~= Seq::new(len as nat, |k: int| 0u8));
    r
}

/// The built-in font.
fn font() -> (r: Vec<u8>)
    ensures
        r@ == font_glyphs(),
{
    let r: Vec<u8> = vec![
        0xF0, 0x90, 0x90, 0x90, 0xF0, 0x20, 0x60, 0x20, 0x20, 0x70,
        0xF0, 0x10, 0xF0, 0x80, 0xF0, 0xF0, 0x10, 0xF0, 0x10, 0xF0,
        0x90, 0x90, 0xF0, 0x10, 0x10, 0xF0, 0x80, 0xF0, 0x10, 0xF0,
        0xF0, 0x80, 0xF0, 0x90, 0xF0, 0xF0, 0x10, 0x20, 0x40, 0x40,
        0xF0, 0x90, 0xF0, 0x90, 0xF0, 0xF0, 0x90, 0xF0, 0x10, 0xF0,
        0xF0, 0x90, 0xF0, 0x90, 0x90, 0xE0, 0x90, 0xE0, 0x90, 0xE0,
        0xF0, 0x80, 0x80, 0x80, 0xF0, 0xE0, 0x90, 0x90, 0x90, 0xE0,
        0xF0, 0x80, 0xF0, 0x80, 0xF0, 0xF0, 0x80, 0xF0, 0x80, 0x80,
    ];
    assert(r@ =~= font_glyphs());
    r
}

impl CPU {
    /// A fresh machine of dialect `cpu_type`: the font at address 0, all else
    /// zero, and the program counter at the load address.
    pub fn initialize(cpu_type: CpuType) -> (r: CPU)
        ensures
            r@ == initial_state(cpu_type),
            r@.wf(),
    {
        let mut memory = font();
        let mut rest = zeros(MEMORY_SIZE - 80);
        memory.append(&mut rest);
        let cpu = CPU {
            pc: PROGRAM_START as u16,
            i: 0,
            gfx: zeros(SCREEN_PIXELS),
            stack: Vec::new(),
            v: zeros(16),
            memory,
            delay_timer: 0,
            sound_timer: 0,
            draw_flag: false,
            sound_flag: false,
            keys_held: vec![false, false, false, false, false, false, false, false,
                false, false, false, false, false, false, false, false],
            key_pressed: None,
            cpu_type,
        };
        assert(cpu@.keys_held =~= Seq::new(16, |k: int| false));
        assert(cpu@ == initial_state(cpu_type));
        cpu
    }

    /// Copies `program` into memory at the load address. A program that does
    /// not fit below the end of memory is refused and nothing changes.
    pub fn load_program(&mut self, program: &Vec<u8>) -> (r: Result<(), Chip8Error>)
        requires
            old(self)@.wf(),
        ensures
            r is Err <==> PROGRAM_START + program@.len() > MEMORY_SIZE,
            r is Err ==> r == Err::<(), Chip8Error>(Chip8Error::ProgramTooLarge) && final(self)@ == old(self)@,
            r is Ok ==> final(self)@ == (CpuState { memory: with_program(old(self)@.memory, program@), ..old(self)@ }),
    {
        if program.len() > MEMORY_SIZE - PROGRAM_START {
            return Err(Chip8Error::ProgramTooLarge);
        }
        let ghost s0 = self@;
        let mut k: usize = 0;
        while k < program.len()
            invariant
                k <= program.len(),
                PROGRAM_START + program@.len() <= MEMORY_SIZE,
                self@ == (CpuState { memory: self.memory@, ..s0 }),
                self.memory@.len() == MEMORY_SIZE,
                forall|a: int| 0 <= a < MEMORY_SIZE ==> self.memory@[a] == (
                    if PROGRAM_START <= a < PROGRAM_START + k { program@[a - PROGRAM_START] } else { s0.memory[a] }),
            decreases program.len() - k,
        {
            self.memory[PROGRAM_START + k] = program[k];
            k = k + 1;
        }
        assert(self.memory@ =~= with_program(s0.memory, program@));
        Ok(())
    }

    /// Reads the big-endian word at the program counter and moves the program
    /// counter past it.
    pub fn fetch(&mut self) -> (r: Result<u16, Chip8Error>)
        requires
            old(self)@.wf(),
        ensures
            r is Err <==> !fetch_in_bounds(old(self)@),
            r is Err ==> r == Err::<u16, Chip8Error>(Chip8Error::MemoryOutOfBounds) && final(self)@ == old(self)@,
            r is Ok ==> r == Ok::<u16, Chip8Error>(word_at_pc(old(self)@)) && final(self)@ == old(self)@.jump(pc_plus_2(old(self)@.pc)),
    {
        if self.pc as usize + 1 >= MEMORY_SIZE {
            return Err(Chip8Error::MemoryOutOfBounds);
        }
        let hi = self.memory[self.pc as usize];
        let lo = self.memory[self.pc as usize + 1];
        let instruction = (hi as u16) << 8 | (lo as u16);
        assert((hi as u16) << 8u16 | (lo as u16) == hi as u16 * 256 + lo as u16) by (bit_vector);
        self.pc = self.pc + 2;
        Ok(instruction)
    }

    /// Splits an instruction word into its fields.
    pub fn decode(&self, bytes: u16) -> (r: Instruction)
        ensures
            r == decoded(bytes),
            fields_in_range(r),
    {
        decode(bytes)
    }
}

impl CPU {
    /// Executes one decoded instruction, with `rnd` the byte that `Cxnn`
    /// uses. Returns `Ok(false)` for an instruction the machine does not know,
    /// which changes nothing; on an error nothing changes either.
    pub fn execute_with(&mut self, instruction: Instruction, rnd: u8) -> (r: Result<bool, Chip8Error>)
        requires
            old(self)@.wf(),
            fields_in_range(instruction),
        ensures
            final(self)@.wf(),
            match exec(old(self)@, instruction, rnd) {
                Ok(s) => r == Ok::<bool, Chip8Error>(is_known(instruction)) && final(self)@ == s,
                Err(e) => r == Err::<bool, Chip8Error>(e) && final(self)@ == old(self)@,
            },
    {
        proof {
            lemma_exec_keeps_wf(self@, instruction, rnd);
        }
        let x = instruction.x;
        let y = instruction.y;
        let n = instruction.n;
        let nn = instruction.nn;
        let nnn = instruction.nnn;
        match instruction.op {
            0x0 => match nnn {
                0x0E0 => self.e_00e0(),
                0x0EE => {
                    self.e_00ee()?;
                },
                _ => return Ok(false),
            },
            0x1 => self.e_1nnn(nnn),
            0x2 => self.e_2nnn(nnn),
            0x3 => self.e_3xnn(x, nn),
            0x4 => self.e_4xnn(x, nn),
            0x5 => match n {
                0x0 => self.e_5xy0(x, y),
                _ => return Ok(false),
            },
            0x6 => self.e_6xnn(x, nn),
            0x7 => self.e_7xnn(x, nn),
            0x8 => match n {
                0x0 => self.e_8xy0(x, y),
                0x1 => self.e_8xy1(x, y),
                0x2 => self.e_8xy2(x, y),
                0x3 => self.e_8xy3(x, y),
                0x4 => self.e_8xy4(x, y),
                0x5 => self.e_8xy5(x, y),
                0x6 => self.e_8xy6(x, y),
                0x7 => self.e_8xy7(x, y),
                0xE => self.e_8xye(x, y),
                _ => return Ok(false),
            },
            0x9 => match n {
                0x0 => self.e_9xy0(x, y),
                _ => return Ok(false),
            },
            0xA => self.e_annn(nnn),
            0xB => self.e_bnnn(x, nnn),
            0xC => self.e_cxnn(x, nn, rnd),
            0xD => {
                self.e_dxyn(x, y, n)?;
            },
            0xE => match nn {
                0x9E => self.e_ex9e(x),
                0xA1 => self.e_exa1(x),
                _ => return Ok(false),
            },
            _ => match nn {
                0x07 => self.e_fx07(x),
                0x0A => self.e_fx0a(x),
                0x15 => self.e_fx15(x),
                0x18 => self.e_fx18(x),
                0x1E => self.e_fx1e(x),
                0x29 => self.e_fx29(x),
                0x33 => {
                    self.e_fx33(x)?;
                },
                0x55 => {
                    self.e_fx55(x)?;
                },
                0x65 => {
                    self.e_fx65(x)?;
                },
                _ => return Ok(false),
            },
        }
        Ok(true)
    }

    /// Executes one decoded instruction, drawing a random byte for `Cxnn`.
    /// The outcome is that of `execute_with` for some byte.
    pub fn execute(&mut self, instruction: Instruction) -> (r: Result<bool, Chip8Error>)
        requires
            old(self)@.wf(),
            fields_in_range(instruction),
        ensures
            final(self)@.wf(),
            exists|rnd: u8|
                match #[trigger] exec(old(self)@, instruction, rnd) {
                    Ok(s) => r == Ok::<bool, Chip8Error>(is_known(instruction)) && final(self)@ == s,
                    Err(e) => r == Err::<bool, Chip8Error>(e) && final(self)@ == old(self)@,
                },
    {
        let rnd = if instruction.op == 0xC { random_byte() } else { 0 };
        self.execute_with(instruction, rnd)
    }

    /// Fetches, decodes and executes one instruction, with `rnd` the byte
    /// that `Cxnn` uses. On an error the machine is to halt.
    pub fn step_with(&mut self, rnd: u8) -> (r: Result<bool, Chip8Error>)
        requires
            old(self)@.wf(),
        ensures
            final(self)@.wf(),
            match step_state(old(self)@, rnd) {
                Ok(s) => r is Ok && final(self)@ == s,
                Err(e) => r == Err::<bool, Chip8Error>(e),
            },
            r is Ok ==> r == Ok::<bool, Chip8Error>(is_known(decoded(word_at_pc(old(self)@)))),
    {
        let bytes = self.fetch()?;
        let instruction = decode(bytes);
        self.execute_with(instruction, rnd)
    }

    /// Fetches, decodes and executes one instruction, drawing a random byte
    /// for `Cxnn`. On an error the machine is to halt.
    pub fn step(&mut self) -> (r: Result<bool, Chip8Error>)
        requires
            old(self)@.wf(),
        ensures
            final(self)@.wf(),
            exists|rnd: u8|
                match #[trigger] step_state(old(self)@, rnd) {
                    Ok(s) => r is Ok && final(self)@ == s,
                    Err(e) => r == Err::<bool, Chip8Error>(e),
                },
    {
        let rnd = random_byte();
        self.step_with(rnd)
    }

    /// One 60 Hz timer tick: each running timer counts down by one, and a
    /// running sound timer raises the sound request.
    pub fn tick_timers(&mut self)
        requires
            old(self)@.wf(),
        ensures
            final(self)@ == tick(old(self)@),
            final(self)@.wf(),
    {
        if self.delay_timer > 0 {
            self.delay_timer = self.delay_timer - 1;
        }
        if self.sound_timer > 0 {
            self.sound_flag = true;
            self.sound_timer = self.sound_timer - 1;
        }
    }
}

} // verus!

use vstd::prelude::*;
use crate::instruction::{Instruction, fields_in_range};
use crate::semantics::{draw_collides, drawn_screen, exec, hit_at};
use crate::cpu::tick;
use crate::state::{CpuState, CpuType, MEMORY_SIZE, SCREEN_PIXELS};

verus! {

/// Every instruction that succeeds keeps the machine well formed: memory,
/// registers, screen and keys keep their sizes, and pixels stay 0 or 1.
pub proof fn lemma_exec_keeps_wf(s: CpuState, ins: Instruction, rnd: u8)
    requires
        s.wf(),
        fields_in_range(ins),
    ensures
        exec(s, ins, rnd) is Ok ==> exec(s, ins, rnd).unwrap().wf(),
{
    if ins.op == 0xD {
        let xc = (s.reg(ins.x) % 64) as int;
        let yc = (s.reg(ins.y) % 32) as int;
        let g = drawn_screen(s, xc, yc, ins.n as int);
        assert(forall|b: u8| #![auto] b <= 1 ==> (b ^ 1) <= 1) by (bit_vector);
        assert forall|p: int| 0 <= p < g.len() implies #[trigger] g[p] <= 1 by {
            assert(s.gfx[p] <= 1);
        }
    }
}

/// `8xy4` leaves VF at 1 exactly when Vx + Vy exceeds 255, and, unless Vx is
/// VF itself, Vx at the sum modulo 256.
pub proof fn lemma_add_sets_carry(s: CpuState, ins: Instruction, rnd: u8)
    requires
        s.wf(),
        fields_in_range(ins),
        ins.op == 0x8,
        ins.n == 0x4,
    ensures
        exec(s, ins, rnd) is Ok,
        (exec(s, ins, rnd).unwrap().reg(15) == 1) == (s.reg(ins.x) + s.reg(ins.y) > 255),
        exec(s, ins, rnd).unwrap().reg(15) <= 1,
        ins.x != 15 ==> exec(s, ins, rnd).unwrap().reg(ins.x) == (s.reg(ins.x) + s.reg(ins.y)) % 256,
{
}

/// `8xy5` leaves VF at 1 exactly when Vx >= Vy, and, unless Vx is VF
/// itself, Vx at Vx - Vy modulo 256.
pub proof fn lemma_sub_sets_no_borrow(s: CpuState, ins: Instruction, rnd: u8)
    requires
        s.wf(),
        fields_in_range(ins),
        ins.op == 0x8,
        ins.n == 0x5,
    ensures
        exec(s, ins, rnd) is Ok,
        (exec(s, ins, rnd).unwrap().reg(15) == 1) == (s.reg(ins.x) >= s.reg(ins.y)),
        exec(s, ins, rnd).unwrap().reg(15) <= 1,
        ins.x != 15 ==> exec(s, ins, rnd).unwrap().reg(ins.x) == (s.reg(ins.x) - s.reg(ins.y) + 256) % 256,
{
}

/// After `00E0` every pixel is off and a redraw is requested.
pub proof fn lemma_clear_blanks_screen(s: CpuState, ins: Instruction, rnd: u8)
    requires
        s.wf(),
        fields_in_range(ins),
        ins.op == 0x0,
        ins.nnn == 0x0E0,
    ensures
        exec(s, ins, rnd) is Ok,
        exec(s, ins, rnd).unwrap().draw_flag,
        exec(s, ins, rnd).unwrap().gfx.len() == SCREEN_PIXELS,
        forall|p: int| 0 <= p < SCREEN_PIXELS ==> #[trigger] exec(s, ins, rnd).unwrap().gfx[p] == 0,
{
}

/// Drawing the same sprite twice at the same place gives back the screen as
/// it was. The first draw reports a collision exactly where a set sprite bit
/// met a lit pixel, the second exactly where it met a dark one, which the
/// first draw lit. VF must not be one of the coordinate registers, since
/// the first draw overwrites it.
pub proof fn lemma_draw_twice_restores(s: CpuState, ins: Instruction, rnd: u8)
    requires
        s.wf(),
        fields_in_range(ins),
        ins.op == 0xD,
        ins.x != 15,
        ins.y != 15,
        s.i + ins.n <= MEMORY_SIZE,
    ensures
        exec(s, ins, rnd) is Ok,
        exec(exec(s, ins, rnd).unwrap(), ins, rnd) is Ok,
        exec(exec(s, ins, rnd).unwrap(), ins, rnd).unwrap().gfx == s.gfx,
        (exec(s, ins, rnd).unwrap().reg(15) == 1) == (exists|p: int|
            0 <= p < SCREEN_PIXELS && #[trigger] hit_at(s, (s.reg(ins.x) % 64) as int, (s.reg(ins.y) % 32) as int, ins.n as int, p)
                && s.gfx[p] == 1),
        (exec(exec(s, ins, rnd).unwrap(), ins, rnd).unwrap().reg(15) == 1) == (exists|p: int|
            0 <= p < SCREEN_PIXELS && #[trigger] hit_at(s, (s.reg(ins.x) % 64) as int, (s.reg(ins.y) % 32) as int, ins.n as int, p)
                && s.gfx[p] == 0),
{
    let xc = s.reg(ins.x) % 64;
    let yc = s.reg(ins.y) % 32;
    let n = ins.n as int;
    let s1 = exec(s, ins, rnd).unwrap();
    let s2 = exec(s1, ins, rnd).unwrap();
    assert(s1.reg(ins.x) == s.reg(ins.x) && s1.reg(ins.y) == s.reg(ins.y));
    assert forall|p: int| 0 <= p < SCREEN_PIXELS implies hit_at(s1, xc as int, yc as int, n, p) == #[trigger] hit_at(
        s,
        xc as int,
        yc as int,
        n,
        p,
    ) by {}
    assert(forall|b: u8| #![auto] (b ^ 1) ^ 1 == b) by (bit_vector);
    assert(forall|b: u8| #![auto] b <= 1 ==> ((b ^ 1) == 1) == (b == 0)) by (bit_vector);
    assert(s2.gfx =~= s.gfx);
    if draw_collides(s1, xc as int, yc as int, n) {
        let w = choose|w: int| 0 <= w < SCREEN_PIXELS && #[trigger] hit_at(s1, xc as int, yc as int, n, w) && s1.gfx[w] == 1;
        assert(hit_at(s, xc as int, yc as int, n, w) && s.gfx[w] == 0);
    }
    if exists|p: int| 0 <= p < SCREEN_PIXELS && #[trigger] hit_at(s, xc as int, yc as int, n, p) && s.gfx[p] == 0 {
        let w = choose|w: int| 0 <= w < SCREEN_PIXELS && #[trigger] hit_at(s, xc as int, yc as int, n, w) && s.gfx[w] == 0;
        assert(hit_at(s1, xc as int, yc as int, n, w) && s1.gfx[w] == 1);
    }
}

/// `Fx55`, then clearing V0..=Vx, then putting I back where it was, then
/// `Fx65` with the same x, restores every register.
pub proof fn lemma_store_load_round_trip(s: CpuState, store: Instruction, load: Instruction, rnd: u8)
    requires
        s.wf(),
        fields_in_range(store),
        store.op == 0xF,
        store.nn == 0x55,
        load == (Instruction { nn: 0x65, ..store }),
        s.i + store.x < MEMORY_SIZE,
    ensures
        exec(s, store, rnd) is Ok,
        ({
            let s1 = exec(s, store, rnd).unwrap();
            let cleared = CpuState {
                v: Seq::new(16, |r: int| if r <= store.x { 0u8 } else { s1.v[r] }),
                i: s.i,
                ..s1
            };
            &&& exec(cleared, load, rnd) is Ok
            &&& exec(cleared, load, rnd).unwrap().v == s.v
        }),
{
    let s1 = exec(s, store, rnd).unwrap();
    let cleared = CpuState {
        v: Seq::new(16, |r: int| if r <= store.x { 0u8 } else { s1.v[r] }),
        i: s.i,
        ..s1
    };
    assert(exec(cleared, load, rnd).unwrap().v =~= s.v);
}

/// `Bnnn` jumps to nnn plus V0 on legacy CHIP-8, whatever x is, and to nnn
/// plus Vx under SUPER-CHIP and XO-CHIP.
pub proof fn lemma_jump_with_offset(s: CpuState, ins: Instruction, rnd: u8)
    requires
        s.wf(),
        fields_in_range(ins),
        ins.op == 0xB,
    ensures
        exec(s, ins, rnd) is Ok,
        s.cpu_type == CpuType::Chip8 ==> exec(s, ins, rnd).unwrap().pc == ins.nnn + s.reg(0),
        s.cpu_type != CpuType::Chip8 ==> exec(s, ins, rnd).unwrap().pc == ins.nnn + s.reg(ins.x),
{
}

/// The state after `k` timer ticks.
pub open spec fn ticks(s: CpuState, k: nat) -> CpuState
    decreases k,
{
    if k == 0 { s } else { tick(ticks(s, (k - 1) as nat)) }
}

/// After `k` ticks each timer reads its start value less `k`, and never less
/// than zero: it stops at zero and stays there.
pub proof fn lemma_timers_count_down(s: CpuState, k: nat)
    ensures
        ticks(s, k).delay_timer == (if s.delay_timer >= k { s.delay_timer - k } else { 0 }),
        ticks(s, k).sound_timer == (if s.sound_timer >= k { s.sound_timer - k } else { 0 }),
    decreases k,
{
    if k > 0 {
        lemma_timers_count_down(s, (k - 1) as nat);
    }
}

} // verus!

use vstd::prelude::*;

verus! {

/// Length of one 60 Hz timer period in nanoseconds.
pub const TICK_NANOS: u64 = 16_666_667;

/// Accumulates elapsed wall-clock time and says how many timer periods have
/// passed, carrying the remainder over to the next call.
pub struct TimerClock {
    pub pending_nanos: u64,
}

impl TimerClock {
    /// The time carried over is always less than one period.
    pub open spec fn wf(self) -> bool {
        self.pending_nanos < TICK_NANOS
    }

    /// A clock with no time carried over.
    pub fn new() -> (r: TimerClock)
        ensures
            r.pending_nanos == 0,
            r.wf(),
    {
        TimerClock { pending_nanos: 0 }
    }

    /// Adds `elapsed_nanos` and returns the number of whole periods now due;
    /// what is left of the time stays carried over.
    pub fn advance(&mut self, elapsed_nanos: u64) -> (ticks: u64)
        requires
            old(self).wf(),
        ensures
            final(self).wf(),
            ticks * TICK_NANOS + final(self).pending_nanos == old(self).pending_nanos + elapsed_nanos,
    {
        let room = TICK_NANOS - self.pending_nanos;
        if elapsed_nanos < room {
            self.pending_nanos = self.pending_nanos + elapsed_nanos;
            0
        } else {
            let rest = elapsed_nanos - room;
            let q = rest / TICK_NANOS;
            self.pending_nanos = rest % TICK_NANOS;
            proof {
                vstd::arithmetic::div_mod::lemma_fundamental_div_mod(rest as int, TICK_NANOS as int);
                vstd::arithmetic::div_mod::lemma_mod_bound(rest as int, TICK_NANOS as int);
                vstd::arithmetic::mul::lemma_mul_is_distributive_add_other_way(
                    TICK_NANOS as int, q as int, 1,
                );
                assert(q * TICK_NANOS <= rest) by (nonlinear_arith)
                    requires rest == TICK_NANOS * q + rest % TICK_NANOS, rest % TICK_NANOS >= 0;
            }
            q + 1
        }
    }
}

} // verus!

use vstd::prelude::*;

verus! {

/// When the heartbeat fires: once at once to warm up, then after every
/// interval.
#[derive(Debug, Clone, Copy, PartialEq, Eq, Structural)]
pub struct Heartbeat {
    pub interval_ms: u64,
    pub warmed_up: bool,
}

/// The wait before tick `n`, counting the warm-up tick as tick 0.
pub open spec fn wait_before(interval_ms: u64, n: nat) -> nat {
    if n == 0 {
        0
    } else {
        interval_ms as nat
    }
}

/// The time from the start at which tick `n` fires.
pub open spec fn tick_time(interval_ms: u64, n: nat) -> nat
    decreases n,
{
    if n == 0 {
        wait_before(interval_ms, 0)
    } else {
        tick_time(interval_ms, (n - 1) as nat) + wait_before(interval_ms, n)
    }
}

impl Heartbeat {
    /// A schedule for the interval the server announced.
    pub fn new(interval_ms: u64) -> (r: Heartbeat)
        requires
            interval_ms > 0,
        ensures
            r.interval_ms == interval_ms,
            !r.warmed_up,
    {
        Heartbeat { interval_ms, warmed_up: false }
    }

    /// How long to wait before the next tick: nothing before the warm-up
    /// tick, the interval before every tick after it.
    pub fn next_wait(&mut self) -> (r: u64)
        ensures
            final(self).interval_ms == old(self).interval_ms,
            final(self).warmed_up,
            r == if old(self).warmed_up {
                old(self).interval_ms
            } else {
                0
            },
    {
        if self.warmed_up {
            self.interval_ms
        } else {
            self.warmed_up = true;
            0
        }
    }
}

/// The warm-up tick fires at once, the first heartbeat one interval after
/// it, and tick `n` at `n` intervals: the ticks are evenly spaced.
pub proof fn lemma_ticks_evenly_spaced(interval_ms: u64, n: nat)
    ensures
        tick_time(interval_ms, 0) == 0,
        n > 0 ==> tick_time(interval_ms, n) - tick_time(interval_ms, (n - 1) as nat)
            == interval_ms,
        tick_time(interval_ms, n) == (n as int) * (interval_ms as int),
    decreases n,
{
    if n > 0 {
        lemma_ticks_evenly_spaced(interval_ms, (n - 1) as nat);
        assert(tick_time(interval_ms, n) == tick_time(interval_ms, (n - 1) as nat) + interval_ms);
        let m: int = n - 1;
        let k: int = interval_ms as int;
        assert(m * k + k == (m + 1) * k) by (nonlinear_arith);
        assert(tick_time(interval_ms, (n - 1) as nat) == m * k);
        assert(tick_time(interval_ms, n) == (m + 1) * k);
        assert((m + 1) * k == (n as int) * k);
    } else {
        assert(0 * (interval_ms as int) == 0);
    }
}

} // verus!

use vstd::prelude::*;
use crate::mmu::Memory;

verus! {

/// Address of the divider register.
pub const DIVIDE_LOC: u16 = 0xFF04;
/// Address of the timer counter.
pub const TIMA_LOC: u16 = 0xFF05;
/// Address of the timer reload value.
pub const TMA_LOC: u16 = 0xFF06;
/// Address of the timer control register.
pub const TMC_LOC: u16 = 0xFF07;

/// T-states between two divider increments.
pub const DIVIDE_PERIOD: u32 = 256;

/// T-states between two counter increments for the clock select bits of TMC.
pub open spec fn timer_period(tmc: u8) -> u32 {
    let sel = tmc & 3;
    if sel == 0 {
        1024
    } else if sel == 1 {
        16
    } else if sel == 2 {
        64
    } else {
        256
    }
}

/// Whether TMC enables the counter.
pub open spec fn timer_enabled(tmc: u8) -> bool {
    tmc & 4 != 0
}

/// The counter after `k` increments from `tima`, reloading `tma` on overflow.
pub open spec fn tima_after(tima: u8, tma: u8, k: nat) -> u8
    decreases k,
{
    if k == 0 {
        tima
    } else {
        let t = tima_after(tima, tma, (k - 1) as nat);
        if t == 255 {
            tma
        } else {
            (t + 1) as u8
        }
    }
}

/// Whether one of the first `k` increments from `tima` overflowed.
pub open spec fn tima_overflows(tima: u8, tma: u8, k: nat) -> bool
    decreases k,
{
    if k == 0 {
        false
    } else {
        tima_overflows(tima, tma, (k - 1) as nat) || tima_after(tima, tma, (k - 1) as nat) == 255
    }
}

/// The divider and the programmable counter.
pub struct Timer {
    pub tima: u8,
    pub tma: u8,
    pub tmc: u8,
    /// The divider register.
    pub divide: u8,
    /// T-states counted towards the next counter increment.
    pub time_elapsed: u32,
    /// T-states counted towards the next divider increment.
    pub divide_elapsed: u32,
}

impl Default for Timer {
    fn default() -> (r: Self)
        ensures
            r.inv(),
            r.tima == 0 && r.tma == 0 && r.tmc == 0 && r.divide == 0,
            r.time_elapsed == 0 && r.divide_elapsed == 0,
    {
        Timer { tima: 0, tma: 0, tmc: 0, divide: 0, time_elapsed: 0, divide_elapsed: 0 }
    }
}

impl Memory for Timer {
    open spec fn inv(&self) -> bool {
        self.time_elapsed < 1024 && self.divide_elapsed < 256
    }

    open spec fn owns(index: u16) -> bool {
        DIVIDE_LOC <= index <= TMC_LOC
    }

    open spec fn read_at(&self, index: u16) -> u8 {
        if index == DIVIDE_LOC {
            self.divide
        } else if index == TIMA_LOC {
            self.tima
        } else if index == TMA_LOC {
            self.tma
        } else {
            self.tmc
        }
    }

    /// A write to the divider resets it, whatever the value; the other three
    /// registers store the value.
    open spec fn written(&self, after: &Self, index: u16, val: u8) -> bool {
        if index == DIVIDE_LOC {
            *after == Timer { divide: 0, divide_elapsed: 0, ..*self }
        } else if index == TIMA_LOC {
            *after == Timer { tima: val, ..*self }
        } else if index == TMA_LOC {
            *after == Timer { tma: val, ..*self }
        } else {
            *after == Timer { tmc: val, ..*self }
        }
    }

    fn handle_read(&self, index: u16) -> (r: u8) {
        if index == DIVIDE_LOC {
            self.divide
        } else if index == TIMA_LOC {
            self.tima
        } else if index == TMA_LOC {
            self.tma
        } else {
            self.tmc
        }
    }

    fn handle_write(&mut self, index: u16, val: u8) {
        if index == DIVIDE_LOC {
            self.divide = 0;
            self.divide_elapsed = 0;
        } else if index == TIMA_LOC {
            self.tima = val;
        } else if index == TMA_LOC {
            self.tma = val;
        } else {
            self.tmc = val;
        }
    }
}

impl Timer {
    /// Counter increments that an advance by `ticks` makes.
    pub open spec fn increments(&self, ticks: u8) -> nat {
        ((self.time_elapsed + ticks) / timer_period(self.tmc) as int) as nat
    }

    /// The interrupt request bits an advance by `ticks` raises: bit 2 when
    /// the enabled counter overflows.
    pub open spec fn irq(&self, ticks: u8) -> u8 {
        if timer_enabled(self.tmc) && tima_overflows(self.tima, self.tma, self.increments(ticks)) {
            4
        } else {
            0
        }
    }

    /// Whether `after` is this timer advanced by `ticks` T-states: the
    /// divider rises once per 256 T-states; while TMC enables it, the counter
    /// rises once per period that TMC selects, reloading TMA on overflow.
    pub open spec fn advanced(&self, after: &Timer, ticks: u8) -> bool {
        let dtotal = self.divide_elapsed + ticks;
        let total = self.time_elapsed + ticks;
        let p = timer_period(self.tmc);
        &&& after.tma == self.tma
        &&& after.tmc == self.tmc
        &&& after.divide_elapsed == dtotal % 256
        &&& after.divide == (self.divide + dtotal / 256) % 256
        &&& timer_enabled(self.tmc) ==> after.time_elapsed == total % p as int && after.tima
            == tima_after(self.tima, self.tma, self.increments(ticks))
        &&& !timer_enabled(self.tmc) ==> after.time_elapsed == self.time_elapsed && after.tima
            == self.tima
    }

    /// Advances the timer by `ticks` T-states and returns the interrupt
    /// request bits raised: bit 2 when the counter overflowed.
    ///
    /// The divider rises once per 256 T-states. While TMC enables it, the
    /// counter rises once per period that TMC selects, and on overflow is
    /// reloaded from TMA.
    pub fn update_time(&mut self, ticks: u8) -> (r: u8)
        requires
            old(self).inv(),
        ensures
            final(self).inv(),
            old(self).advanced(final(self), ticks),
            r == old(self).irq(ticks),
    {
        let total_div: u32 = self.divide_elapsed + ticks as u32;
        self.divide = ((self.divide as u32 + total_div / DIVIDE_PERIOD) % 256) as u8;
        self.divide_elapsed = total_div % DIVIDE_PERIOD;

        let mut ret: u8 = 0;
        if self.tmc & 4 != 0 {
            let sel = self.tmc & 3;
            let period: u32 = if sel == 0 {
                1024
            } else if sel == 1 {
                16
            } else if sel == 2 {
                64
            } else {
                256
            };
            let tma = self.tma;
            let mut tima = self.tima;
            let ghost tima0 = self.tima;
            let ghost total = self.time_elapsed + ticks;
            let mut elapsed: u32 = self.time_elapsed + ticks as u32;
            let mut k: u32 = 0;
            while elapsed >= period
                invariant
                    period == timer_period(self.tmc),
                    period >= 16,
                    period <= 1024,
                    elapsed + k * period == total,
                    total < 1024 + 256,
                    k <= total,
                    tma == self.tma,
                    tima == tima_after(tima0, tma, k as nat),
                    ret == (if tima_overflows(tima0, tma, k as nat) { 4u8 } else { 0u8 }),
                decreases elapsed,
            {
                if tima == 255 {
                    tima = tma;
                    ret = 4;
                } else {
                    tima = tima + 1;
                }
                proof {
                    assert((k + 1) * period == k * period + period) by (nonlinear_arith);
                }
                elapsed = elapsed - period;
                k = k + 1;
            }
            proof {
                vstd::arithmetic::div_mod::lemma_fundamental_div_mod_converse(
                    total as int,
                    period as int,
                    k as int,
                    elapsed as int,
                );
            }
            self.time_elapsed = elapsed;
            self.tima = tima;
        }
        ret
    }
}

/// One advance at TMC = 0b100 adds the T-states to those already counted
/// and raises the counter by how many whole 1024s that makes (zero or one,
/// an advance being under 256 T-states), keeping the remainder, and requests
/// no interrupt while the counter does not pass 0xFF; a write to the
/// divider leaves the count, the counter and TMC as they were.
pub proof fn lemma_counter_period(t: Timer, u: Timer, ticks: u8)
    requires
        t.inv(),
        t.tmc & 7 == 4,
        t.tima + (t.time_elapsed + ticks) / 1024 <= 255,
        t.advanced(&u, ticks),
    ensures
        u.time_elapsed == (t.time_elapsed + ticks) % 1024,
        u.tima == t.tima + (t.time_elapsed + ticks) / 1024,
        (t.time_elapsed + ticks) / 1024 <= 1,
        t.irq(ticks) == 0,
        u.inv(),
        u.tmc == t.tmc,
        forall|w: Timer|
            u.written(&w, DIVIDE_LOC, 0) ==> w.time_elapsed == u.time_elapsed && w.tima == u.tima
                && w.tmc == u.tmc,
{
    let tmc = t.tmc;
    assert(tmc & 7 == 4 ==> tmc & 4 != 0 && tmc & 3 == 0) by (bit_vector);
    assert(tima_after(t.tima, t.tma, 0) == t.tima);
    assert(!tima_overflows(t.tima, t.tma, 0));
    if (t.time_elapsed + ticks) / 1024 == 1 {
        assert(tima_after(t.tima, t.tma, 1) == (t.tima + 1) as u8);
        assert(!tima_overflows(t.tima, t.tma, 1));
    }
}

/// A run of the timer: `ts[i+1]` is `ts[i]` advanced by `ticks[i]`
/// T-states, or, where `divw[i]` is set, `ts[i]` after a write to the
/// divider (which takes no time: `ticks[i]` is 0).
pub open spec fn timer_run(ts: Seq<Timer>, ticks: Seq<u8>, divw: Seq<bool>) -> bool {
    &&& ts.len() == ticks.len() + 1
    &&& divw.len() == ticks.len()
    &&& forall|i: int|
        0 <= i < ticks.len() ==> if #[trigger] divw[i] {
            ticks[i] == 0 && ts[i].written(&ts[i + 1], DIVIDE_LOC, 0)
        } else {
            ts[i].advanced(&ts[i + 1], ticks[i])
        }
}

/// Sum of a sequence of advances.
pub open spec fn tick_sum(ticks: Seq<u8>) -> int
    decreases ticks.len(),
{
    if ticks.len() == 0 {
        0
    } else {
        ticks[0] + tick_sum(ticks.drop_first())
    }
}

proof fn lemma_tick_sum_nonneg(ticks: Seq<u8>)
    ensures
        tick_sum(ticks) >= 0,
    decreases ticks.len(),
{
    if ticks.len() > 0 {
        lemma_tick_sum_nonneg(ticks.drop_first());
    }
}

/// At TMC = 0b100, over any run of advances adding up to `T` T-states, with
/// any number of divider writes between them, the counter rises by exactly
/// `(e + T) / 1024` where `e` is the count the run started from (so, from a
/// fresh count, once per 1024 T-states), and no advance requests the timer
/// interrupt, as long as the counter does not pass 0xFF.
pub proof fn lemma_counter_run(ts: Seq<Timer>, ticks: Seq<u8>, divw: Seq<bool>)
    requires
        timer_run(ts, ticks, divw),
        ts[0].inv(),
        ts[0].tmc & 7 == 4,
        ts[0].tima + (ts[0].time_elapsed + tick_sum(ticks)) / 1024 <= 255,
    ensures
        ts.last().tima == ts[0].tima + (ts[0].time_elapsed + tick_sum(ticks)) / 1024,
        ts.last().time_elapsed == (ts[0].time_elapsed + tick_sum(ticks)) % 1024,
        forall|i: int| 0 <= i < ticks.len() && !divw[i] ==> #[trigger] ts[i].irq(ticks[i]) == 0,
    decreases ticks.len(),
{
    if ticks.len() > 0 {
        let t0 = ts[0];
        let t1 = ts[1];
        let x = t0.time_elapsed + ticks[0];
        let rest = tick_sum(ticks.drop_first());
        lemma_tick_sum_nonneg(ticks.drop_first());
        assert(tick_sum(ticks) == ticks[0] + rest);
        vstd::arithmetic::div_mod::lemma_div_is_ordered(x, t0.time_elapsed + tick_sum(ticks), 1024);
        if divw[0] {
            assert(ticks[0] == 0 && t0.written(&t1, DIVIDE_LOC, 0));
            assert(t1.time_elapsed == t0.time_elapsed && t1.tima == t0.tima && t1.tmc == t0.tmc);
            assert(t1.inv());
        } else {
            assert(t0.advanced(&t1, ticks[0]));
            lemma_counter_period(t0, t1, ticks[0]);
        }
        let q = x / 1024;
        let m = x % 1024;
        assert(t1.tima == t0.tima + q);
        assert(t1.time_elapsed == m);
        vstd::arithmetic::div_mod::lemma_fundamental_div_mod(x, 1024);
        vstd::arithmetic::div_mod::lemma_fundamental_div_mod(m + rest, 1024);
        vstd::arithmetic::div_mod::lemma_fundamental_div_mod_converse(
            x + rest,
            1024,
            q + (m + rest) / 1024,
            (m + rest) % 1024,
        );
        let ts2 = ts.drop_first();
        let ticks2 = ticks.drop_first();
        let divw2 = divw.drop_first();
        assert forall|i: int| 0 <= i < ticks2.len() implies if #[trigger] divw2[i] {
            ticks2[i] == 0 && ts2[i].written(&ts2[i + 1], DIVIDE_LOC, 0)
        } else {
            ts2[i].advanced(&ts2[i + 1], ticks2[i])
        } by {
            assert(divw[i + 1] == divw2[i]);
        }
        lemma_counter_run(ts2, ticks2, divw2);
        assert(ts2.last() == ts.last());
        assert forall|i: int| 0 <= i < ticks.len() && !divw[i] implies #[trigger] ts[i].irq(ticks[i]) == 0 by {
            if i > 0 {
                assert(ts2[i - 1] == ts[i] && ticks2[i - 1] == ticks[i] && divw2[i - 1] == divw[i]);
            }
        }
    }
}

} // verus!

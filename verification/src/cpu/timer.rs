//! The divider and the programmable timer.

use vstd::prelude::*;

use crate::bytes::ByteExt;
use crate::cpu::MCycles;

verus! {

/// The timer I/O registers.
#[derive(Debug, Clone, Copy, PartialEq, Eq, Structural)]
pub struct TimerRegisters {
    /// TIMA: the timer counter.
    pub counter: u8,
    /// TMA: the value the counter is reloaded with when it overflows.
    pub modulo: u8,
    /// TAC: bit 2 enables the timer, bits 0-1 select its frequency.
    pub control: u8,
    /// DIV: incremented every 64 M-cycles.
    pub divider: u8,
}

impl TimerRegisters {
    /// Returns the value of the divider register.
    pub fn divider(&self) -> (r: u8)
        ensures
            r == self.divider,
    {
        self.divider
    }
}

/// The timer state.
#[derive(Debug, Clone, Copy, PartialEq, Eq, Structural)]
pub struct Timer {
    /// Divider internal counter. Increments the divider register once it reaches 64 M-cycles.
    pub div_counter: u32,
    /// Timer internal counter.
    pub timer_counter: u32,
    /// The amount of time ticked since the last call to `reset_diff`.
    pub diff: u32,
    /// The registers.
    pub reg: TimerRegisters,
}

/// The number of M-cycles between two increments of the timer counter, selected by the low two
/// bits of the control register.
pub open spec fn threshold(control: u8) -> int {
    let sel = control % 4;
    if sel == 0 { 256 } else if sel == 1 { 4 } else if sel == 2 { 16 } else { 64 }
}

/// Whether the timer counter runs: bit 2 of the control register.
pub open spec fn timer_enabled(control: u8) -> bool {
    (control / 4) % 2 == 1
}

/// The counter after `k` increments, and whether any of them overflowed. An increment of 255
/// overflows and reloads the counter with `modulo`.
pub open spec fn counter_after(counter: u8, modulo: u8, k: nat) -> (u8, bool)
    decreases k,
{
    if k == 0 {
        (counter, false)
    } else {
        let (next, overflow) = if counter == 255 {
            (modulo, true)
        } else {
            ((counter + 1) as u8, false)
        };
        let (last, later) = counter_after(next, modulo, (k - 1) as nat);
        (last, overflow || later)
    }
}

impl Timer {
    /// A timer with every counter and register zero.
    pub open spec fn new_spec() -> Timer {
        Timer {
            div_counter: 0,
            timer_counter: 0,
            diff: 0,
            reg: TimerRegisters { counter: 0, modulo: 0, control: 0, divider: 0 },
        }
    }

    /// A timer with every counter and register zero.
    pub fn new() -> (r: Timer)
        ensures
            r.wf(),
            r == (Timer {
                div_counter: 0,
                timer_counter: 0,
                diff: 0,
                reg: TimerRegisters { counter: 0, modulo: 0, control: 0, divider: 0 },
            }),
    {
        Timer {
            div_counter: 0,
            timer_counter: 0,
            diff: 0,
            reg: TimerRegisters { counter: 0, modulo: 0, control: 0, divider: 0 },
        }
    }

    /// The internal counters stay below the periods they count.
    pub open spec fn wf(self) -> bool {
        &&& self.div_counter < 64
        &&& self.timer_counter < 256
    }

    /// What ticking does: `after` and `requested_after` are the timer and the timer interrupt's
    /// request flag after `mtime` M-cycles from `self` and `requested`.
    ///
    /// The divider always counts. The timer counter counts only while enabled, once per
    /// threshold period, possibly several times in one tick; each overflow reloads it with the
    /// modulo and requests the timer interrupt.
    pub open spec fn tick_relation(self, mtime: u32, requested: bool, after: Timer, requested_after: bool) -> bool {
        &&& after.diff == self.diff + mtime
        &&& after.div_counter == (self.div_counter + mtime) % 64
        &&& after.reg.divider == (self.reg.divider + (self.div_counter + mtime) / 64) % 256
        &&& after.reg.modulo == self.reg.modulo
        &&& after.reg.control == self.reg.control
        &&& timer_enabled(self.reg.control) ==> {
            let total = self.timer_counter + mtime;
            let t = threshold(self.reg.control);
            let (counter, overflow) = counter_after(self.reg.counter, self.reg.modulo, (total / t) as nat);
            &&& after.timer_counter == total % t
            &&& after.reg.counter == counter
            &&& requested_after == (requested || overflow)
        }
        &&& !timer_enabled(self.reg.control) ==> {
            &&& after.timer_counter == self.timer_counter
            &&& after.reg.counter == self.reg.counter
            &&& requested_after == requested
        }
    }

    /// Increment all timer-related registers by the M-time of the last instruction.
    pub fn tick(&mut self, mtime: MCycles, interrupt_requested: &mut bool)
        requires
            old(self).wf(),
            mtime.0 <= u32::MAX - 256,
            old(self).diff + mtime.0 <= u32::MAX,
        ensures
            final(self).wf(),
            old(self).tick_relation(mtime.0, *old(interrupt_requested), *final(self), *final(interrupt_requested)),
    {
        self.diff = self.diff + mtime.0;
        let div_total = self.div_counter + mtime.0;
        self.div_counter = div_total % 64;
        self.reg.divider = ((self.reg.divider as u32 + div_total / 64) % 256) as u8;

        if !self.is_enabled() {
            return;
        }

        let total = self.timer_counter + mtime.0;
        let sel = self.reg.control % 4;
        let threshold: u32 = if sel == 0 { 256 } else if sel == 1 { 4 } else if sel == 2 { 16 } else { 64 };
        let increments = total / threshold;
        self.timer_counter = total % threshold;

        let ghost start = self.reg.counter;
        let modulo = self.reg.modulo;
        let ghost requested_before = *interrupt_requested;
        let ghost snap = *self;
        let mut i: u32 = 0;
        while i < increments
            invariant
                i <= increments,
                self.reg.modulo == modulo,
                self.div_counter == snap.div_counter,
                self.timer_counter == snap.timer_counter,
                self.diff == snap.diff,
                self.reg.control == snap.reg.control,
                self.reg.divider == snap.reg.divider,
                ({
                    let (c, o) = counter_after(self.reg.counter, modulo, (increments - i) as nat);
                    let (c0, o0) = counter_after(start, modulo, increments as nat);
                    c == c0 && (*interrupt_requested || o) == (requested_before || o0)
                }),
            decreases increments - i,
        {
            if self.reg.counter == 255 {
                self.reg.counter = modulo;
                *interrupt_requested = true;
            } else {
                self.reg.counter = self.reg.counter + 1;
            }
            i = i + 1;
        }
    }

    /// Returns the number of M-cycles that have passed since the last call of `reset_diff`.
    pub fn diff(&self) -> (r: MCycles)
        ensures
            r.0 == self.diff,
    {
        MCycles(self.diff)
    }

    /// Restarts counting the elapsed M-cycles.
    pub fn reset_diff(&mut self)
        ensures
            *final(self) == (Timer { diff: 0, ..*old(self) }),
    {
        self.diff = 0;
    }

    /// Resets the divider register and both internal counters (a write to `DIV`).
    pub fn reset_divider(&mut self)
        ensures
            *final(self) == (Timer {
                div_counter: 0,
                timer_counter: 0,
                reg: TimerRegisters { divider: 0, ..old(self).reg },
                ..*old(self)
            }),
    {
        self.reg.divider = 0;
        self.div_counter = 0;
        self.timer_counter = 0;
    }

    /// Whether the timer counter runs: bit 2 of the control register.
    pub fn is_enabled(&self) -> (r: bool)
        ensures
            r == timer_enabled(self.reg.control),
    {
        proof {
            reveal(crate::bytes::bit);
            assert(crate::bytes::pow2_u8(2) == 4);
        }
        self.reg.control.has_bit_set(2)
    }
}

impl Default for Timer {
    fn default() -> (r: Timer)
        ensures
            r.wf(),
            r == (Timer {
                div_counter: 0,
                timer_counter: 0,
                diff: 0,
                reg: TimerRegisters { counter: 0, modulo: 0, control: 0, divider: 0 },
            }),
    {
        Timer::new()
    }
}

/// The sum of a sequence of M-cycle counts.
pub open spec fn total_m_cycles(ms: Seq<u32>) -> int
    decreases ms.len(),
{
    if ms.len() == 0 {
        0
    } else {
        total_m_cycles(ms.drop_last()) + ms.last()
    }
}

/// After the elapsed count is reset, it counts every M-cycle ticked since, whether or not the
/// timer is enabled: over ticks of `ms[0]`, `ms[1]`, ... M-cycles, taking the timer through
/// `timers`, the count reads their sum.
pub proof fn lemma_diff_counts_ticks(timers: Seq<Timer>, requested: Seq<bool>, ms: Seq<u32>)
    requires
        timers.len() == ms.len() + 1,
        requested.len() == ms.len() + 1,
        timers[0].diff == 0,
        forall|i: int| 0 <= i < ms.len() ==> #[trigger] timers[i].tick_relation(ms[i], requested[i], timers[i + 1], requested[i + 1]),
    ensures
        timers.last().diff == total_m_cycles(ms),
    decreases ms.len(),
{
    if ms.len() > 0 {
        let n = ms.len() - 1;
        let (t, q, m) = (timers.drop_last(), requested.drop_last(), ms.drop_last());
        assert forall|i: int| 0 <= i < m.len() implies #[trigger] t[i].tick_relation(m[i], q[i], t[i + 1], q[i + 1]) by {
            assert(timers[i].tick_relation(ms[i], requested[i], timers[i + 1], requested[i + 1]));
        }
        lemma_diff_counts_ticks(t, q, m);
        assert(timers[n].tick_relation(ms[n], requested[n], timers[n + 1], requested[n + 1]));
    }
}

} // verus!

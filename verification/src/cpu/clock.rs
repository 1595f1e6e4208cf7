//! A cycle counter.

use vstd::prelude::*;

verus! {

/// The clock.
#[derive(Debug, Clone, Copy, PartialEq, Eq, Structural)]
pub struct Clock {
    /// Machine cycle state. One machine cycle = 4 clock cycles.
    pub m: u32,

    /// Clock cycle state.
    pub t: u32,

    /// The number of T-cycles ticked in the last tick.
    pub diff: u32,
}

impl Clock {
    /// A clock at zero.
    pub fn new() -> (r: Self)
        ensures
            r.m == 0,
            r.t == 0,
            r.diff == 0,
    {
        Clock { m: 0, t: 0, diff: 0 }
    }

    /// The number of T-cycles ticked in the last tick.
    pub closed spec fn spec_diff(self) -> u32 {
        self.diff
    }

    /// Tick a number of T-cycles.
    pub fn tick(&mut self, t: u32)
        requires
            old(self).t + t <= u32::MAX,
            old(self).m + t / 4 <= u32::MAX,
        ensures
            final(self).t == old(self).t + t,
            final(self).m == old(self).m + t / 4,
            final(self).diff == t,
    {
        self.t = self.t + t;
        self.m = self.m + t / 4;
        self.diff = t;
    }

    /// Return the number of T-cycles ticked in the last tick.
    pub fn diff(&self) -> (r: u32)
        ensures
            r == self.diff,
    {
        self.diff
    }

    /// Reset the clock to zero.
    pub fn reset(&mut self)
        ensures
            final(self).m == 0,
            final(self).t == 0,
            final(self).diff == 0,
    {
        *self = Clock::new();
    }
}

impl Default for Clock {
    fn default() -> (r: Self)
        ensures
            r.m == 0,
            r.t == 0,
            r.diff == 0,
    {
        Clock::new()
    }
}

} // verus!

//! Clock divider: counts rising edges on the clock input and emits divided
//! gates at /2, /4, /8, /16. A reset edge restarts the count. Each output is
//! high for the first half of its divided period (50% duty).

use vstd::prelude::*;
use crate::units::gate::{level_after, rising};

verus! {

/// The divisions of the four outputs.
pub open spec fn division(i: int) -> u32 {
    if i == 0 {
        2
    } else if i == 1 {
        4
    } else if i == 2 {
        8
    } else {
        16
    }
}

/// Level of the output dividing by `div` after `count` edges: low before the
/// first edge, then high during the first half of each divided period.
pub open spec fn divided_level(count: u32, div: u32) -> bool {
    count != 0 && ((count as int - 1) % div as int) < div / 2
}

pub struct ClockDiv {
    count: u32,
    clock_high: bool,
    reset_high: bool,
}

impl ClockDiv {
    /// Rising clock edges counted since the last reset.
    pub closed spec fn count(&self) -> u32 {
        self.count
    }

    /// Last seen level of the clock input.
    pub closed spec fn clock_high(&self) -> bool {
        self.clock_high
    }

    /// Last seen level of the reset input.
    pub closed spec fn reset_high(&self) -> bool {
        self.reset_high
    }

    pub fn new() -> (r: ClockDiv)
        ensures
            r.count() == 0,
            !r.clock_high(),
            !r.reset_high(),
    {
        ClockDiv { count: 0, clock_high: false, reset_high: false }
    }

    /// Advance one frame. `reset` and `clock` are the inputs' gate levels,
    /// `None` when unconnected. Returns the levels of the /2, /4, /8 and /16
    /// outputs. A reset rising edge clears the count; a clock rising edge
    /// then counts (wrapping).
    pub fn tick(&mut self, clock: Option<bool>, reset: Option<bool>) -> (r: [bool; 4])
        ensures
            ({
                let c0 = if rising(reset, old(self).reset_high()) {
                    0
                } else {
                    old(self).count()
                };
                let c1 = if rising(clock, old(self).clock_high()) {
                    if c0 == u32::MAX { 0 } else { (c0 + 1) as u32 }
                } else {
                    c0
                };
                &&& final(self).count() == c1
                &&& final(self).reset_high() == level_after(reset, old(self).reset_high())
                &&& final(self).clock_high() == level_after(clock, old(self).clock_high())
            }),
            forall|i: int| 0 <= i < 4 ==> #[trigger] r@[i] == divided_level(final(self).count(), division(i)),
    {
        if let Some(h) = reset {
            if h && !self.reset_high {
                self.count = 0;
            }
            self.reset_high = h;
        }
        if let Some(h) = clock {
            if h && !self.clock_high {
                self.count = self.count.wrapping_add(1);
            }
            self.clock_high = h;
        }
        let r = [level(self.count, 2), level(self.count, 4), level(self.count, 8), level(self.count, 16)];
        r
    }
}

/// Level of one divided output.
fn level(count: u32, div: u32) -> (r: bool)
    requires
        div >= 2,
    ensures
        r == divided_level(count, div),
{
    count != 0 && (count - 1) % div < div / 2
}

/// The output dividing by `div` rises exactly on input edges 1, 1 + div,
/// 1 + 2 div, ...: one output pulse per `div` counted edges.
pub proof fn lemma_division_rises(count: u32, div: u32)
    requires
        div >= 2,
        div % 2 == 0,
        1 <= count,
    ensures
        (divided_level(count, div) && !divided_level((count - 1) as u32, div)) <==> ((count - 1) % (
        div as int) == 0),
{
    let c = count as int;
    let d = div as int;
    if c == 1 {
        assert(0int % d == 0);
    } else {
        assert(((c - 1) % d == 0) ==> ((c - 2) % d == d - 1)) by (nonlinear_arith)
            requires
                d >= 2,
                c >= 2,
        ;
        assert(((c - 1) % d != 0) ==> ((c - 2) % d == (c - 1) % d - 1)) by (nonlinear_arith)
            requires
                d >= 2,
                c >= 2,
        ;
        assert(0 <= (c - 1) % d < d) by (nonlinear_arith)
            requires
                d >= 2,
        ;
    }
}

/// After a reset edge with no clock edge in the same frame every output is
/// low.
pub proof fn lemma_reset_silences(i: int)
    ensures
        !divided_level(0, division(i)),
{
}

} // verus!

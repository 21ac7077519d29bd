//! SEQ-8 step counter: advances on the clock input's rising edge (the first
//! edge plays step 1 rather than skipping it) and returns to step 1 on a
//! reset rising edge. Step pitches are read by the DSP code.

use vstd::prelude::*;
use crate::units::gate::{level_after, rising};

verus! {

pub struct Seq8 {
    steps: u8,
    current: u8,
    started: bool,
    clock_high: bool,
    reset_high: bool,
}

impl Seq8 {
    #[verifier::type_invariant]
    spec fn inv(self) -> bool {
        &&& 1 <= self.steps <= 8
        &&& self.current < self.steps
    }

    /// Number of steps played.
    pub closed spec fn steps(&self) -> u8 {
        self.steps
    }

    /// Index of the step playing.
    pub closed spec fn current(&self) -> u8 {
        self.current
    }

    /// Whether the first clock edge since the last reset arrived.
    pub closed spec fn started(&self) -> bool {
        self.started
    }

    pub closed spec fn clock_high(&self) -> bool {
        self.clock_high
    }

    pub closed spec fn reset_high(&self) -> bool {
        self.reset_high
    }

    /// Eight steps, waiting on step 1 for the first edge.
    pub fn new() -> (r: Seq8)
        ensures
            r.steps() == 8,
            r.current() == 0,
            !r.started(),
            !r.clock_high(),
            !r.reset_high(),
    {
        Seq8 { steps: 8, current: 0, started: false, clock_high: false, reset_high: false }
    }

    /// Set the number of steps (clamped to 1..=8); a step beyond the new
    /// length wraps back into it.
    pub fn set_steps(&mut self, v: u8)
        ensures
            final(self).steps() == (if v < 1 {
                1
            } else if v > 8 {
                8
            } else {
                v
            }),
            final(self).current() == old(self).current() % final(self).steps(),
            final(self).started() == old(self).started(),
            final(self).clock_high() == old(self).clock_high(),
            final(self).reset_high() == old(self).reset_high(),
    {
        proof {
            use_type_invariant(&*self);
        }
        let s = if v < 1 {
            1
        } else if v > 8 {
            8
        } else {
            v
        };
        let c = self.current % s;
        assert(c <= self.current && c < s) by (nonlinear_arith)
            requires
                c == self.current % s,
                s >= 1,
        ;
        self.current = c;
        self.steps = s;
    }

    /// The step playing.
    pub fn current_step(&self) -> (r: usize)
        ensures
            r == self.current(),
            r < 8,
    {
        proof {
            use_type_invariant(self);
        }
        self.current as usize
    }

    /// Advance one frame; `clock` is the clock gate (low when unconnected),
    /// `reset` the reset gate (`None` when unconnected). Returns the step
    /// playing.
    pub fn tick(&mut self, clock: bool, reset: Option<bool>) -> (r: usize)
        ensures
            ({
                let rs = rising(reset, old(self).reset_high());
                let c0 = if rs { 0 } else { old(self).current() };
                let st0 = if rs { false } else { old(self).started() };
                let edge = clock && !old(self).clock_high();
                &&& final(self).current() == (if edge && st0 {
                    ((c0 + 1) % old(self).steps() as int) as u8
                } else {
                    c0
                })
                &&& final(self).started() == (st0 || edge)
                &&& final(self).clock_high() == clock
                &&& final(self).reset_high() == level_after(reset, old(self).reset_high())
            }),
            final(self).steps() == old(self).steps(),
            r == final(self).current(),
    {
        proof {
            use_type_invariant(&*self);
        }
        if let Some(h) = reset {
            if h && !self.reset_high {
                self.current = 0;
                self.started = false;
            }
            self.reset_high = h;
        }
        if clock && !self.clock_high {
            if self.started {
                self.current = (self.current + 1) % self.steps;
            } else {
                self.started = true;
            }
        }
        self.clock_high = clock;
        self.current_step()
    }
}

} // verus!

//! Routing decisions: the sequential switch's step counter and the
//! octave/transpose offsets. The CV mixer has no state.

use vstd::prelude::*;
use crate::units::gate::{level_after, rising};

verus! {

/// Param index of the sequential switch's step count (switch value + 1).
pub const SEQSWITCH_STEPS: u32 = 0;

/// Sequential switch (4 inputs -> 1 output, advanced by clock).
pub struct SeqSwitch {
    steps: u32,
    step: u32,
    clock_high: bool,
    reset_high: bool,
}

impl SeqSwitch {
    #[verifier::type_invariant]
    spec fn inv(self) -> bool {
        &&& 2 <= self.steps <= 4
        &&& self.step < 4
    }

    /// Number of inputs cycled through.
    pub closed spec fn steps(&self) -> u32 {
        self.steps
    }

    /// Index of the selected input.
    pub closed spec fn step(&self) -> u32 {
        self.step
    }

    pub closed spec fn clock_high(&self) -> bool {
        self.clock_high
    }

    pub closed spec fn reset_high(&self) -> bool {
        self.reset_high
    }

    /// Four steps, first input selected.
    pub fn new() -> (r: SeqSwitch)
        ensures
            r.steps() == 4,
            r.step() == 0,
            !r.clock_high(),
            !r.reset_high(),
    {
        SeqSwitch { steps: 4, step: 0, clock_high: false, reset_high: false }
    }

    /// Set the step count: the switch value plus one, clamped to 2..=4.
    pub fn set_param(&mut self, param: u32, value: u32)
        requires
            param == SEQSWITCH_STEPS ==> value < u32::MAX,
        ensures
            final(self).steps() == (if param == SEQSWITCH_STEPS {
                if value + 1 < 2 {
                    2
                } else if value + 1 > 4 {
                    4
                } else {
                    (value + 1) as u32
                }
            } else {
                old(self).steps()
            }),
            final(self).step() == old(self).step(),
            final(self).clock_high() == old(self).clock_high(),
            final(self).reset_high() == old(self).reset_high(),
    {
        proof {
            use_type_invariant(&*self);
        }
        if param == SEQSWITCH_STEPS {
            let v = value + 1;
            self.steps = if v < 2 {
                2
            } else if v > 4 {
                4
            } else {
                v
            };
        }
    }

    /// The input currently routed to the output.
    pub fn selected(&self) -> (r: usize)
        ensures
            r == self.step(),
            r < 4,
    {
        proof {
            use_type_invariant(self);
        }
        (self.step % 4) as usize
    }

    /// Advance one frame; `clock` is the clock gate (low when unconnected),
    /// `reset` the reset gate (`None` when unconnected). A reset rising edge
    /// selects the first input, a clock rising edge the next one around.
    /// Returns the selected input.
    pub fn tick(&mut self, clock: bool, reset: Option<bool>) -> (r: usize)
        ensures
            ({
                let s0 = if rising(reset, old(self).reset_high()) { 0 } else { old(self).step() };
                let s1 = if clock && !old(self).clock_high() {
                    ((s0 + 1) % old(self).steps() as int) as u32
                } else {
                    s0
                };
                &&& final(self).step() == s1
                &&& final(self).reset_high() == level_after(reset, old(self).reset_high())
                &&& final(self).clock_high() == clock
            }),
            final(self).steps() == old(self).steps(),
            r == final(self).step(),
    {
        proof {
            use_type_invariant(&*self);
        }
        if let Some(h) = reset {
            if h && !self.reset_high {
                self.step = 0;
            }
            self.reset_high = h;
        }
        if clock && !self.clock_high {
            self.step = (self.step + 1) % self.steps;
        }
        self.clock_high = clock;
        self.selected()
    }
}

/// Clocking a switch of `steps` inputs `steps` times from the first input
/// brings it back to the first input.
pub proof fn lemma_switch_cycle(steps: int, k: int)
    requires
        2 <= steps <= 4,
        0 <= k,
    ensures
        (k % steps + 1) % steps == (k + 1) % steps,
{
    assert((k % steps + 1) % steps == (k + 1) % steps) by (nonlinear_arith)
        requires
            2 <= steps <= 4,
            0 <= k,
    ;
}

/// CV mixer / precision adder: stateless.
pub struct CvMix;

impl CvMix {
    pub fn new() -> (r: CvMix) {
        CvMix
    }
}

/// Param index of the octave shift (switch 0..=8 for -4..=4 octaves).
pub const OCTAVE_OCTAVES: u32 = 0;
/// Param index of the semitone shift (switch 0..=24 for -12..=12).
pub const OCTAVE_SEMIS: u32 = 1;

/// Octave / transpose offsets.
pub struct Octave {
    octaves: i32,
    semis: i32,
}

impl Octave {
    pub closed spec fn spec_octaves(&self) -> i32 {
        self.octaves
    }

    pub closed spec fn spec_semis(&self) -> i32 {
        self.semis
    }

    /// No transposition.
    pub fn new() -> (r: Octave)
        ensures
            r.spec_octaves() == 0,
            r.spec_semis() == 0,
    {
        Octave { octaves: 0, semis: 0 }
    }

    /// Set a switch from its integer value: octaves are centred on 4,
    /// semitones on 12.
    pub fn set_param(&mut self, param: u32, value: i32)
        requires
            param == OCTAVE_OCTAVES ==> value >= i32::MIN + 4,
            param == OCTAVE_SEMIS ==> value >= i32::MIN + 12,
        ensures
            final(self).spec_octaves() == (if param == OCTAVE_OCTAVES {
                (value - 4) as i32
            } else {
                old(self).spec_octaves()
            }),
            final(self).spec_semis() == (if param == OCTAVE_SEMIS {
                (value - 12) as i32
            } else {
                old(self).spec_semis()
            }),
    {
        if param == OCTAVE_OCTAVES {
            self.octaves = value - 4;
        } else if param == OCTAVE_SEMIS {
            self.semis = value - 12;
        }
    }

    /// Octave shift.
    pub fn octaves(&self) -> (r: i32)
        ensures
            r == self.spec_octaves(),
    {
        self.octaves
    }

    /// Semitone shift.
    pub fn semis(&self) -> (r: i32)
        ensures
            r == self.spec_semis(),
    {
        self.semis
    }
}

} // verus!

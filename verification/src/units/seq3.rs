//! Rhythm modules: a four-track, 16-step trigger grid and a four-step
//! ratchet sequencer, both advanced by a clock. Trigger lengths and the
//! spacing of ratchet sub-triggers are timed by the DSP code.

use vstd::prelude::*;

verus! {

/// Steps per Beats track.
pub const BEATS_STEPS: usize = 16;

/// Abstract state of the Beats grid.
pub struct BeatsView {
    pub step: usize,
    pub prev_clock: bool,
    pub prev_reset: bool,
    pub masks: Seq<u32>,
}

/// Four tracks of 16-step on/off patterns, each a 16-bit mask (bit s = step
/// s on), sharing one clock.
pub struct Beats {
    step: usize,
    prev_clock: bool,
    prev_reset: bool,
    masks: [u32; 4],
}

impl View for Beats {
    type V = BeatsView;

    closed spec fn view(&self) -> BeatsView {
        BeatsView {
            step: self.step,
            prev_clock: self.prev_clock,
            prev_reset: self.prev_reset,
            masks: self.masks@,
        }
    }
}

/// Track `t` fires on `step`.
pub open spec fn mask_hit(mask: u32, step: usize) -> bool {
    mask & (1u32 << step) != 0
}

impl Beats {
    pub open spec fn wf(&self) -> bool {
        &&& self@.step < BEATS_STEPS
        &&& self@.masks.len() == 4
    }

    /// Default groove: kick on 1/5/9/13, snare on 5/13, hats on every other
    /// step, fourth track empty.
    pub fn new() -> (r: Beats)
        ensures
            r.wf(),
            r@.step == 0,
            !r@.prev_clock,
            !r@.prev_reset,
            r@.masks == seq![0x1111u32, 0x1010u32, 0x5555u32, 0x0000u32],
    {
        let r = Beats { step: 0, prev_clock: false, prev_reset: false, masks: [0x1111, 0x1010, 0x5555, 0x0000] };
        assert(r@.masks =~= seq![0x1111u32, 0x1010u32, 0x5555u32, 0x0000u32]);
        r
    }

    /// Set track `param`'s mask (its low 16 bits); other params are ignored.
    pub fn set_param(&mut self, param: u32, value: u32)
        requires
            old(self).wf(),
        ensures
            final(self).wf(),
            final(self)@ == (if param < 4 {
                BeatsView { masks: old(self)@.masks.update(param as int, value & 0xFFFF), ..old(self)@ }
            } else {
                old(self)@
            }),
    {
        if param < 4 {
            self.masks[param as usize] = value & 0xFFFF;
        }
    }

    /// Advance one frame on the clock and reset gates (low when
    /// unconnected). A reset rising edge returns to step 0; a clock rising
    /// edge fires every track whose mask holds the current step, then moves
    /// to the next step. Returns which tracks fire.
    pub fn tick(&mut self, clock: bool, reset: bool) -> (r: [bool; 4])
        requires
            old(self).wf(),
        ensures
            final(self).wf(),
            ({
                let s0 = if reset && !old(self)@.prev_reset { 0 } else { old(self)@.step };
                let edge = clock && !old(self)@.prev_clock;
                &&& final(self)@.step == (if edge { ((s0 + 1) % 16) as usize } else { s0 })
                &&& forall|t: int| 0 <= t < 4 ==> #[trigger] r@[t] == (edge && mask_hit(old(self)@.masks[t], s0))
                &&& final(self)@.prev_clock == clock
                &&& final(self)@.prev_reset == reset
                &&& final(self)@.masks == old(self)@.masks
            }),
    {
        if reset && !self.prev_reset {
            self.step = 0;
        }
        self.prev_reset = reset;
        let mut fire = [false; 4];
        if clock && !self.prev_clock {
            let one: u32 = 1;
            let s = self.step;
            fire = [
                self.masks[0] & (one << s) != 0,
                self.masks[1] & (one << s) != 0,
                self.masks[2] & (one << s) != 0,
                self.masks[3] & (one << s) != 0,
            ];
            self.step = (self.step + 1) % BEATS_STEPS;
        }
        self.prev_clock = clock;
        fire
    }
}

/// Abstract state of the ratchet.
pub struct RatchetView {
    pub step: usize,
    pub prev_clock: bool,
    pub prev_reset: bool,
    pub counts: Seq<u32>,
}

/// Four steps, each firing 1..=8 evenly spaced sub-triggers per clock.
pub struct Ratchet {
    step: usize,
    prev_clock: bool,
    prev_reset: bool,
    counts: [u32; 4],
}

impl View for Ratchet {
    type V = RatchetView;

    closed spec fn view(&self) -> RatchetView {
        RatchetView {
            step: self.step,
            prev_clock: self.prev_clock,
            prev_reset: self.prev_reset,
            counts: self.counts@,
        }
    }
}

impl Ratchet {
    pub open spec fn wf(&self) -> bool {
        &&& self@.step < 4
        &&& self@.counts.len() == 4
        &&& forall|i: int| 0 <= i < 4 ==> 1 <= #[trigger] self@.counts[i] <= 8
    }

    /// Counts 1, 2, 1, 4.
    pub fn new() -> (r: Ratchet)
        ensures
            r.wf(),
            r@.step == 0,
            !r@.prev_clock,
            !r@.prev_reset,
            r@.counts == seq![1u32, 2u32, 1u32, 4u32],
    {
        let r = Ratchet { step: 0, prev_clock: false, prev_reset: false, counts: [1, 2, 1, 4] };
        assert(r@.counts =~= seq![1u32, 2u32, 1u32, 4u32]);
        r
    }

    /// Set step `param`'s count: the switch value plus one, clamped to 1..=8.
    pub fn set_param(&mut self, param: u32, value: u32)
        requires
            old(self).wf(),
            param < 4 ==> value < u32::MAX,
        ensures
            final(self).wf(),
            final(self)@ == (if param < 4 {
                RatchetView {
                    counts: old(self)@.counts.update(
                        param as int,
                        if value + 1 > 8 {
                            8
                        } else {
                            (value + 1) as u32
                        },
                    ),
                    ..old(self)@
                }
            } else {
                old(self)@
            }),
    {
        if param < 4 {
            let v = value + 1;
            self.counts[param as usize] = if v > 8 {
                8
            } else {
                v
            };
        }
    }

    /// Advance one frame on the clock and reset gates (low when
    /// unconnected). A reset rising edge returns to step 0; a clock rising
    /// edge starts the current step, returning its number of sub-triggers,
    /// and moves to the next step.
    pub fn tick(&mut self, clock: bool, reset: bool) -> (r: Option<u32>)
        requires
            old(self).wf(),
        ensures
            final(self).wf(),
            ({
                let s0 = if reset && !old(self)@.prev_reset { 0 } else { old(self)@.step };
                let edge = clock && !old(self)@.prev_clock;
                &&& final(self)@.step == (if edge { ((s0 + 1) % 4) as usize } else { s0 })
                &&& r == (if edge { Some(old(self)@.counts[s0 as int]) } else { None::<u32> })
                &&& final(self)@.prev_clock == clock
                &&& final(self)@.prev_reset == reset
                &&& final(self)@.counts == old(self)@.counts
            }),
    {
        if reset && !self.prev_reset {
            self.step = 0;
        }
        self.prev_reset = reset;
        let mut out = None;
        if clock && !self.prev_clock {
            out = Some(self.counts[self.step]);
            self.step = (self.step + 1) % 4;
        }
        self.prev_clock = clock;
        out
    }
}

} // verus!

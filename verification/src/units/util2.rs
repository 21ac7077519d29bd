//! Utility modules: rectifier, voltmeter, display probe, the burst
//! generator's pulse count and the MIDI CC source's controller number.

use vstd::prelude::*;
use crate::units::gate::{level_after, rising};

verus! {

/// Rectify / min-max of two inputs. Stateless.
pub struct Rectify;

impl Rectify {
    pub fn new() -> (r: Rectify) {
        Rectify
    }
}

/// Pass-through whose meter the UI shows as a value. Stateless.
pub struct Voltmeter;

impl Voltmeter {
    pub fn new() -> (r: Voltmeter) {
        Voltmeter
    }
}

/// Transparent pass-through used by the scope and spectrum displays.
pub struct Probe;

impl Probe {
    pub fn new() -> (r: Probe) {
        Probe
    }
}

/// Param index of the burst's pulse count.
pub const BURST_COUNT: u32 = 0;

/// Burst / ratchet generator: a trigger edge arms `count` evenly spaced
/// pulses. The spacing and pulse width are timed by the DSP code, which
/// reports each finished sub-interval.
pub struct Burst {
    count: u32,
    remaining: u32,
    trig_high: bool,
}

/// Pulses per burst, pulses still to come, last trigger level.
pub struct BurstView {
    pub count: u32,
    pub remaining: u32,
    pub trig_high: bool,
}

/// The burst after one finished sub-interval: one pulse fewer to come.
pub open spec fn spec_finish(v: BurstView) -> BurstView {
    BurstView { remaining: if v.remaining > 0 { (v.remaining - 1) as u32 } else { 0 }, ..v }
}

/// The burst after `n` finished sub-intervals.
pub open spec fn spec_finish_n(v: BurstView, n: nat) -> BurstView
    decreases n,
{
    if n == 0 {
        v
    } else {
        spec_finish(spec_finish_n(v, (n - 1) as nat))
    }
}

impl View for Burst {
    type V = BurstView;

    closed spec fn view(&self) -> BurstView {
        BurstView { count: self.count, remaining: self.remaining, trig_high: self.trig_high }
    }
}

impl Burst {
    /// 1..=16 pulses per burst; never more to come than that.
    pub open spec fn wf(&self) -> bool {
        &&& 1 <= self@.count <= 16
        &&& self@.remaining <= 16
    }

    /// Four pulses per burst, idle.
    pub fn new() -> (r: Burst)
        ensures
            r.wf(),
            r@ == (BurstView { count: 4, remaining: 0, trig_high: false }),
    {
        Burst { count: 4, remaining: 0, trig_high: false }
    }

    /// Set the pulse count: the switch value plus one, clamped to 1..=16.
    /// Other params are timed by the DSP code.
    pub fn set_param(&mut self, param: u32, value: u32)
        requires
            old(self).wf(),
            param == BURST_COUNT ==> value < u32::MAX,
        ensures
            final(self).wf(),
            final(self)@ == (if param == BURST_COUNT {
                BurstView {
                    count: if value + 1 > 16 { 16 } else { (value + 1) as u32 },
                    ..old(self)@
                }
            } else {
                old(self)@
            }),
    {
        if param == BURST_COUNT {
            let c = value + 1;
            self.count = if c > 16 { 16 } else { c };
        }
    }

    /// One frame of the trigger input (`None` when unconnected): a rising
    /// edge arms a full burst, restarting one in progress. Returns whether
    /// it did, so the DSP code restarts its interval timer.
    pub fn trigger(&mut self, trig: Option<bool>) -> (armed: bool)
        requires
            old(self).wf(),
        ensures
            final(self).wf(),
            armed == rising(trig, old(self)@.trig_high),
            final(self)@ == (BurstView {
                remaining: if armed { old(self)@.count } else { old(self)@.remaining },
                trig_high: level_after(trig, old(self)@.trig_high),
                ..old(self)@
            }),
    {
        let mut armed = false;
        if let Some(h) = trig {
            if h && !self.trig_high {
                self.remaining = self.count;
                armed = true;
            }
            self.trig_high = h;
        }
        armed
    }

    /// Pulses still to come; the output pulses while this is non-zero.
    pub fn remaining(&self) -> (r: u32)
        ensures
            r == self@.remaining,
    {
        self.remaining
    }

    /// A sub-interval has elapsed: one pulse fewer to come.
    pub fn finish_interval(&mut self)
        requires
            old(self).wf(),
        ensures
            final(self).wf(),
            final(self)@ == spec_finish(old(self)@),
    {
        if self.remaining > 0 {
            self.remaining = self.remaining - 1;
        }
    }
}

/// A trigger edge is followed by exactly `count` pulses: the burst stays
/// active through the first `count - 1` finished sub-intervals and falls
/// idle at the `count`-th.
pub proof fn lemma_burst_emits_count(v: BurstView, n: nat)
    requires
        v.remaining == v.count,
    ensures
        n < v.count ==> spec_finish_n(v, n).remaining == v.count - n,
        n >= v.count ==> spec_finish_n(v, n).remaining == 0,
        spec_finish_n(v, n).count == v.count,
    decreases n,
{
    if n > 0 {
        lemma_burst_emits_count(v, (n - 1) as nat);
    }
}

/// MIDI CC source: outputs the latest value of one controller number.
pub struct MidiCc {
    cc: u8,
}

impl MidiCc {
    /// Listens to controller 1 (mod wheel).
    pub fn new() -> (r: MidiCc)
        ensures
            r.spec_cc() == 1,
    {
        MidiCc { cc: 1 }
    }

    pub closed spec fn spec_cc(&self) -> u8 {
        self.cc
    }

    #[verifier::type_invariant]
    spec fn cc_in_range(&self) -> bool {
        self.cc <= 127
    }

    /// Listen to controller `v`, clamped to 0..=127.
    pub fn set_cc(&mut self, v: u8)
        ensures
            final(self).spec_cc() == (if v > 127 { 127 } else { v }),
    {
        self.cc = if v > 127 { 127 } else { v };
    }

    /// Which controller number this module listens to (the app routes the
    /// stored value of that controller to it).
    pub fn cc(&self) -> (r: u8)
        ensures
            r == self.spec_cc(),
            r <= 127,
    {
        proof {
            use_type_invariant(self);
        }
        self.cc
    }
}

} // verus!

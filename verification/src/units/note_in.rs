//! Note input: voice allocation of note on/off events over the polyphonic
//! lanes. The polyphony param sets the channel count at the source of the
//! poly chain. Pitch, gate, velocity and retrigger signals are rendered from
//! the lanes by the DSP code.

use vstd::prelude::*;
use crate::caps::MAX_CHANNELS;

verus! {

/// Retrigger pulse length (~1 ms at 48 kHz, in frames).
pub const RETRIG_FRAMES: u32 = 48;

/// Param index of the polyphony.
pub const NOTE_IN_POLYPHONY: u32 = 0;

/// One lane of the note input.
#[derive(Clone, Copy, Debug, PartialEq, Eq, Structural)]
pub struct Voice {
    pub note: u8,
    /// MIDI velocity 0..=127.
    pub velocity: u8,
    pub gate: bool,
    /// Press order; lowest = oldest = steal target.
    pub order: u64,
    /// Frames of retrigger pulse still to emit.
    pub retrig_remaining: u32,
}

/// A silent lane.
pub open spec fn idle_voice() -> Voice {
    Voice { note: 0, velocity: 0, gate: false, order: 0, retrig_remaining: 0 }
}

/// Abstract state of the note input.
pub struct NoteInView {
    pub polyphony: u8,
    pub voices: Seq<Voice>,
    pub counter: u64,
}

pub struct NoteIn {
    polyphony: u8,
    voices: Vec<Voice>,
    counter: u64,
}

impl View for NoteIn {
    type V = NoteInView;

    closed spec fn view(&self) -> NoteInView {
        NoteInView { polyphony: self.polyphony, voices: self.voices@, counter: self.counter }
    }
}

/// Lane `i` among the first `n` holds `note`.
pub open spec fn holds(vs: Seq<Voice>, n: int, note: u8, i: int) -> bool {
    0 <= i < n && vs[i].note == note && vs[i].gate
}

/// Lane `i` is the first lane among the first `n` with the least press order
/// among those satisfying `released` (if `released`, only lanes whose gate is
/// off count).
pub open spec fn first_oldest(vs: Seq<Voice>, n: int, released: bool, i: int) -> bool {
    &&& 0 <= i < n
    &&& (released ==> !vs[i].gate)
    &&& forall|j: int| 0 <= j < n && (released ==> !vs[j].gate) ==> vs[i].order <= #[trigger] vs[j].order
    &&& forall|j: int| 0 <= j < i && (released ==> !vs[j].gate) ==> #[trigger] vs[j].order > vs[i].order
}

/// The lane a note-on uses among the first `n`: the first lane already
/// holding the same note (a retrigger); else the oldest released lane; else
/// the oldest held lane, which is stolen. Ties go to the lowest lane.
pub open spec fn is_target_lane(vs: Seq<Voice>, n: int, note: u8, i: int) -> bool {
    if exists|j: int| holds(vs, n, note, j) {
        holds(vs, n, note, i) && forall|j: int| 0 <= j < i ==> !holds(vs, n, note, j)
    } else if exists|j: int| 0 <= j < n && !vs[j].gate {
        first_oldest(vs, n, true, i)
    } else {
        first_oldest(vs, n, false, i)
    }
}

impl NoteIn {
    /// Well-formedness: one lane per channel, polyphony within the lanes, no
    /// lane held beyond the polyphony, press orders not ahead of the counter.
    pub open spec fn wf(&self) -> bool {
        &&& self@.voices.len() == MAX_CHANNELS
        &&& 1 <= self@.polyphony <= MAX_CHANNELS
        &&& forall|i: int| self@.polyphony <= i < MAX_CHANNELS ==> !(#[trigger] self@.voices[i]).gate
        &&& forall|i: int| 0 <= i < MAX_CHANNELS ==> (#[trigger] self@.voices[i]).order <= self@.counter
    }

    /// Mono, all lanes silent.
    pub fn new() -> (r: NoteIn)
        ensures
            r.wf(),
            r@.polyphony == 1,
            r@.voices == Seq::new(MAX_CHANNELS as nat, |i: int| idle_voice()),
            r@.counter == 0,
    {
        let mut voices: Vec<Voice> = Vec::with_capacity(MAX_CHANNELS);
        for i in 0..MAX_CHANNELS
            invariant
                voices@ == Seq::new(i as nat, |k: int| idle_voice()),
        {
            voices.push(Voice { note: 0, velocity: 0, gate: false, order: 0, retrig_remaining: 0 });
            assert(voices@ =~= Seq::new(i as nat + 1, |k: int| idle_voice()));
        }
        NoteIn { polyphony: 1, voices, counter: 0 }
    }

    /// Number of active lanes.
    pub fn polyphony(&self) -> (r: u8)
        ensures
            r == self@.polyphony,
    {
        self.polyphony
    }

    /// Press counter.
    pub fn counter(&self) -> (r: u64)
        ensures
            r == self@.counter,
    {
        self.counter
    }

    /// The lane `ch`.
    pub fn voice(&self, ch: usize) -> (r: Voice)
        requires
            self.wf(),
            ch < MAX_CHANNELS,
        ensures
            r == self@.voices[ch as int],
    {
        self.voices[ch]
    }

    /// Set the polyphony from its integer value, clamped to 1..=16. Lanes
    /// beyond a changed polyphony fall silent.
    pub fn set_param(&mut self, param: u32, value: u8)
        requires
            old(self).wf(),
        ensures
            final(self).wf(),
            final(self)@.counter == old(self)@.counter,
            ({
                let new = if value < 1 { 1u8 } else if value > 16 { 16u8 } else { value };
                if param == NOTE_IN_POLYPHONY && new != old(self)@.polyphony {
                    &&& final(self)@.polyphony == new
                    &&& final(self)@.voices == Seq::new(
                        MAX_CHANNELS as nat,
                        |i: int|
                            if i >= new {
                                Voice { gate: false, ..old(self)@.voices[i] }
                            } else {
                                old(self)@.voices[i]
                            },
                    )
                } else {
                    final(self)@ == old(self)@
                }
            }),
    {
        if param == NOTE_IN_POLYPHONY {
            let new = if value < 1 {
                1u8
            } else if value > 16 {
                16u8
            } else {
                value
            };
            if new != self.polyphony {
                self.polyphony = new;
                let ghost old_v = self.voices@;
                let ghost c0 = self.counter;
                for i in new as usize..MAX_CHANNELS
                    invariant
                        self.counter == c0,
                        forall|k: int| 0 <= k < MAX_CHANNELS ==> (#[trigger] old_v[k]).order <= c0,
                        self.voices@.len() == MAX_CHANNELS,
                        old_v.len() == MAX_CHANNELS,
                        1 <= new <= 16,
                        self.polyphony == new,
                        forall|k: int|
                            0 <= k < MAX_CHANNELS ==> #[trigger] self.voices@[k] == (if new <= k < i {
                                Voice { gate: false, ..old_v[k] }
                            } else {
                                old_v[k]
                            }),
                {
                    let v = self.voices[i];
                    self.voices.set(i, Voice { gate: false, ..v });
                }
                assert(self@.voices =~= Seq::new(
                    MAX_CHANNELS as nat,
                    |i: int|
                        if i >= new {
                            Voice { gate: false, ..old_v[i] }
                        } else {
                            old_v[i]
                        },
                ));
            }
        }
    }

    /// Note on: take the target lane (see [`is_target_lane`]), give it the
    /// note and velocity, open its gate, stamp it newest and start its
    /// retrigger pulse.
    pub fn note_on(&mut self, note: u8, velocity: u8)
        requires
            old(self).wf(),
            old(self)@.counter < u64::MAX,
        ensures
            final(self).wf(),
            final(self)@.polyphony == old(self)@.polyphony,
            final(self)@.counter == old(self)@.counter + 1,
            exists|i: int|
                is_target_lane(old(self)@.voices, old(self)@.polyphony as int, note, i)
                    && final(self)@.voices == old(self)@.voices.update(
                    i,
                    Voice {
                        note,
                        velocity,
                        gate: true,
                        order: final(self)@.counter,
                        retrig_remaining: RETRIG_FRAMES,
                    },
                ),
    {
        self.counter = self.counter + 1;
        let n = self.polyphony as usize;
        let ghost vs = self.voices@;
        // Same note retriggers its existing lane.
        let mut lane: usize = n;
        let mut i: usize = 0;
        while i < n && lane == n
            invariant
                n == self.polyphony,
                1 <= n <= 16,
                vs == self.voices@,
                vs.len() == 16,
                i <= n,
                lane == n || (lane < n && holds(vs, n as int, note, lane as int)),
                lane == n ==> forall|j: int| 0 <= j < i ==> !holds(vs, n as int, note, j),
                lane < n ==> forall|j: int| 0 <= j < lane ==> !holds(vs, n as int, note, j),
                lane < n ==> lane == i,
            decreases n - i + (if lane == n { 1int } else { 0int }),
        {
            if self.voices[i].note == note && self.voices[i].gate {
                lane = i;
            } else {
                i = i + 1;
            }
        }
        if lane == n {
            // Oldest released lane, else oldest held lane.
            let mut best: usize = n;
            for k in 0..n
                invariant
                    n == self.polyphony,
                    1 <= n <= 16,
                    vs == self.voices@,
                    vs.len() == 16,
                    best == n ==> forall|j: int| 0 <= j < k ==> vs[j].gate,
                    best < n ==> best < k && !vs[best as int].gate,
                    best < n ==> forall|j: int|
                        0 <= j < k && !vs[j].gate ==> vs[best as int].order <= #[trigger] vs[j].order,
                    best < n ==> forall|j: int|
                        0 <= j < best && !vs[j].gate ==> #[trigger] vs[j].order > vs[best as int].order,
                    best <= n,
            {
                if !self.voices[k].gate {
                    if best == n || self.voices[k].order < self.voices[best].order {
                        best = k;
                    }
                }
            }
            if best == n {
                best = 0;
                for k in 1..n
                    invariant
                        n == self.polyphony,
                        1 <= n <= 16,
                        vs == self.voices@,
                        vs.len() == 16,
                        best < k,
                        forall|j: int| 0 <= j < k ==> vs[best as int].order <= #[trigger] vs[j].order,
                        forall|j: int| 0 <= j < best ==> #[trigger] vs[j].order > vs[best as int].order,
                {
                    if self.voices[k].order < self.voices[best].order {
                        best = k;
                    }
                }
                assert(first_oldest(vs, n as int, false, best as int));
            } else {
                assert(first_oldest(vs, n as int, true, best as int));
            }
            lane = best;
        }
        let v = Voice {
            note,
            velocity,
            gate: true,
            order: self.counter,
            retrig_remaining: RETRIG_FRAMES,
        };
        self.voices.set(lane, v);
        assert(is_target_lane(vs, n as int, note, lane as int));
    }

    /// Note off: close every active lane holding `note`; the
    /// lanes keep their pitch.
    pub fn note_off(&mut self, note: u8)
        requires
            old(self).wf(),
        ensures
            final(self).wf(),
            final(self)@.polyphony == old(self)@.polyphony,
            final(self)@.counter == old(self)@.counter,
            final(self)@.voices == Seq::new(
                MAX_CHANNELS as nat,
                |i: int|
                    if holds(old(self)@.voices, old(self)@.polyphony as int, note, i) {
                        Voice { gate: false, ..old(self)@.voices[i] }
                    } else {
                        old(self)@.voices[i]
                    },
            ),
    {
        let n = self.polyphony as usize;
        let ghost vs = self.voices@;
        let ghost c0 = self.counter;
        for i in 0..n
            invariant
                n == self.polyphony,
                self.counter == c0,
                forall|k: int| 0 <= k < MAX_CHANNELS ==> (#[trigger] vs[k]).order <= c0,
                forall|k: int| n <= k < MAX_CHANNELS ==> !(#[trigger] vs[k]).gate,
                1 <= n <= 16,
                vs.len() == 16,
                self.voices@.len() == 16,
                forall|k: int|
                    0 <= k < 16 ==> #[trigger] self.voices@[k] == (if k < i && holds(vs, n as int, note, k) {
                        Voice { gate: false, ..vs[k] }
                    } else {
                        vs[k]
                    }),
        {
            let v = self.voices[i];
            if v.note == note && v.gate {
                self.voices.set(i, Voice { gate: false, ..v });
            }
        }
        assert(self@.voices =~= Seq::new(
            MAX_CHANNELS as nat,
            |i: int|
                if holds(vs, n as int, note, i) {
                    Voice { gate: false, ..vs[i] }
                } else {
                    vs[i]
                },
        ));
    }

    /// Release everything and cancel pending retrigger pulses.
    pub fn all_notes_off(&mut self)
        requires
            old(self).wf(),
        ensures
            final(self).wf(),
            final(self)@.polyphony == old(self)@.polyphony,
            final(self)@.counter == old(self)@.counter,
            final(self)@.voices == Seq::new(
                MAX_CHANNELS as nat,
                |i: int| Voice { gate: false, retrig_remaining: 0, ..old(self)@.voices[i] },
            ),
    {
        let ghost vs = self.voices@;
        let ghost c0 = self.counter;
        let ghost p0 = self.polyphony;
        for i in 0..MAX_CHANNELS
            invariant
                self.counter == c0,
                self.polyphony == p0,
                1 <= p0 <= 16,
                forall|k: int| 0 <= k < MAX_CHANNELS ==> (#[trigger] vs[k]).order <= c0,
                vs.len() == 16,
                self.voices@.len() == 16,
                forall|k: int|
                    0 <= k < 16 ==> #[trigger] self.voices@[k] == (if k < i {
                        Voice { gate: false, retrig_remaining: 0, ..vs[k] }
                    } else {
                        vs[k]
                    }),
        {
            let v = self.voices[i];
            self.voices.set(i, Voice { gate: false, retrig_remaining: 0, ..v });
        }
        assert(self@.voices =~= Seq::new(
            MAX_CHANNELS as nat,
            |i: int| Voice { gate: false, retrig_remaining: 0, ..vs[i] },
        ));
    }

    /// Render one block of `frames`: returns, per active lane, how many of
    /// the block's frames carry the retrigger pulse, and counts the pulses
    /// down.
    pub fn take_retrig(&mut self, frames: u32) -> (r: Vec<u32>)
        requires
            old(self).wf(),
        ensures
            final(self).wf(),
            final(self)@.polyphony == old(self)@.polyphony,
            final(self)@.counter == old(self)@.counter,
            r@.len() == old(self)@.polyphony,
            forall|i: int|
                0 <= i < r@.len() ==> #[trigger] r@[i] == (if old(self)@.voices[i].retrig_remaining
                    < frames {
                    old(self)@.voices[i].retrig_remaining
                } else {
                    frames
                }),
            final(self)@.voices == Seq::new(
                MAX_CHANNELS as nat,
                |i: int|
                    if i < old(self)@.polyphony {
                        Voice {
                            retrig_remaining: (if old(self)@.voices[i].retrig_remaining < frames {
                                0
                            } else {
                                old(self)@.voices[i].retrig_remaining - frames
                            }) as u32,
                            ..old(self)@.voices[i]
                        }
                    } else {
                        old(self)@.voices[i]
                    },
            ),
    {
        let n = self.polyphony as usize;
        let ghost vs = self.voices@;
        let mut r: Vec<u32> = Vec::with_capacity(n);
        let ghost c0 = self.counter;
        for i in 0..n
            invariant
                n == self.polyphony,
                self.counter == c0,
                forall|k: int| 0 <= k < MAX_CHANNELS ==> (#[trigger] vs[k]).order <= c0,
                forall|k: int| n <= k < MAX_CHANNELS ==> !(#[trigger] vs[k]).gate,
                1 <= n <= 16,
                vs.len() == 16,
                self.voices@.len() == 16,
                r@.len() == i,
                forall|k: int|
                    0 <= k < i ==> #[trigger] r@[k] == (if vs[k].retrig_remaining < frames {
                        vs[k].retrig_remaining
                    } else {
                        frames
                    }),
                forall|k: int|
                    0 <= k < 16 ==> #[trigger] self.voices@[k] == (if k < i {
                        Voice {
                            retrig_remaining: (if vs[k].retrig_remaining < frames {
                                0
                            } else {
                                vs[k].retrig_remaining - frames
                            }) as u32,
                            ..vs[k]
                        }
                    } else {
                        vs[k]
                    }),
        {
            let v = self.voices[i];
            let pulse = if v.retrig_remaining < frames {
                v.retrig_remaining
            } else {
                frames
            };
            r.push(pulse);
            self.voices.set(i, Voice { retrig_remaining: v.retrig_remaining - pulse, ..v });
        }
        assert(self@.voices =~= Seq::new(
            MAX_CHANNELS as nat,
            |i: int|
                if i < n {
                    Voice {
                        retrig_remaining: (if vs[i].retrig_remaining < frames {
                            0
                        } else {
                            vs[i].retrig_remaining - frames
                        }) as u32,
                        ..vs[i]
                    }
                } else {
                    vs[i]
                },
        ));
        r
    }
}

/// The target lane of a note-on is unique.
pub proof fn lemma_target_lane_unique(vs: Seq<Voice>, n: int, note: u8, i: int, k: int)
    requires
        is_target_lane(vs, n, note, i),
        is_target_lane(vs, n, note, k),
    ensures
        i == k,
{
    if exists|j: int| holds(vs, n, note, j) {
        if i < k {
            assert(!holds(vs, n, note, i));
        } else if k < i {
            assert(!holds(vs, n, note, k));
        }
    } else {
        let released = exists|j: int| 0 <= j < n && !vs[j].gate;
        if i < k {
            assert(vs[i].order > vs[k].order);
            assert(vs[k].order <= vs[i].order);
        } else if k < i {
            assert(vs[k].order > vs[i].order);
            assert(vs[i].order <= vs[k].order);
        }
    }
}

/// Mono (last-note priority): with one lane, every note-on takes lane 0.
pub proof fn lemma_mono_uses_lane_zero(vs: Seq<Voice>, note: u8, i: int)
    requires
        is_target_lane(vs, 1, note, i),
    ensures
        i == 0,
{
}

/// Poly allocation does not steal while a lane is free: a new note (not
/// already held) goes to a released lane whenever one exists.
pub proof fn lemma_free_lane_preferred(vs: Seq<Voice>, n: int, note: u8, i: int, j: int)
    requires
        is_target_lane(vs, n, note, i),
        forall|k: int| !holds(vs, n, note, k),
        0 <= j < n,
        !vs[j].gate,
    ensures
        !vs[i].gate,
{
}

/// When every lane is held by another note, the oldest held note is stolen.
pub proof fn lemma_steals_oldest(vs: Seq<Voice>, n: int, note: u8, i: int)
    requires
        is_target_lane(vs, n, note, i),
        forall|k: int| !holds(vs, n, note, k),
        forall|k: int| 0 <= k < n ==> vs[k].gate,
    ensures
        0 <= i < n,
        forall|k: int| 0 <= k < n ==> vs[i].order <= #[trigger] vs[k].order,
{
}

/// A note already held is retriggered in its own lane rather than doubled.
pub proof fn lemma_same_note_retriggers(vs: Seq<Voice>, n: int, note: u8, i: int, j: int)
    requires
        is_target_lane(vs, n, note, i),
        holds(vs, n, note, j),
    ensures
        holds(vs, n, note, i),
{
}

} // verus!

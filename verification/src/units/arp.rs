//! Arpeggiator: collects held notes (fed the same note events as the note
//! input), then steps through them on each clock pulse (up / down / up-down
//! / random) across a configurable octave range. Gate timing is measured in
//! samples by the DSP code; this is the note bookkeeping and the pattern.

use vstd::prelude::*;
use crate::units::gate::{level_after, rising};
use crate::units::seq2::{spec_xorshift32, xorshift32};

verus! {

/// Param index of the pattern mode.
pub const ARP_MODE: u32 = 0;
/// Param index of the octave range (switch value + 1 octaves).
pub const ARP_OCTAVES: u32 = 1;

#[derive(Clone, Copy, Debug, PartialEq, Eq, Structural)]
pub enum ArpMode {
    Up,
    Down,
    UpDown,
    Random,
}

/// Mode of a switch position; positions other than 1..=3 are up.
pub open spec fn spec_mode(v: u32) -> ArpMode {
    if v == 1 {
        ArpMode::Down
    } else if v == 2 {
        ArpMode::UpDown
    } else if v == 3 {
        ArpMode::Random
    } else {
        ArpMode::Up
    }
}

/// Held notes below `upto`, ascending.
pub open spec fn held_list(h: Seq<bool>, upto: int) -> Seq<u8>
    decreases upto,
{
    if upto <= 0 {
        Seq::empty()
    } else if h[upto - 1] {
        held_list(h, upto - 1).push((upto - 1) as u8)
    } else {
        held_list(h, upto - 1)
    }
}

/// Position in the flattened (notes x octaves) pattern for the given mode,
/// step counter and random draw, over `total` positions.
pub open spec fn pattern_pos(mode: ArpMode, step: int, total: int, draw: u32) -> int {
    match mode {
        ArpMode::Up => step % total,
        ArpMode::Down => total - 1 - step % total,
        ArpMode::UpDown => {
            let span = if total * 2 - 2 > 1 { total * 2 - 2 } else { 1 };
            let t = step % span;
            if t < total {
                t
            } else {
                span - t
            }
        },
        ArpMode::Random => draw as int % total,
    }
}

/// Abstract state of the arpeggiator.
pub struct ArpView {
    /// `held[n]`: MIDI note `n` is held.
    pub held: Seq<bool>,
    pub mode: ArpMode,
    pub octaves: u32,
    pub step: usize,
    pub up: bool,
    pub rng: u32,
    pub clock_high: bool,
    pub reset_high: bool,
}

/// One move of the pattern: with no note held nothing changes and there is
/// no note; otherwise the position among `held x octaves` follows the mode,
/// the step counter advances (up, down and up-down) or a random draw is
/// taken (random), and the note and octave at that position come out.
pub open spec fn spec_advance(v: ArpView) -> (ArpView, Option<(u8, u32)>) {
    let notes = held_list(v.held, 128);
    let n = notes.len() as int;
    if n == 0 {
        (v, None)
    } else {
        let total = n * v.octaves;
        let draw = spec_xorshift32(v.rng);
        let pos = pattern_pos(v.mode, v.step as int, total, draw);
        let next = if v.mode == ArpMode::Random {
            ArpView { rng: draw, ..v }
        } else {
            ArpView { step: if v.step == usize::MAX { 0 } else { (v.step + 1) as usize }, ..v }
        };
        (next, Some((notes[pos % n], (pos / n) as u32)))
    }
}

/// One frame of clock and reset: a reset rising edge restarts the pattern,
/// then a clock rising edge moves it (see [`spec_advance`]).
pub open spec fn spec_tick(v: ArpView, clock: Option<bool>, reset: Option<bool>) -> (ArpView, ArpTick) {
    let rs = rising(reset, v.reset_high);
    let v1 = ArpView {
        step: if rs { 0 } else { v.step },
        up: if rs { true } else { v.up },
        reset_high: level_after(reset, v.reset_high),
        ..v
    };
    let edge = rising(clock, v.clock_high);
    let (v2, next) = if edge { spec_advance(v1) } else { (v1, None) };
    (ArpView { clock_high: level_after(clock, v.clock_high), ..v2 }, ArpTick { edge, next })
}

pub struct Arp {
    held: Vec<bool>,
    mode: ArpMode,
    octaves: u32,
    step: usize,
    up: bool,
    rng: u32,
    clock_high: bool,
    reset_high: bool,
}

impl View for Arp {
    type V = ArpView;

    closed spec fn view(&self) -> ArpView {
        ArpView {
            held: self.held@,
            mode: self.mode,
            octaves: self.octaves,
            step: self.step,
            up: self.up,
            rng: self.rng,
            clock_high: self.clock_high,
            reset_high: self.reset_high,
        }
    }
}

/// What one frame of clock and reset did.
pub struct ArpTick {
    /// A clock rising edge arrived (the DSP code measures the period).
    pub edge: bool,
    /// The note and octave the pattern moved to, when notes are held.
    pub next: Option<(u8, u32)>,
}

impl Arp {
    /// Well-formedness: one flag per MIDI note, 1..=4 octaves.
    pub open spec fn wf(&self) -> bool {
        &&& self@.held.len() == 128
        &&& 1 <= self@.octaves <= 4
    }

    /// Nothing held, up mode over one octave.
    pub fn new() -> (r: Arp)
        ensures
            r.wf(),
            r@.held == Seq::new(128, |i: int| false),
            r@.mode == ArpMode::Up,
            r@.octaves == 1,
            r@.step == 0,
            r@.up,
            r@.rng == 0x2545_f491,
            !r@.clock_high,
            !r@.reset_high,
    {
        let mut held: Vec<bool> = Vec::with_capacity(128);
        for i in 0..128
            invariant
                held@ == Seq::new(i as nat, |k: int| false),
        {
            held.push(false);
            assert(held@ =~= Seq::new(i as nat + 1, |k: int| false));
        }
        Arp {
            held,
            mode: ArpMode::Up,
            octaves: 1,
            step: 0,
            up: true,
            rng: 0x2545_f491,
            clock_high: false,
            reset_high: false,
        }
    }

    /// Set the mode or the octave range (switch value + 1, clamped to 1..=4)
    /// from its integer value.
    pub fn set_param(&mut self, param: u32, value: u32)
        requires
            old(self).wf(),
            param == ARP_OCTAVES ==> value < u32::MAX,
        ensures
            final(self).wf(),
            final(self)@ == (if param == ARP_MODE {
                ArpView { mode: spec_mode(value), ..old(self)@ }
            } else if param == ARP_OCTAVES {
                ArpView {
                    octaves: if value + 1 > 4 {
                        4
                    } else {
                        (value + 1) as u32
                    },
                    ..old(self)@
                }
            } else {
                old(self)@
            }),
    {
        if param == ARP_MODE {
            self.mode = if value == 1 {
                ArpMode::Down
            } else if value == 2 {
                ArpMode::UpDown
            } else if value == 3 {
                ArpMode::Random
            } else {
                ArpMode::Up
            };
        } else if param == ARP_OCTAVES {
            let v = value + 1;
            self.octaves = if v > 4 {
                4
            } else {
                v
            };
        }
    }

    /// Hold a note (notes above 127 are ignored).
    pub fn note_on(&mut self, note: u8)
        requires
            old(self).wf(),
        ensures
            final(self).wf(),
            final(self)@ == (if note < 128 {
                ArpView { held: old(self)@.held.update(note as int, true), ..old(self)@ }
            } else {
                old(self)@
            }),
    {
        if note < 128 {
            self.held.set(note as usize, true);
        }
    }

    /// Release a note.
    pub fn note_off(&mut self, note: u8)
        requires
            old(self).wf(),
        ensures
            final(self).wf(),
            final(self)@ == (if note < 128 {
                ArpView { held: old(self)@.held.update(note as int, false), ..old(self)@ }
            } else {
                old(self)@
            }),
    {
        if note < 128 {
            self.held.set(note as usize, false);
        }
    }

    /// Release everything.
    pub fn all_notes_off(&mut self)
        requires
            old(self).wf(),
        ensures
            final(self).wf(),
            final(self)@ == (ArpView { held: Seq::new(128, |i: int| false), ..old(self)@ }),
    {
        let ghost o = self@;
        for i in 0..128
            invariant
                self.held@.len() == 128,
                forall|k: int| 0 <= k < i ==> !self.held@[k],
                self@ == (ArpView { held: self.held@, ..o }),
                1 <= o.octaves <= 4,
        {
            self.held.set(i, false);
        }
        assert(self.held@ =~= Seq::new(128, |i: int| false));
    }

    /// Number of held notes.
    pub fn count(&self) -> (r: usize)
        requires
            self.wf(),
        ensures
            r == held_list(self@.held, 128).len(),
    {
        let mut c: usize = 0;
        for n in 0..128
            invariant
                self.held@.len() == 128,
                c == held_list(self@.held, n as int).len(),
                c <= n,
        {
            if self.held[n] {
                c = c + 1;
            }
        }
        c
    }

    /// The `idx`-th held note, ascending, if that many are held.
    pub fn nth_note(&self, idx: usize) -> (r: Option<u8>)
        requires
            self.wf(),
        ensures
            r == (if idx < held_list(self@.held, 128).len() {
                Some(held_list(self@.held, 128)[idx as int])
            } else {
                None::<u8>
            }),
    {
        let mut seen: usize = 0;
        for n in 0..128
            invariant
                self.held@.len() == 128,
                seen == held_list(self@.held, n as int).len(),
                seen <= n,
                seen <= idx,
        {
            proof {
                lemma_held_list_prefix(self@.held, n as int + 1, 128);
            }
            if self.held[n] {
                if seen == idx {
                    assert(held_list(self@.held, n as int + 1)[idx as int] == n);
                    return Some(n as u8);
                }
                seen = seen + 1;
            }
        }
        None
    }

    /// Reset the pattern to its start.
    pub fn reset(&mut self)
        requires
            old(self).wf(),
        ensures
            final(self).wf(),
            final(self)@ == (ArpView { step: 0, up: true, ..old(self)@ }),
    {
        self.step = 0;
        self.up = true;
    }

    /// Move to the next position of the pattern. With no note held nothing
    /// changes and there is no note; otherwise the position among
    /// `held x octaves` follows the mode, the step counter advances (up,
    /// down and up-down) or a random draw is taken (random), and the note
    /// and octave at that position are returned.
    pub fn advance(&mut self) -> (r: Option<(u8, u32)>)
        requires
            old(self).wf(),
        ensures
            final(self).wf(),
            (final(self)@, r) == spec_advance(old(self)@),
    {
        let n = self.count();
        if n == 0 {
            return None;
        }
        proof {
            lemma_held_list_len(self@.held, 128);
        }
        assert(1 <= n * self.octaves <= 512) by (nonlinear_arith)
            requires
                1 <= n <= 128,
                1 <= self.octaves <= 4,
        ;
        let total = n * self.octaves as usize;
        let ghost draw = spec_xorshift32(self.rng);
        let pos = match self.mode {
            ArpMode::Up => {
                let p = self.step % total;
                self.step = self.step.wrapping_add(1);
                p
            },
            ArpMode::Down => {
                let p = total - 1 - (self.step % total);
                self.step = self.step.wrapping_add(1);
                p
            },
            ArpMode::UpDown => {
                let span = if total * 2 - 2 > 1 {
                    total * 2 - 2
                } else {
                    1
                };
                let t = self.step % span;
                self.step = self.step.wrapping_add(1);
                if t < total {
                    t
                } else {
                    span - t
                }
            },
            ArpMode::Random => {
                self.rng = xorshift32(self.rng);
                (self.rng as usize) % total
            },
        };
        assert(0 <= pos < total);
        let octave = pos / n;
        let within = pos % n;
        assert(octave < 4) by (nonlinear_arith)
            requires
                pos < total,
                total == n * self.octaves,
                self.octaves <= 4,
                n >= 1,
                octave == pos / n,
        ;
        match self.nth_note(within) {
            Some(note) => Some((note, octave as u32)),
            None => None,
        }
    }

    /// Advance one frame; `clock` and `reset` are the inputs' gate levels
    /// (`None` when unconnected). A reset rising edge restarts the pattern;
    /// a clock rising edge moves it on when notes are held.
    pub fn tick(&mut self, clock: Option<bool>, reset: Option<bool>) -> (r: ArpTick)
        requires
            old(self).wf(),
        ensures
            final(self).wf(),
            (final(self)@, r) == spec_tick(old(self)@, clock, reset),
    {
        if let Some(h) = reset {
            if h && !self.reset_high {
                self.reset();
            }
            self.reset_high = h;
        }
        let mut out = ArpTick { edge: false, next: None };
        if let Some(h) = clock {
            if h && !self.clock_high {
                out.edge = true;
                if self.count() > 0 {
                    out.next = self.advance();
                }
            }
            self.clock_high = h;
        }
        out
    }
}

proof fn lemma_held_list_len(h: Seq<bool>, upto: int)
    requires
        0 <= upto,
    ensures
        held_list(h, upto).len() <= upto,
    decreases upto,
{
    if upto > 0 {
        lemma_held_list_len(h, upto - 1);
    }
}

/// A longer scan extends the shorter one.
proof fn lemma_held_list_prefix(h: Seq<bool>, a: int, b: int)
    requires
        0 <= a <= b,
    ensures
        held_list(h, a).len() <= held_list(h, b).len(),
        forall|i: int| 0 <= i < held_list(h, a).len() ==> held_list(h, b)[i] == #[trigger] held_list(h, a)[i],
    decreases b - a,
{
    if a < b {
        lemma_held_list_prefix(h, a, b - 1);
    }
}

/// The held notes are listed in strictly ascending order, each a held note.
pub proof fn lemma_held_list_ascending(h: Seq<bool>, upto: int)
    requires
        0 <= upto <= 128,
        h.len() == 128,
    ensures
        forall|i: int, j: int|
            0 <= i < j < held_list(h, upto).len() ==> held_list(h, upto)[i] < held_list(h, upto)[j],
        forall|i: int|
            0 <= i < held_list(h, upto).len() ==> (held_list(h, upto)[i] as int) < upto && h[held_list(
                h,
                upto,
            )[i] as int],
    decreases upto,
{
    if upto > 0 {
        lemma_held_list_ascending(h, upto - 1);
        let prev = held_list(h, upto - 1);
        if h[upto - 1] {
            let cur = prev.push((upto - 1) as u8);
            assert(held_list(h, upto) == cur);
            assert forall|i: int, j: int| 0 <= i < j < cur.len() implies cur[i] < cur[j] by {
                if j == prev.len() {
                    assert(cur[j] == upto - 1);
                    assert(cur[i] == prev[i]);
                } else {
                    assert(cur[i] == prev[i]);
                    assert(cur[j] == prev[j]);
                }
            }
            assert forall|i: int| 0 <= i < cur.len() implies (cur[i] as int) < upto && h[cur[i] as int] by {
                if i < prev.len() {
                    assert(cur[i] == prev[i]);
                }
            }
        }
    }
}

/// Up mode walks the pattern forward and down mode backward, one position
/// per clock; up-down and random stay within the pattern.
pub proof fn lemma_pattern_positions(mode: ArpMode, step: int, total: int, draw: u32)
    requires
        total >= 1,
        step >= 0,
    ensures
        0 <= pattern_pos(mode, step, total, draw) < total,
        mode == ArpMode::Up ==> pattern_pos(mode, step, total, draw) == step % total,
        mode == ArpMode::Down ==> pattern_pos(mode, step, total, draw) + step % total == total - 1,
{
    let span = if total * 2 - 2 > 1 { total * 2 - 2 } else { 1 };
    assert(0 <= step % span < span) by (nonlinear_arith)
        requires
            span >= 1,
    ;
    assert(0 <= step % total < total) by (nonlinear_arith)
        requires
            total >= 1,
    ;
    assert(0 <= draw as int % total < total) by (nonlinear_arith)
        requires
            total >= 1,
    ;
}

/// Up-down walks the pattern as a triangle: over a pattern of at least two
/// positions it starts at the bottom, climbs one position per clock to the
/// top, and then comes back down one position per clock; consecutive
/// clocks always land on neighbouring positions, never leaving the pattern.
pub proof fn lemma_updown_triangle(step: int, total: int, draw: u32)
    requires
        total >= 2,
        step >= 0,
    ensures
        0 <= pattern_pos(ArpMode::UpDown, step, total, draw) < total,
        step < total ==> pattern_pos(ArpMode::UpDown, step, total, draw) == step,
        ({
            let a = pattern_pos(ArpMode::UpDown, step, total, draw);
            let b = pattern_pos(ArpMode::UpDown, step + 1, total, draw);
            b == a + 1 || b == a - 1
        }),
{
    let span = total * 2 - 2;
    assert(span >= 2);
    let t = step % span;
    let q = step / span;
    assert(step == q * span + t && 0 <= t < span) by (nonlinear_arith)
        requires
            span >= 2,
            step >= 0,
            t == step % span,
            q == step / span,
    ;
    if step < total {
        assert(step % span == step) by (nonlinear_arith)
            requires
                0 <= step < total,
                span == total * 2 - 2,
                total >= 2,
        ;
    }
    let t2 = (step + 1) % span;
    if t + 1 < span {
        assert(t2 == t + 1) by (nonlinear_arith)
            requires
                step == q * span + t,
                0 <= t,
                t + 1 < span,
                t2 == (step + 1) % span,
        ;
    } else {
        assert(t2 == 0) by (nonlinear_arith)
            requires
                step == q * span + t,
                t + 1 == span,
                span >= 2,
                t2 == (step + 1) % span,
        ;
    }
}

/// Position of a played note and octave among the `held x octaves`
/// pattern, with the note at index `i` of the held notes.
pub open spec fn played_at(notes: Seq<u8>, note: u8, octave: u32, i: int) -> int {
    if 0 <= i < notes.len() && notes[i] == note {
        octave * notes.len() + i
    } else {
        -1
    }
}

/// Two clocks in a row in up-down mode play neighbouring notes of the
/// pattern (the next held note, or the same note an octave apart at the
/// ends of a register), never jumping across it.
pub proof fn lemma_updown_moves_one_position(v: ArpView)
    requires
        v.held.len() == 128,
        1 <= v.octaves <= 4,
        v.mode == ArpMode::UpDown,
        held_list(v.held, 128).len() * v.octaves >= 2,
        v.step < usize::MAX,
    ensures
        ({
            let notes = held_list(v.held, 128);
            let (v1, r1) = spec_advance(v);
            let (v2, r2) = spec_advance(v1);
            &&& r1 is Some && r2 is Some
            &&& exists|i1: int, i2: int|
                played_at(notes, r1.unwrap().0, r1.unwrap().1, i1) >= 0 && played_at(notes, r2.unwrap().0, r2.unwrap().1, i2) >= 0
                    && (played_at(notes, r2.unwrap().0, r2.unwrap().1, i2) == played_at(notes, r1.unwrap().0, r1.unwrap().1, i1) + 1
                    || played_at(notes, r2.unwrap().0, r2.unwrap().1, i2) == played_at(notes, r1.unwrap().0, r1.unwrap().1, i1) - 1)
        }),
{
    let notes = held_list(v.held, 128);
    let n = notes.len() as int;
    lemma_held_list_len(v.held, 128);
    assert(n >= 1) by (nonlinear_arith)
        requires
            n * v.octaves >= 2,
            n >= 0,
    ;
    let total = n * v.octaves;
    let draw = spec_xorshift32(v.rng);
    let (v1, r1) = spec_advance(v);
    assert(v1.step == v.step + 1);
    assert(v1.held == v.held && v1.octaves == v.octaves && v1.mode == v.mode);
    let (v2, r2) = spec_advance(v1);
    let p1 = pattern_pos(ArpMode::UpDown, v.step as int, total, draw);
    let p2 = pattern_pos(ArpMode::UpDown, v.step as int + 1, total, spec_xorshift32(v1.rng));
    lemma_updown_triangle(v.step as int, total, draw);
    assert(pattern_pos(ArpMode::UpDown, v.step as int + 1, total, spec_xorshift32(v1.rng)) == pattern_pos(
        ArpMode::UpDown,
        v.step as int + 1,
        total,
        draw,
    ));
    lemma_octave_of_position(p1, n, v.octaves as int);
    lemma_octave_of_position(p2, n, v.octaves as int);
    assert(0 <= p1 % n < n && 0 <= p2 % n < n) by (nonlinear_arith)
        requires
            n >= 1,
    ;
    assert(r1 == Some((notes[p1 % n], (p1 / n) as u32)));
    assert(r2 == Some((notes[p2 % n], (p2 / n) as u32)));
    assert(played_at(notes, r1.unwrap().0, r1.unwrap().1, p1 % n) == p1) by (nonlinear_arith)
        requires
            p1 == (p1 / n) * n + p1 % n,
            0 <= p1 / n < 4,
            played_at(notes, r1.unwrap().0, r1.unwrap().1, p1 % n) == ((p1 / n) as u32) * n + p1 % n,
    ;
    assert(played_at(notes, r2.unwrap().0, r2.unwrap().1, p2 % n) == p2) by (nonlinear_arith)
        requires
            p2 == (p2 / n) * n + p2 % n,
            0 <= p2 / n < 4,
            played_at(notes, r2.unwrap().0, r2.unwrap().1, p2 % n) == ((p2 / n) as u32) * n + p2 % n,
    ;
}

/// Octaves extend the range: the octave of a position is the number of full
/// passes over the held notes before it.
pub proof fn lemma_octave_of_position(pos: int, n: int, octaves: int)
    requires
        n >= 1,
        1 <= octaves <= 4,
        0 <= pos < n * octaves,
    ensures
        0 <= pos / n < octaves,
        pos == (pos / n) * n + pos % n,
{
    assert(0 <= pos / n < octaves && pos == (pos / n) * n + pos % n) by (nonlinear_arith)
        requires
            n >= 1,
            1 <= octaves <= 4,
            0 <= pos < n * octaves,
    ;
}

} // verus!

//! Generative sequencing: the Euclidean rhythm generator, the xorshift
//! generator behind the coin-toss gate and the Turing machine, and the
//! Turing machine's looping shift register.

use vstd::prelude::*;
use crate::units::gate::{level_after, rising};

verus! {

/// Param index of the Euclid pattern length (switch value + 1 steps).
pub const EUCLID_LENGTH: u32 = 0;
/// Param index of the Euclid fill.
pub const EUCLID_FILL: u32 = 1;
/// Param index of the Euclid rotation.
pub const EUCLID_ROTATE: u32 = 2;

/// Whether a pulse falls on step `s` of a `fill`-over-`length` pattern: the
/// standard even-distribution (Bjorklund) formula, pulses falling where
/// `floor(s * fill / length)` changes.
pub open spec fn spec_is_hit(length: u32, fill: u32, rotate: u32, step: u32) -> bool {
    if length == 0 || fill == 0 {
        false
    } else {
        let f = if fill < length { fill as int } else { length as int };
        let s = (step as int + rotate as int) % length as int;
        (s * f) % (length as int) < f
    }
}

pub struct Euclid {
    length: u32,
    fill: u32,
    rotate: u32,
    step: u32,
    clock_high: bool,
    reset_high: bool,
}

impl Euclid {
    #[verifier::type_invariant]
    spec fn inv(self) -> bool {
        &&& 1 <= self.length <= 16
        &&& self.fill <= 16
        &&& self.step < 16
        &&& self.rotate <= u32::MAX - 16
    }

    pub closed spec fn length(&self) -> u32 {
        self.length
    }

    pub closed spec fn fill(&self) -> u32 {
        self.fill
    }

    pub closed spec fn rotate(&self) -> u32 {
        self.rotate
    }

    /// Current step of the pattern.
    pub closed spec fn step(&self) -> u32 {
        self.step
    }

    pub closed spec fn clock_high(&self) -> bool {
        self.clock_high
    }

    pub closed spec fn reset_high(&self) -> bool {
        self.reset_high
    }

    /// A 16-step, 4-pulse pattern at step 0.
    pub fn new() -> (r: Euclid)
        ensures
            r.length() == 16,
            r.fill() == 4,
            r.rotate() == 0,
            r.step() == 0,
            !r.clock_high(),
            !r.reset_high(),
    {
        Euclid { length: 16, fill: 4, rotate: 0, step: 0, clock_high: false, reset_high: false }
    }

    /// Set a param from its integer value: the length is the switch value
    /// plus one, clamped to 1..=16; the fill is clamped to 16; the rotation
    /// is taken as is.
    pub fn set_param(&mut self, param: u32, value: u32)
        requires
            param == EUCLID_LENGTH ==> value < u32::MAX,
            param == EUCLID_ROTATE ==> value <= u32::MAX - 16,
        ensures
            final(self).length() == (if param == EUCLID_LENGTH {
                if value + 1 > 16 { 16 } else { (value + 1) as u32 }
            } else {
                old(self).length()
            }),
            final(self).fill() == (if param == EUCLID_FILL {
                if value > 16 { 16 } else { value }
            } else {
                old(self).fill()
            }),
            final(self).rotate() == (if param == EUCLID_ROTATE { value } else { old(self).rotate() }),
            final(self).step() == old(self).step(),
            final(self).clock_high() == old(self).clock_high(),
            final(self).reset_high() == old(self).reset_high(),
    {
        proof {
            use_type_invariant(&*self);
        }
        if param == EUCLID_LENGTH {
            let v = value + 1;
            self.length = if v > 16 { 16 } else { v };
        } else if param == EUCLID_FILL {
            self.fill = if value > 16 { 16 } else { value };
        } else if param == EUCLID_ROTATE {
            self.rotate = value;
        }
    }

    /// Is `step` a hit of the current pattern?
    pub fn is_hit(&self, step: u32) -> (r: bool)
        requires
            step as int + self.rotate() as int <= u32::MAX,
        ensures
            r == spec_is_hit(self.length(), self.fill(), self.rotate(), step),
    {
        proof {
            use_type_invariant(self);
        }
        if self.length == 0 || self.fill == 0 {
            return false;
        }
        let fill = if self.fill < self.length { self.fill } else { self.length };
        let s = (step + self.rotate) % self.length;
        assert(s * fill <= 256) by (nonlinear_arith)
            requires
                s < self.length,
                self.length <= 16,
                fill <= 16,
        ;
        (s * fill) % self.length < fill
    }

    /// Advance one frame. `clock` is the clock gate (low when unconnected),
    /// `reset` the reset gate (`None` when unconnected). A reset rising edge
    /// returns to step 0; a clock rising edge advances one step around the
    /// pattern. Returns the output level: high, following the clock, only on hits.
    pub fn tick(&mut self, clock: bool, reset: Option<bool>) -> (gate: bool)
        ensures
            ({
                let s0 = if rising(reset, old(self).reset_high()) { 0 } else { old(self).step() };
                let s1 = if clock && !old(self).clock_high() {
                    ((s0 + 1) % old(self).length() as int) as u32
                } else {
                    s0
                };
                &&& final(self).step() == s1
                &&& final(self).reset_high() == level_after(reset, old(self).reset_high())
                &&& final(self).clock_high() == clock
            }),
            final(self).length() == old(self).length(),
            final(self).fill() == old(self).fill(),
            final(self).rotate() == old(self).rotate(),
            gate == (clock && spec_is_hit(final(self).length(), final(self).fill(), final(self).rotate(), final(self).step())),
    {
        proof {
            use_type_invariant(&*self);
        }
        if let Some(h) = reset {
            if h && !self.reset_high {
                self.step = 0;
            }
            self.reset_high = h;
        }
        if clock && !self.clock_high {
            self.step = (self.step + 1) % self.length;
        }
        self.clock_high = clock;
        let hit = self.is_hit(self.step);
        hit && clock
    }
}

/// Hits of the unrotated pattern among steps `0..n`.
pub open spec fn hits_upto(length: u32, fill: u32, n: nat) -> nat
    decreases n,
{
    if n == 0 {
        0
    } else {
        hits_upto(length, fill, (n - 1) as nat) + if spec_is_hit(length, fill, 0, (n - 1) as u32) {
            1nat
        } else {
            0nat
        }
    }
}

proof fn lemma_hits_upto(length: u32, fill: u32, n: nat)
    requires
        1 <= fill <= length,
        1 <= n <= length,
    ensures
        hits_upto(length, fill, n) == ((n - 1) * fill) / (length as int) + 1,
    decreases n,
{
    let l = length as int;
    let f = fill as int;
    if n == 1 {
        assert(spec_is_hit(length, fill, 0, 0u32)) by {
            assert((0int % l) == 0);
        }
        assert(hits_upto(length, fill, 0) == 0);
    } else {
        lemma_hits_upto(length, fill, (n - 1) as nat);
        let m = n - 1;
        let a = (m - 1) * f;
        let b = m * f;
        let q1 = a / l;
        let q2 = b / l;
        assert(b == a + f) by (nonlinear_arith)
            requires
                a == (m - 1) * f,
                b == m * f,
        ;
        assert(m % l == m) by (nonlinear_arith)
            requires
                0 <= m < l,
        ;
        assert((m + 0) % l == m);
        assert(spec_is_hit(length, fill, 0, m as u32) == ((b % l) < f));
        assert(((b % l) < f) == (q1 < q2)) by (nonlinear_arith)
            requires
                l >= 1,
                0 < f <= l,
                a >= 0,
                b == a + f,
                q1 == a / l,
                q2 == b / l,
        ;
        assert(q1 <= q2 <= q1 + 1) by (nonlinear_arith)
            requires
                l >= 1,
                0 < f <= l,
                a >= 0,
                b == a + f,
                q1 == a / l,
                q2 == b / l,
        ;
    }
}

/// A pattern of `fill` pulses over `length` steps (rotation 0) has exactly
/// `fill` hits per cycle when `fill <= length`.
pub proof fn lemma_euclid_hit_count(length: u32, fill: u32)
    requires
        1 <= fill <= length,
    ensures
        hits_upto(length, fill, length as nat) == fill,
{
    lemma_hits_upto(length, fill, length as nat);
    let l = length as int;
    let f = fill as int;
    assert(((l - 1) * f) / l == f - 1) by (nonlinear_arith)
        requires
            1 <= f <= l,
    ;
}

/// A pattern with no fill never fires.
pub proof fn lemma_euclid_zero_fill_silent(length: u32, rotate: u32, step: u32)
    ensures
        !spec_is_hit(length, 0, rotate, step),
{
}

/// Whether position `x` (a step plus the rotation) is a pulse of a
/// `fill`-over-`length` pattern: [`spec_is_hit`] on unbounded positions.
pub open spec fn hit_at(length: u32, fill: u32, x: int) -> bool {
    if length == 0 || fill == 0 {
        false
    } else {
        let f = if fill < length { fill as int } else { length as int };
        ((x % length as int) * f) % (length as int) < f
    }
}

/// Pulses among the positions `start .. start + n`.
pub open spec fn count_at(length: u32, fill: u32, start: int, n: nat) -> nat
    decreases n,
{
    if n == 0 {
        0
    } else {
        count_at(length, fill, start, (n - 1) as nat) + if hit_at(length, fill, start + n - 1) {
            1nat
        } else {
            0nat
        }
    }
}

/// Pulses of a pattern over one cycle of `length` steps from step 0, with
/// rotation `rotate`.
pub open spec fn cycle_hits(length: u32, fill: u32, rotate: u32) -> nat {
    count_at(length, fill, rotate as int, length as nat)
}

/// Splitting off the first position of a run.
proof fn lemma_count_front(length: u32, fill: u32, start: int, n: nat)
    ensures
        count_at(length, fill, start, n + 1) == (if hit_at(length, fill, start) { 1nat } else { 0nat })
            + count_at(length, fill, start + 1, n),
    decreases n,
{
    assert(count_at(length, fill, start, n + 1) == count_at(length, fill, start, n) + if hit_at(
        length,
        fill,
        start + n,
    ) {
        1nat
    } else {
        0nat
    });
    if n > 0 {
        lemma_count_front(length, fill, start, (n - 1) as nat);
        assert(count_at(length, fill, start + 1, n) == count_at(length, fill, start + 1, (n - 1) as nat)
            + if hit_at(length, fill, start + 1 + n - 1) {
            1nat
        } else {
            0nat
        });
    } else {
        assert(count_at(length, fill, start, 0) == 0);
        assert(count_at(length, fill, start + 1, 0) == 0);
    }
}

/// Positions one cycle apart agree.
proof fn lemma_hit_periodic(length: u32, fill: u32, x: int)
    requires
        length >= 1,
    ensures
        hit_at(length, fill, x + length) == hit_at(length, fill, x),
{
    vstd::arithmetic::div_mod::lemma_mod_add_multiples_vanish(x, length as int);
}

/// A whole cycle holds as many pulses wherever it starts.
proof fn lemma_cycle_shift(length: u32, fill: u32, start: nat)
    requires
        length >= 1,
    ensures
        count_at(length, fill, start as int, length as nat) == count_at(length, fill, 0, length as nat),
    decreases start,
{
    if start > 0 {
        let p = (start - 1) as int;
        lemma_cycle_shift(length, fill, (start - 1) as nat);
        lemma_count_front(length, fill, p, length as nat);
        lemma_hit_periodic(length, fill, p);
    }
}

/// From step 0 the run is the unrotated count [`hits_upto`].
proof fn lemma_count_from_zero(length: u32, fill: u32, n: nat)
    requires
        n <= length,
    ensures
        count_at(length, fill, 0, n) == hits_upto(length, fill, n),
    decreases n,
{
    if n > 0 {
        lemma_count_from_zero(length, fill, (n - 1) as nat);
        assert(hit_at(length, fill, n - 1) == spec_is_hit(length, fill, 0, (n - 1) as u32));
    }
}

/// With at least as many pulses as steps every position is a pulse.
proof fn lemma_full_fill_all_hit(length: u32, fill: u32, x: int)
    requires
        1 <= length <= fill,
    ensures
        hit_at(length, fill, x),
{
    let l = length as int;
    let r = x % l;
    vstd::arithmetic::div_mod::lemma_mod_multiples_basic(r, l);
}

proof fn lemma_full_fill_count(length: u32, fill: u32, n: nat)
    requires
        1 <= length <= fill,
    ensures
        count_at(length, fill, 0, n) == n,
    decreases n,
{
    if n > 0 {
        lemma_full_fill_count(length, fill, (n - 1) as nat);
        lemma_full_fill_all_hit(length, fill, n - 1);
    }
}

proof fn lemma_zero_fill_count(length: u32, n: nat)
    ensures
        count_at(length, 0, 0, n) == 0,
    decreases n,
{
    if n > 0 {
        lemma_zero_fill_count(length, (n - 1) as nat);
    }
}

/// The Euclidean pattern: over every cycle of `length` steps, whatever the
/// rotation, it fires `min(fill, length)` times (never with no fill, on
/// every step when the fill reaches the length); and a step and the step a
/// cycle later fire alike.
pub proof fn lemma_euclid_cycle(length: u32, fill: u32, rotate: u32, step: u32)
    requires
        length >= 1,
    ensures
        cycle_hits(length, fill, rotate) == (if fill < length { fill } else { length }),
        fill == 0 ==> !spec_is_hit(length, fill, rotate, step),
        fill >= length ==> spec_is_hit(length, fill, rotate, step),
        step as int + length as int <= u32::MAX ==> spec_is_hit(length, fill, rotate, (step + length) as u32)
            == spec_is_hit(length, fill, rotate, step),
{
    lemma_cycle_shift(length, fill, rotate as nat);
    if fill == 0 {
        lemma_zero_fill_count(length, length as nat);
    } else if fill < length {
        lemma_count_from_zero(length, fill, length as nat);
        lemma_euclid_hit_count(length, fill);
    } else {
        lemma_full_fill_count(length, fill, length as nat);
        lemma_full_fill_all_hit(length, fill, step as int + rotate as int);
    }
    assert(spec_is_hit(length, fill, rotate, step) == hit_at(length, fill, step as int + rotate as int));
    if step as int + length as int <= u32::MAX {
        lemma_hit_periodic(length, fill, step as int + rotate as int);
        assert(spec_is_hit(length, fill, rotate, (step + length) as u32) == hit_at(
            length,
            fill,
            step as int + rotate as int + length as int,
        ));
    }
}

// ---------------------------------------------------------------------------
// xorshift32 and the Turing register
// ---------------------------------------------------------------------------

/// One step of the xorshift32 generator (shifts 13, 17, 5).
pub open spec fn spec_xorshift32(x: u32) -> u32 {
    let a = x ^ ((x << 13u32) as u32);
    let b = a ^ (a >> 17u32);
    b ^ ((b << 5u32) as u32)
}

/// Advance an xorshift32 state.
pub fn xorshift32(x: u32) -> (r: u32)
    ensures
        r == spec_xorshift32(x),
{
    let mut y = x;
    y = y ^ (y << 13u32);
    y = y ^ (y >> 17u32);
    y = y ^ (y << 5u32);
    y
}

/// Mask of the low `len` bits of a register (all sixteen bits from 16 on).
pub open spec fn low_mask(len: u16) -> u16 {
    if len >= 16 {
        0xFFFFu16
    } else {
        ((1u16 << len) - 1) as u16
    }
}

/// One clock of a Turing register of `len` bits: the low `len` bits shift
/// up by one, the bit leaving the top is fed back at the bottom (inverted
/// when `flip`), and the bits above `len` are left alone.
pub open spec fn spec_turing_shift(bits: u16, len: u16, flip: bool) -> u16 {
    let top = (bits >> ((len - 1) as u16)) & 1u16;
    let new_bit = if flip { top ^ 1u16 } else { top };
    ((((bits << 1u16) | new_bit) & low_mask(len)) | (bits & !low_mask(len))) as u16
}

/// Clock a Turing register of `len` bits (1 to 16).
pub fn turing_shift(bits: u16, len: u16, flip: bool) -> (r: u16)
    requires
        1 <= len <= 16,
    ensures
        r == spec_turing_shift(bits, len, flip),
{
    let top = (bits >> (len - 1)) & 1u16;
    let new_bit = if flip { top ^ 1u16 } else { top };
    let mask: u16 = if len >= 16 {
        0xFFFF
    } else {
        let one: u16 = 1;
        assert(one << len >= 1) by (bit_vector)
            requires
                one == 1,
                1 <= len <= 15,
        ;
        (one << len) - 1
    };
    (((bits << 1u16) | new_bit) & mask) | (bits & !mask)
}

/// The register after `n` locked clocks (no flips).
pub open spec fn locked_shifts(bits: u16, len: u16, n: nat) -> u16
    decreases n,
{
    if n == 0 {
        bits
    } else {
        spec_turing_shift(locked_shifts(bits, len, (n - 1) as nat), len, false)
    }
}

/// The low `len` bits rotated up by `k` places, the bits above left alone.
pub open spec fn rotated(bits: u16, len: u16, k: u16) -> u16 {
    ((((((bits & low_mask(len)) << k) as u16) | ((bits & low_mask(len)) >> ((len - k) as u16)))
        & low_mask(len)) | (bits & !low_mask(len))) as u16
}

proof fn lemma_rotate_step(bits: u16, len: u16, k: u16)
    requires
        1 <= len <= 16,
        k < len,
    ensures
        spec_turing_shift(rotated(bits, len, k), len, false) == rotated(bits, len, (k + 1) as u16),
{
    assert(spec_turing_shift(rotated(bits, len, k), len, false) == rotated(bits, len, (k + 1) as u16))
        by (bit_vector)
        requires
            1 <= len <= 16,
            k < len,
    ;
}

proof fn lemma_locked_rotates(bits: u16, len: u16, k: u16)
    requires
        1 <= len <= 16,
        k <= len,
    ensures
        locked_shifts(bits, len, k as nat) == rotated(bits, len, k),
    decreases k,
{
    if k == 0 {
        assert(rotated(bits, len, 0) == bits) by (bit_vector)
            requires
                1 <= len <= 16,
        ;
    } else {
        lemma_locked_rotates(bits, len, (k - 1) as u16);
        lemma_rotate_step(bits, len, (k - 1) as u16);
    }
}

/// A locked Turing machine loops: `len` clocks without flips bring a
/// register of `len` bits back to where it started.
pub proof fn lemma_locked_loop_repeats(bits: u16, len: u16)
    requires
        1 <= len <= 16,
    ensures
        locked_shifts(bits, len, len as nat) == bits,
{
    lemma_locked_rotates(bits, len, len);
    assert(rotated(bits, len, len) == bits) by (bit_vector)
        requires
            1 <= len <= 16,
    ;
}

/// The register's top bit: the Turing machine's gate.
pub open spec fn spec_turing_top(bits: u16, len: u16) -> u16 {
    (bits >> ((len - 1) as u16)) & 1u16
}

/// Gate bit of a register of `len` bits.
pub fn turing_top(bits: u16, len: u16) -> (r: u16)
    requires
        1 <= len <= 16,
    ensures
        r == spec_turing_top(bits, len),
        r <= 1,
        (r == 1) == (bits & (1u16 << ((len - 1) as u16)) != 0),
{
    let r = (bits >> (len - 1)) & 1u16;
    assert(r <= 1) by (bit_vector)
        requires
            r == (bits >> ((len - 1) as u16)) & 1u16,
    ;
    proof {
        lemma_turing_gate_is_top_bit(bits, len);
    }
    r
}

/// The Turing machine's gate is the register's current top bit: it is high
/// exactly when bit `len - 1` of the register is set.
pub proof fn lemma_turing_gate_is_top_bit(bits: u16, len: u16)
    requires
        1 <= len <= 16,
    ensures
        spec_turing_top(bits, len) <= 1,
        (spec_turing_top(bits, len) == 1) == (bits & (1u16 << ((len - 1) as u16)) != 0),
{
    let t = spec_turing_top(bits, len);
    assert(t <= 1 && ((t == 1) == (bits & (1u16 << ((len - 1) as u16)) != 0))) by (bit_vector)
        requires
            1 <= len <= 16,
            t == (bits >> ((len - 1) as u16)) & 1u16,
    ;
}

} // verus!

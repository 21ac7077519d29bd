//! Quantizer: snaps a V/oct input to the nearest note of a chosen scale
//! (chromatic / major / minor / minor pentatonic), relative to a root. The
//! input's semitone value `semis` is handed over as its nearest integer
//! `center` plus where `semis` lies against it; the search over the window
//! `center - 3 ..= center + 3` is done here on integers.

use vstd::prelude::*;

verus! {

/// Semitone membership masks (bit i set = semitone i is in the scale).
pub open spec fn scale_mask(scale: int) -> u16 {
    if scale == 0 {
        0xFFF
    } else if scale == 1 {
        0xAB5
    } else if scale == 2 {
        0x5AD
    } else {
        0x4A9
    }
}

/// Pitch class `pc` is in the mask.
pub open spec fn in_mask(mask: u16, pc: u16) -> bool {
    mask & (1u16 << pc) != 0
}

/// Pitch class of semitone `s` relative to `root`.
pub open spec fn pitch_class(s: int, root: int) -> int {
    (s - root) % 12
}

/// Semitone `s` belongs to the scale over `root`.
pub open spec fn in_scale(scale: int, root: int, s: int) -> bool {
    in_mask(scale_mask(scale), pitch_class(s, root) as u16)
}

/// Where the input lies against its nearest integer semitone.
#[derive(Clone, Copy, Debug, PartialEq, Eq, Structural)]
pub enum Side {
    /// Strictly below, by less than half a semitone.
    Below,
    /// Exactly half a semitone below (the input was rounded up).
    HalfBelow,
    /// On the semitone.
    Exact,
    /// Strictly above, by at most half a semitone.
    Above,
}

/// Whether candidate `k2` (offset from the centre) lies strictly closer to
/// the input than the earlier, lower candidate `k1`.
pub open spec fn closer(k1: int, k2: int, side: Side) -> bool {
    let m = k1 + k2;
    if m >= 1 {
        false
    } else if m == 0 {
        side == Side::Above
    } else if m == -1 {
        side != Side::HalfBelow
    } else {
        true
    }
}

/// The scan over offsets `from..=3`: the first in-scale offset strictly
/// closer than every one before it wins; `best` is the winner so far.
pub open spec fn scan(scale: int, root: int, center: int, side: Side, from: int, best: Option<int>) -> Option<int>
    decreases 4 - from,
{
    if from > 3 {
        best
    } else {
        let nb = if in_scale(scale, root, center + from) {
            match best {
                None => Some(from),
                Some(b) => if closer(b, from, side) {
                    Some(from)
                } else {
                    best
                },
            }
        } else {
            best
        };
        scan(scale, root, center, side, from + 1, nb)
    }
}

/// Offset (from the centre) of the semitone the input snaps to, if any
/// in-scale semitone lies in the window.
pub open spec fn spec_pick(scale: int, root: int, center: int, side: Side) -> Option<int> {
    scan(scale, root, center, side, -3, None)
}

/// An optional offset as a mathematical integer.
pub open spec fn widen(o: Option<i32>) -> Option<int> {
    match o {
        Some(b) => Some(b as int),
        None => None,
    }
}

pub struct Quantizer {
    scale: usize,
    root: i32,
}

impl Quantizer {
    #[verifier::type_invariant]
    spec fn inv(self) -> bool {
        &&& self.scale < 4
        &&& 0 <= self.root < 12
    }

    pub closed spec fn scale(&self) -> usize {
        self.scale
    }

    pub closed spec fn root(&self) -> i32 {
        self.root
    }

    /// Major scale over C.
    pub fn new() -> (r: Quantizer)
        ensures
            r.scale() == 1,
            r.root() == 0,
    {
        Quantizer { scale: 1, root: 0 }
    }

    /// Select the scale (switch value, clamped to the last scale).
    pub fn set_scale(&mut self, v: usize)
        ensures
            final(self).scale() == (if v > 3 { 3 } else { v }),
            final(self).root() == old(self).root(),
    {
        proof {
            use_type_invariant(&*self);
        }
        self.scale = if v > 3 {
            3
        } else {
            v
        };
    }

    /// Select the root (any semitone, taken modulo 12).
    pub fn set_root(&mut self, v: i32)
        ensures
            final(self).root() == v as int % 12,
            final(self).scale() == old(self).scale(),
    {
        proof {
            use_type_invariant(&*self);
        }
        let r = v % 12;
        self.root = if r < 0 {
            r + 12
        } else {
            r
        };
    }

    /// The semitone an input snaps to: the in-scale semitone of the window
    /// `center - 3 ..= center + 3` nearest to the input, the lowest on ties;
    /// `None` if the window holds none (which never happens, see
    /// [`lemma_window_has_scale_tone`]).
    pub fn quantize(&self, center: i32, side: Side) -> (r: Option<i64>)
        ensures
            r == (match spec_pick(self.scale() as int, self.root() as int, center as int, side) {
                Some(k) => Some((center + k) as i64),
                None => None::<i64>,
            }),
    {
        proof {
            use_type_invariant(self);
        }
        let mask: u16 = if self.scale == 0 {
            0xFFF
        } else if self.scale == 1 {
            0xAB5
        } else if self.scale == 2 {
            0x5AD
        } else {
            0x4A9
        };
        let mut best: Option<i32> = None;
        let mut k: i32 = -3;
        let ghost sc = self.scale as int;
        let ghost rt = self.root as int;
        while k <= 3
            invariant
                -3 <= k <= 4,
                mask == scale_mask(sc),
                0 <= rt < 12,
                self.root as int == rt,
                best matches Some(b) ==> -3 <= b < k,
                spec_pick(sc, rt, center as int, side) == scan(sc, rt, center as int, side, k as int, widen(best)),
            decreases 4 - k,
        {
            let s: i64 = center as i64 + k as i64;
            let d: i64 = s - self.root as i64;
            let rem = d % 12;
            let pc: u16 = if rem < 0 {
                (rem + 12) as u16
            } else {
                rem as u16
            };
            assert(pc == pitch_class(s as int, rt));
            let one: u16 = 1;
            let hit = mask & (one << pc) != 0;
            if hit {
                best = match best {
                    None => Some(k),
                    Some(b) => {
                        let m = b + k;
                        let nearer = if m >= 1 {
                            false
                        } else if m == 0 {
                            side == Side::Above
                        } else if m == -1 {
                            side != Side::HalfBelow
                        } else {
                            true
                        };
                        if nearer {
                            Some(k)
                        } else {
                            Some(b)
                        }
                    },
                };
            }
            k = k + 1;
        }
        match best {
            Some(b) => Some(center as i64 + b as i64),
            None => None,
        }
    }
}

/// Which pitch classes each scale holds.
pub open spec fn scale_table(scale: int, pc: int) -> bool {
    if scale == 0 {
        true
    } else if scale == 1 {
        pc == 0 || pc == 2 || pc == 4 || pc == 5 || pc == 7 || pc == 9 || pc == 11
    } else if scale == 2 {
        pc == 0 || pc == 2 || pc == 3 || pc == 5 || pc == 7 || pc == 8 || pc == 10
    } else {
        pc == 0 || pc == 3 || pc == 5 || pc == 7 || pc == 10
    }
}

/// The masks hold exactly the tabled pitch classes.
pub proof fn lemma_masks_match_table(scale: int, pc: u16)
    requires
        0 <= scale < 4,
        pc < 12,
    ensures
        in_mask(scale_mask(scale), pc) == scale_table(scale, pc as int),
{
    let m0: u16 = 0xFFF;
    let m1: u16 = 0xAB5;
    let m2: u16 = 0x5AD;
    let m3: u16 = 0x4A9;
    assert(in_mask(m0, pc) == true) by (bit_vector)
        requires
            pc < 12,
            m0 == 0xFFF,
    ;
    assert(in_mask(m1, pc) == (pc == 0 || pc == 2 || pc == 4 || pc == 5 || pc == 7 || pc == 9 || pc
        == 11)) by (bit_vector)
        requires
            pc < 12,
            m1 == 0xAB5,
    ;
    assert(in_mask(m2, pc) == (pc == 0 || pc == 2 || pc == 3 || pc == 5 || pc == 7 || pc == 8 || pc
        == 10)) by (bit_vector)
        requires
            pc < 12,
            m2 == 0x5AD,
    ;
    assert(in_mask(m3, pc) == (pc == 0 || pc == 3 || pc == 5 || pc == 7 || pc == 10)) by (bit_vector)
        requires
            pc < 12,
            m3 == 0x4A9,
    ;
}

/// Every window of seven consecutive semitones holds a tone of every scale,
/// whatever the root: the quantizer always finds a semitone to snap to.
pub proof fn lemma_window_has_scale_tone(scale: int, root: int, center: int, side: Side)
    requires
        0 <= scale < 4,
        0 <= root < 12,
    ensures
        spec_pick(scale, root, center, side) is Some,
{
    let r0 = pitch_class(center - 3, root);
    assert(0 <= r0 < 12);
    // Some offset in the window lands on pitch class 0, 5 or 7, which every
    // scale holds.
    let k = if r0 == 0 {
        -3int
    } else if r0 <= 5 {
        5 - r0 - 3
    } else if r0 <= 7 {
        7 - r0 - 3
    } else {
        12 - r0 - 3
    };
    assert(-3 <= k <= 3);
    assert(pitch_class(center + k, root) == (r0 + k + 3) % 12) by (nonlinear_arith)
        requires
            r0 == (center - 3 - root) % 12,
    ;
    let pc = pitch_class(center + k, root);
    assert(pc == 0 || pc == 5 || pc == 7);
    lemma_masks_match_table(scale, pc as u16);
    assert(in_scale(scale, root, center + k));
    lemma_scan_finds(scale, root, center, side, -3, None, k);
}

/// A scan that passes an in-scale offset ends with a pick.
proof fn lemma_scan_finds(
    scale: int,
    root: int,
    center: int,
    side: Side,
    from: int,
    best: Option<int>,
    k: int,
)
    requires
        from <= k <= 3 || best is Some,
        from <= k <= 3 ==> in_scale(scale, root, center + k),
    ensures
        scan(scale, root, center, side, from, best) is Some,
    decreases 4 - from,
{
    if from <= 3 {
        let nb = if in_scale(scale, root, center + from) {
            match best {
                None => Some(from),
                Some(b) => if closer(b, from, side) {
                    Some(from)
                } else {
                    best
                },
            }
        } else {
            best
        };
        if from == k {
            lemma_scan_finds(scale, root, center, side, from + 1, nb, 4);
        } else if best is Some {
            lemma_scan_finds(scale, root, center, side, from + 1, nb, 4);
        } else {
            lemma_scan_finds(scale, root, center, side, from + 1, nb, k);
        }
    }
}

/// Output is always in scale: the picked semitone is an in-scale semitone
/// of the window.
pub proof fn lemma_pick_in_scale(scale: int, root: int, center: int, side: Side)
    ensures
        spec_pick(scale, root, center, side) matches Some(k) ==> -3 <= k <= 3 && in_scale(
            scale,
            root,
            center + k,
        ),
{
    lemma_scan_in_scale(scale, root, center, side, -3, None);
}

proof fn lemma_scan_in_scale(scale: int, root: int, center: int, side: Side, from: int, best: Option<int>)
    requires
        -3 <= from,
        best matches Some(b) ==> -3 <= b <= 3 && in_scale(scale, root, center + b),
    ensures
        scan(scale, root, center, side, from, best) matches Some(k) ==> -3 <= k <= 3 && in_scale(
            scale,
            root,
            center + k,
        ),
    decreases 4 - from,
{
    if from <= 3 {
        let nb = if in_scale(scale, root, center + from) {
            match best {
                None => Some(from),
                Some(b) => if closer(b, from, side) {
                    Some(from)
                } else {
                    best
                },
            }
        } else {
            best
        };
        lemma_scan_in_scale(scale, root, center, side, from + 1, nb);
    }
}

/// The input lies `n / d` semitones from the centre (`d > 0`), on the side
/// `side` names.
pub open spec fn side_holds(side: Side, n: int, d: int) -> bool {
    match side {
        Side::Below => -d < 2 * n && 2 * n < 0,
        Side::HalfBelow => 2 * n == -d,
        Side::Exact => n == 0,
        Side::Above => 0 < 2 * n && 2 * n <= d,
    }
}

/// Distance, in units of `1 / d` semitone, from an input `n / d` semitones
/// above the centre to the candidate `k` semitones above it.
pub open spec fn dist(n: int, d: int, k: int) -> int {
    let e = n - k * d;
    if e < 0 {
        -e
    } else {
        e
    }
}

/// `closer` compares true distances: of two candidates `k1 < k2` of the
/// window, `k2` is strictly nearer to the input exactly when `closer` says
/// so.
proof fn lemma_closer_is_nearer(k1: int, k2: int, side: Side, n: int, d: int)
    requires
        -3 <= k1 < k2 <= 3,
        d > 0,
        side_holds(side, n, d),
    ensures
        closer(k1, k2, side) == (dist(n, d, k2) < dist(n, d, k1)),
{
    let m = k1 + k2;
    // Nearer to k2 iff the input lies above the midpoint: 2n > (k1 + k2) d.
    assert((dist(n, d, k2) < dist(n, d, k1)) == (2 * n > m * d)) by (nonlinear_arith)
        requires
            k1 < k2,
            d > 0,
            m == k1 + k2,
    ;
    assert(-d <= 2 * n <= d);
    if m >= 1 {
        assert(m * d >= d) by (nonlinear_arith)
            requires
                m >= 1,
                d > 0,
        ;
    } else if m <= -2 {
        assert(m * d <= -2 * d) by (nonlinear_arith)
            requires
                m <= -2,
                d > 0,
        ;
    } else if m == -1 {
        assert(m * d == -d) by (nonlinear_arith)
            requires
                m == -1,
        ;
    } else {
        assert(m * d == 0) by (nonlinear_arith)
            requires
                m == 0,
        ;
    }
}

/// Offset `j` of the window around `center` is a scale tone.
pub open spec fn tone_at(scale: int, root: int, center: int, j: int) -> bool {
    in_scale(scale, root, center + j)
}

/// What the scan keeps: `best` is nearest among the in-scale offsets below
/// `from`, strictly nearer than every lower one; `None` when there are none.
pub open spec fn nearest_so_far(
    scale: int,
    root: int,
    center: int,
    n: int,
    d: int,
    from: int,
    best: Option<int>,
) -> bool {
    match best {
        None => forall|j: int| -3 <= j < from ==> !#[trigger] tone_at(scale, root, center, j),
        Some(b) => {
            &&& -3 <= b < from
            &&& in_scale(scale, root, center + b)
            &&& forall|j: int|
                -3 <= j < from && #[trigger] tone_at(scale, root, center, j) ==> dist(n, d, b) <= dist(
                    n,
                    d,
                    j,
                ) && (j < b ==> dist(n, d, b) < dist(n, d, j))
        },
    }
}

proof fn lemma_scan_nearest(
    scale: int,
    root: int,
    center: int,
    side: Side,
    n: int,
    d: int,
    from: int,
    best: Option<int>,
)
    requires
        -3 <= from <= 4,
        d > 0,
        side_holds(side, n, d),
        nearest_so_far(scale, root, center, n, d, from, best),
    ensures
        nearest_so_far(scale, root, center, n, d, 4, scan(scale, root, center, side, from, best)),
    decreases 4 - from,
{
    if from <= 3 {
        let nb = if in_scale(scale, root, center + from) {
            match best {
                None => Some(from),
                Some(b) => if closer(b, from, side) {
                    Some(from)
                } else {
                    best
                },
            }
        } else {
            best
        };
        if in_scale(scale, root, center + from) {
            if let Some(b) = best {
                lemma_closer_is_nearer(b, from, side, n, d);
            }
        }
        assert(nearest_so_far(scale, root, center, n, d, from + 1, nb));
        lemma_scan_nearest(scale, root, center, side, n, d, from + 1, nb);
    }
}

/// The quantizer snaps to the nearest scale tone, the lower one on ties:
/// for an input `n / d` semitones from the centre on the side `side`
/// names, no in-scale semitone of the window is nearer than the pick, and
/// none below the pick is as near.
pub proof fn lemma_pick_is_nearest(scale: int, root: int, center: int, side: Side, n: int, d: int, j: int)
    requires
        0 <= scale < 4,
        0 <= root < 12,
        d > 0,
        side_holds(side, n, d),
        -3 <= j <= 3,
        in_scale(scale, root, center + j),
    ensures
        spec_pick(scale, root, center, side) matches Some(k) && dist(n, d, k) <= dist(n, d, j) && (j < k
            ==> dist(n, d, k) < dist(n, d, j)),
{
    lemma_scan_nearest(scale, root, center, side, n, d, -3, None);
    lemma_window_has_scale_tone(scale, root, center, side);
    assert(tone_at(scale, root, center, j));
}

} // verus!

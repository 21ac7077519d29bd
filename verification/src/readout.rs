//! Integer parts of the rack's readouts: the note name shown for a detected
//! pitch, and the color slot of a cable.

use vstd::prelude::*;

verus! {

/// Name of pitch class `pc` (0 = C).
pub open spec fn spec_pitch_name(pc: int) -> Seq<char> {
    if pc == 0 {
        "C"@
    } else if pc == 1 {
        "C#"@
    } else if pc == 2 {
        "D"@
    } else if pc == 3 {
        "D#"@
    } else if pc == 4 {
        "E"@
    } else if pc == 5 {
        "F"@
    } else if pc == 6 {
        "F#"@
    } else if pc == 7 {
        "G"@
    } else if pc == 8 {
        "G#"@
    } else if pc == 9 {
        "A"@
    } else if pc == 10 {
        "A#"@
    } else {
        "B"@
    }
}

/// Name and octave of MIDI note `midi` in scientific pitch notation
/// (MIDI 60 = C4); notes below 0 continue the pattern downwards.
pub fn note_name(midi: i32) -> (r: (&'static str, i32))
    ensures
        r.0@ == spec_pitch_name(midi as int % 12),
        r.1 == midi as int / 12 - 1,
{
    let pc = midi % 12;
    let pc = if pc < 0 {
        pc + 12
    } else {
        pc
    };
    let q = midi / 12;
    let octave = if midi % 12 < 0 {
        q - 1
    } else {
        q
    };
    let name = if pc == 0 {
        "C"
    } else if pc == 1 {
        "C#"
    } else if pc == 2 {
        "D"
    } else if pc == 3 {
        "D#"
    } else if pc == 4 {
        "E"
    } else if pc == 5 {
        "F"
    } else if pc == 6 {
        "F#"
    } else if pc == 7 {
        "G"
    } else if pc == 8 {
        "G#"
    } else if pc == 9 {
        "A"
    } else if pc == 10 {
        "A#"
    } else {
        "B"
    };
    proof {
        reveal_strlit("C");
        reveal_strlit("C#");
        reveal_strlit("D");
        reveal_strlit("D#");
        reveal_strlit("E");
        reveal_strlit("F");
        reveal_strlit("F#");
        reveal_strlit("G");
        reveal_strlit("G#");
        reveal_strlit("A");
        reveal_strlit("A#");
        reveal_strlit("B");
    }
    (name, octave - 1)
}

/// The natural pitch classes (white keys), from C up.
pub open spec fn naturals() -> Seq<int> {
    seq![0, 2, 4, 5, 7, 9, 11]
}

/// Note names run through the chromatic scale from C: the seven naturals
/// are the single letters C, D, E, F, G, A, B, each the letter after the
/// previous one (G wrapping to A); every other pitch class is named as the
/// natural below it with a sharp; so the twelve names are all different.
pub proof fn lemma_pitch_names_chromatic(i: int, p: int, q: int)
    ensures
        spec_pitch_name(0) == seq!['C'],
        0 <= i < 7 ==> spec_pitch_name(naturals()[i]).len() == 1,
        0 <= i < 6 ==> ({
            let a = spec_pitch_name(naturals()[i])[0];
            let b = spec_pitch_name(naturals()[i + 1])[0];
            b as int == a as int + 1 || (a == 'G' && b == 'A')
        }),
        0 <= p < 12 && !naturals().contains(p) ==> spec_pitch_name(p) == spec_pitch_name(p - 1).push('#'),
        0 <= p < 12 && 0 <= q < 12 && p != q ==> spec_pitch_name(p) != spec_pitch_name(q),
{
    reveal_strlit("C");
    reveal_strlit("C#");
    reveal_strlit("D");
    reveal_strlit("D#");
    reveal_strlit("E");
    reveal_strlit("F");
    reveal_strlit("F#");
    reveal_strlit("G");
    reveal_strlit("G#");
    reveal_strlit("A");
    reveal_strlit("A#");
    reveal_strlit("B");
    let whites = naturals();
    assert(spec_pitch_name(0) =~= seq!['C']);
    if 0 <= p < 12 && !whites.contains(p) {
        assert(p == 1 || p == 3 || p == 6 || p == 8 || p == 10) by {
            if p == 0 { assert(whites[0] == p); }
            if p == 2 { assert(whites[1] == p); }
            if p == 4 { assert(whites[2] == p); }
            if p == 5 { assert(whites[3] == p); }
            if p == 7 { assert(whites[4] == p); }
            if p == 9 { assert(whites[5] == p); }
            if p == 11 { assert(whites[6] == p); }
        }
        assert(spec_pitch_name(p) =~= spec_pitch_name(p - 1).push('#'));
    }
    if 0 <= p < 12 && 0 <= q < 12 && p != q {
        let a = spec_pitch_name(p);
        let b = spec_pitch_name(q);
        if a.len() == b.len() {
            assert(a[0] != b[0] || (a.len() == 2 && a[1] != b[1]) || a.len() == 1 && a[0] != b[0]);
        }
    }
}

/// Number of cable colors.
pub const CABLE_COLORS: u64 = 5;

/// Color slot of cable `id`: the colors cycle with the cable id.
pub fn cable_color_index(id: u64) -> (r: usize)
    ensures
        r == id % CABLE_COLORS,
        r < CABLE_COLORS,
{
    (id % CABLE_COLORS) as usize
}

} // verus!

//! Computer-keyboard piano: AWSEDFTGYHUJK map (A = C, white keys on the home
//! row), Z/X shift octaves. Keys are identified by their letter. Releases
//! everything on focus loss so notes cannot stick.

use vstd::prelude::*;
use crate::messages::{note_off_msg, note_on_msg, zero_msg, Msg};

verus! {

/// Semitone offset from the base note of each mapped key.
pub open spec fn spec_key_semitone(k: char) -> Option<i32> {
    if k == 'A' {
        Some(0)
    } else if k == 'W' {
        Some(1)
    } else if k == 'S' {
        Some(2)
    } else if k == 'E' {
        Some(3)
    } else if k == 'D' {
        Some(4)
    } else if k == 'F' {
        Some(5)
    } else if k == 'T' {
        Some(6)
    } else if k == 'G' {
        Some(7)
    } else if k == 'Y' {
        Some(8)
    } else if k == 'H' {
        Some(9)
    } else if k == 'U' {
        Some(10)
    } else if k == 'J' {
        Some(11)
    } else if k == 'K' {
        Some(12)
    } else {
        None
    }
}

/// The piano keys of the home and upper rows, lowest note first.
pub open spec fn key_row() -> Seq<char> {
    seq!['A', 'W', 'S', 'E', 'D', 'F', 'T', 'G', 'Y', 'H', 'U', 'J', 'K']
}

/// The AWSEDFTGYHUJK keys play consecutive semitones: the `i`-th key of the
/// row sits `i` semitones above the base note, no other key plays, and
/// distinct keys play distinct notes.
pub proof fn lemma_key_row_is_chromatic(i: int, k1: char, k2: char)
    requires
        0 <= i < 13,
    ensures
        spec_key_semitone(key_row()[i]) == Some(i as i32),
        spec_key_semitone(k1) is Some <==> key_row().contains(k1),
        spec_key_semitone(k1) is Some && k1 != k2 ==> spec_key_semitone(k1) != spec_key_semitone(k2),
{
    let row = key_row();
    assert(row.len() == 13);
    if spec_key_semitone(k1) is Some {
        let j = spec_key_semitone(k1).unwrap() as int;
        assert(0 <= j < 13 && row[j] == k1);
    }
    if row.contains(k1) {
        let j = choose|j: int| 0 <= j < row.len() && row[j] == k1;
        assert(spec_key_semitone(row[j]) is Some);
    }
}

/// Semitone offset of a mapped key.
pub fn key_semitone(k: char) -> (r: Option<i32>)
    ensures
        r == spec_key_semitone(k),
{
    if k == 'A' {
        Some(0)
    } else if k == 'W' {
        Some(1)
    } else if k == 'S' {
        Some(2)
    } else if k == 'E' {
        Some(3)
    } else if k == 'D' {
        Some(4)
    } else if k == 'F' {
        Some(5)
    } else if k == 'T' {
        Some(6)
    } else if k == 'G' {
        Some(7)
    } else if k == 'Y' {
        Some(8)
    } else if k == 'H' {
        Some(9)
    } else if k == 'U' {
        Some(10)
    } else if k == 'J' {
        Some(11)
    } else if k == 'K' {
        Some(12)
    } else {
        None
    }
}

/// MIDI note of a key: middle C (60) shifted by octaves and the key's
/// offset, clamped to 0..=127.
pub open spec fn spec_key_note(octave: i32, semis: i32) -> u8 {
    let n = 60 + 12 * octave + semis;
    if n < 0 {
        0
    } else if n > 127 {
        127
    } else {
        n as u8
    }
}

/// The key was pressed and is not yet released, sounding `note`.
pub open spec fn holds_key(held: Seq<(char, u8)>, k: char) -> bool {
    exists|i: int| 0 <= i < held.len() && held[i].0 == k
}

/// No key occurs twice among the held keys.
pub open spec fn keys_distinct(held: Seq<(char, u8)>) -> bool {
    forall|i: int, j: int|
        0 <= i < j < held.len() ==> (#[trigger] held[i]).0 != (#[trigger] held[j]).0
}

/// Index of the held entry of key `k` (keys are held at most once).
pub open spec fn key_index(held: Seq<(char, u8)>, k: char) -> int {
    choose|i: int| 0 <= i < held.len() && held[i].0 == k
}

/// Effect of one key event on the held keys and the octave, and the record
/// it sends. Key repeats and Ctrl/Cmd shortcuts are ignored. Z and X (on
/// press) shift the octave down/up within +-3. A mapped key's press sounds
/// its note unless already held; its release ends the note it started,
/// whatever the octave now.
pub open spec fn spec_key_event(
    held: Seq<(char, u8)>,
    octave: i32,
    key: char,
    pressed: bool,
    repeat: bool,
    command: bool,
) -> (Seq<(char, u8)>, i32, Option<Msg>) {
    if repeat || command {
        (held, octave, None)
    } else if key == 'Z' && pressed {
        (held, if octave - 1 < -3 { -3i32 } else { (octave - 1) as i32 }, None)
    } else if key == 'X' && pressed {
        (held, if octave + 1 > 3 { 3i32 } else { (octave + 1) as i32 }, None)
    } else {
        match spec_key_semitone(key) {
            None => (held, octave, None),
            Some(semis) => if pressed {
                if holds_key(held, key) {
                    (held, octave, None)
                } else {
                    let note = spec_key_note(octave, semis);
                    (held.push((key, note)), octave, Some(note_on_msg(note, 100, 0)))
                }
            } else {
                if holds_key(held, key) {
                    let i = key_index(held, key);
                    (held.remove(i), octave, Some(note_off_msg(held[i].1, 0)))
                } else {
                    (held, octave, None)
                }
            },
        }
    }
}

/// Adding a key not yet held keeps the held keys distinct.
proof fn lemma_distinct_push(held: Seq<(char, u8)>, k: char, n: u8)
    requires
        keys_distinct(held),
        !holds_key(held, k),
    ensures
        keys_distinct(held.push((k, n))),
{
    let h = held.push((k, n));
    assert forall|i: int, j: int| 0 <= i < j < h.len() implies (#[trigger] h[i]).0 != (#[trigger] h[j]).0 by {
        assert(h[i] == held[i]);
        if j < held.len() {
            assert(h[j] == held[j]);
        }
    }
}

/// Removing an entry keeps the held keys distinct.
proof fn lemma_distinct_remove(held: Seq<(char, u8)>, i: int)
    requires
        keys_distinct(held),
        0 <= i < held.len(),
    ensures
        keys_distinct(held.remove(i)),
{
    let h = held.remove(i);
    assert forall|a: int, b: int| 0 <= a < b < h.len() implies (#[trigger] h[a]).0 != (#[trigger] h[b]).0 by {
        let a2 = if a < i { a } else { a + 1 };
        let b2 = if b < i { b } else { b + 1 };
        assert(h[a] == held[a2]);
        assert(h[b] == held[b2]);
    }
}

/// The held entry of a key is the one `key_index` names.
proof fn lemma_key_index(held: Seq<(char, u8)>, k: char, i: int)
    requires
        keys_distinct(held),
        0 <= i < held.len(),
        held[i].0 == k,
    ensures
        key_index(held, k) == i,
{
    assert(holds_key(held, k));
    let j = key_index(held, k);
    if j < i {
        assert((held[j]).0 != (held[i]).0);
    } else if j > i {
        assert((held[i]).0 != (held[j]).0);
    }
}

/// A key's release ends the note its press started, whatever one event of
/// another key did in between (sounding or ending another note, or
/// shifting the octave): the press sounds the key's note, the release sends
/// the note off for that same note and frees the key.
pub proof fn lemma_release_ends_pressed_note(
    held: Seq<(char, u8)>,
    octave: i32,
    k: char,
    other: char,
    other_pressed: bool,
    other_repeat: bool,
    other_command: bool,
)
    requires
        keys_distinct(held),
        -3 <= octave <= 3,
        spec_key_semitone(k) is Some,
        !holds_key(held, k),
        other != k,
    ensures
        ({
            let (h1, o1, on) = spec_key_event(held, octave, k, true, false, false);
            let (h2, o2, mid) = spec_key_event(h1, o1, other, other_pressed, other_repeat, other_command);
            let (h3, o3, off) = spec_key_event(h2, o2, k, false, false, false);
            let note = spec_key_note(octave, spec_key_semitone(k).unwrap());
            &&& on == Some(note_on_msg(note, 100, 0))
            &&& off == Some(note_off_msg(note, 0))
            &&& !holds_key(h3, k)
        }),
{
    let note = spec_key_note(octave, spec_key_semitone(k).unwrap());
    let (h1, o1, on) = spec_key_event(held, octave, k, true, false, false);
    assert(h1 == held.push((k, note)));
    lemma_distinct_push(held, k, note);
    let p = held.len() as int;
    assert(h1[p] == (k, note));
    let (h2, o2, mid) = spec_key_event(h1, o1, other, other_pressed, other_repeat, other_command);
    // The key's entry survives the other event.
    let q: int = if !(other_repeat || other_command) && !((other == 'Z' || other == 'X') && other_pressed)
        && spec_key_semitone(other) is Some && !other_pressed && holds_key(h1, other)
        && key_index(h1, other) < p {
        p - 1
    } else {
        p
    };
    if !(other_repeat || other_command) && !((other == 'Z' || other == 'X') && other_pressed)
        && spec_key_semitone(other) is Some {
        if other_pressed {
            if !holds_key(h1, other) {
                lemma_distinct_push(h1, other, spec_key_note(o1, spec_key_semitone(other).unwrap()));
            }
        } else if holds_key(h1, other) {
            let i = key_index(h1, other);
            assert(0 <= i < h1.len() && h1[i].0 == other);
            assert(i != p);
            lemma_distinct_remove(h1, i);
        }
    }
    assert(keys_distinct(h2));
    assert(0 <= q < h2.len() && h2[q] == (k, note));
    lemma_key_index(h2, k, q);
    let (h3, o3, off) = spec_key_event(h2, o2, k, false, false, false);
    assert(h3 == h2.remove(q));
    lemma_distinct_remove(h2, q);
    if holds_key(h3, k) {
        let w = choose|w: int| 0 <= w < h3.len() && h3[w].0 == k;
        let w2 = if w < q { w } else { w + 1 };
        assert(h3[w] == h2[w2]);
        if w2 < q {
            assert((h2[w2]).0 != (h2[q]).0);
        } else {
            assert((h2[q]).0 != (h2[w2]).0);
        }
    }
}

pub struct KeyboardPiano {
    /// Note sounded per held key (notes survive octave shifts mid-hold).
    held: Vec<(char, u8)>,
    /// Octave offset from middle C.
    octave: i32,
}

impl KeyboardPiano {
    /// Held keys with their notes, in press order.
    pub closed spec fn held(&self) -> Seq<(char, u8)> {
        self.held@
    }

    /// Octave offset from middle C.
    pub closed spec fn spec_octave(&self) -> i32 {
        self.octave
    }

    /// Octave offset from middle C.
    pub fn octave(&self) -> (r: i32)
        ensures
            r == self.spec_octave(),
    {
        self.octave
    }

    /// Well-formedness: each key held at most once, octave within +-3.
    pub open spec fn wf(&self) -> bool {
        &&& keys_distinct(self.held())
        &&& -3 <= self.spec_octave() <= 3
    }

    pub fn new() -> (r: KeyboardPiano)
        ensures
            r.wf(),
            r.held() == Seq::<(char, u8)>::empty(),
            r.spec_octave() == 0,
    {
        KeyboardPiano { held: Vec::new(), octave: 0 }
    }

    pub fn held_count(&self) -> (r: usize)
        ensures
            r == self.held().len(),
    {
        self.held.len()
    }

    /// Keyboard focus lost (or text entry took the keyboard): release
    /// everything, once.
    pub fn release_all(&mut self) -> (r: Option<Msg>)
        requires
            old(self).wf(),
        ensures
            final(self).wf(),
            final(self).held() == Seq::<(char, u8)>::empty(),
            final(self).spec_octave() == old(self).spec_octave(),
            r == (if old(self).held().len() > 0 {
                Some(Msg { tag: 4, ..zero_msg() })
            } else {
                None::<Msg>
            }),
    {
        if self.held.len() > 0 {
            self.held = Vec::new();
            Some(Msg::all_notes_off())
        } else {
            None
        }
    }

    fn find(&self, k: char) -> (r: Option<usize>)
        ensures
            r matches Some(i) ==> i < self.held().len() && self.held()[i as int].0 == k,
            r is None ==> !holds_key(self.held(), k),
    {
        for i in 0..self.held.len()
            invariant
                forall|j: int| 0 <= j < i ==> self.held@[j].0 != k,
        {
            if self.held[i].0 == k {
                return Some(i);
            }
        }
        None
    }

    /// One key event. Key repeats and Ctrl/Cmd shortcuts are ignored. Z and
    /// X (on press) shift the octave down/up within +-3. A mapped key's
    /// press sounds its note unless already held; its release ends the note
    /// it started, whatever the octave now.
    pub fn key_event(&mut self, key: char, pressed: bool, repeat: bool, command: bool) -> (r: Option<Msg>)
        requires
            old(self).wf(),
        ensures
            final(self).wf(),
            (final(self).held(), final(self).spec_octave(), r) == spec_key_event(
                old(self).held(),
                old(self).spec_octave(),
                key,
                pressed,
                repeat,
                command,
            ),
    {
        if repeat || command {
            return None;
        }
        if key == 'Z' && pressed {
            self.octave = if self.octave - 1 < -3 {
                -3
            } else {
                self.octave - 1
            };
            return None;
        }
        if key == 'X' && pressed {
            self.octave = if self.octave + 1 > 3 {
                3
            } else {
                self.octave + 1
            };
            return None;
        }
        let semis = match key_semitone(key) {
            None => return None,
            Some(s) => s,
        };
        let found = self.find(key);
        if pressed {
            match found {
                Some(_) => None,
                None => {
                    let n = 60 + 12 * self.octave + semis;
                    let note: u8 = if n < 0 {
                        0
                    } else if n > 127 {
                        127
                    } else {
                        n as u8
                    };
                    let ghost before = self.held@;
                    self.held.push((key, note));
                    proof {
                        assert forall|i: int, j: int|
                            0 <= i < j < self.held().len() implies (#[trigger] self.held()[i]).0
                            != (#[trigger] self.held()[j]).0 by {
                            if j == before.len() {
                                assert(self.held()[i] == before[i]);
                            } else {
                                assert(self.held()[i] == before[i]);
                                assert(self.held()[j] == before[j]);
                            }
                        }
                    }
                    Some(Msg::note_on(note, 100, 0))
                },
            }
        } else {
            match found {
                None => None,
                Some(i) => {
                    let ghost before = self.held@;
                    proof {
                        assert(holds_key(before, key));
                        let j = key_index(before, key);
                        assert(0 <= j < before.len() && before[j].0 == key);
                        if j != i as int {
                            if j < i as int {
                                assert((before[j]).0 != (before[i as int]).0);
                            } else {
                                assert((before[i as int]).0 != (before[j]).0);
                            }
                        }
                    }
                    let (_, note) = self.held.remove(i);
                    proof {
                        assert(self.held() == before.remove(i as int));
                        assert forall|a: int, b: int|
                            0 <= a < b < self.held().len() implies (#[trigger] self.held()[a]).0
                            != (#[trigger] self.held()[b]).0 by {
                            let a2 = if a < i { a } else { a + 1 };
                            let b2 = if b < i { b } else { b + 1 };
                            assert(self.held()[a] == before[a2]);
                            assert(self.held()[b] == before[b2]);
                        }
                    }
                    Some(Msg::note_off(note, 0))
                },
            }
        }
    }
}

} // verus!

//! UI -> engine control messages. Fixed-size 32-byte records so a batch is one
//! flat byte buffer: eight little-endian `u32` words per record, in the order
//! `tag, a, b, c, value, pad, pad, pad`.

use vstd::prelude::*;
use crate::wire::{
    le32_words, lemma_block_index, lemma_le32_words_read, read_u32, u32_at, words_to_bytes,
};

verus! {

/// Bytes per control record.
pub const MSG_SIZE: usize = 32;

/// Message discriminant, stored as a `u32` in [`Msg::tag`].
#[derive(Clone, Copy, Debug, PartialEq, Eq, Structural)]
pub enum MsgTag {
    /// `a` = module slot, `b` = param index, `value` = new value.
    SetParam,
    /// `a` = note number, `b` = velocity (0-127), `c` = frame offset in quantum.
    NoteOn,
    /// `a` = note number, `c` = frame offset in quantum.
    NoteOff,
    /// Release everything (focus loss, panic button).
    AllNotesOff,
}

/// The wire code of each tag.
pub open spec fn tag_code(t: MsgTag) -> u32 {
    match t {
        MsgTag::SetParam => 1,
        MsgTag::NoteOn => 2,
        MsgTag::NoteOff => 3,
        MsgTag::AllNotesOff => 4,
    }
}

impl MsgTag {
    /// The tag's wire code (1..=4).
    pub fn code(self) -> (r: u32)
        ensures
            r == tag_code(self),
    {
        match self {
            MsgTag::SetParam => 1,
            MsgTag::NoteOn => 2,
            MsgTag::NoteOff => 3,
            MsgTag::AllNotesOff => 4,
        }
    }

    /// Decode a wire code; codes other than 1..=4 are not tags.
    pub fn from_u32(v: u32) -> (r: Option<MsgTag>)
        ensures
            r == (if v == 1 {
                Some(MsgTag::SetParam)
            } else if v == 2 {
                Some(MsgTag::NoteOn)
            } else if v == 3 {
                Some(MsgTag::NoteOff)
            } else if v == 4 {
                Some(MsgTag::AllNotesOff)
            } else {
                None::<MsgTag>
            }),
            r matches Some(t) ==> tag_code(t) == v,
    {
        if v == 1 {
            Some(MsgTag::SetParam)
        } else if v == 2 {
            Some(MsgTag::NoteOn)
        } else if v == 3 {
            Some(MsgTag::NoteOff)
        } else if v == 4 {
            Some(MsgTag::AllNotesOff)
        } else {
            None
        }
    }
}

/// Decoding a tag's code gives the tag back.
pub proof fn lemma_tag_roundtrip(t: MsgTag)
    ensures
        1 <= tag_code(t) <= 4,
        (if tag_code(t) == 1 {
            Some(MsgTag::SetParam)
        } else if tag_code(t) == 2 {
            Some(MsgTag::NoteOn)
        } else if tag_code(t) == 3 {
            Some(MsgTag::NoteOff)
        } else {
            Some(MsgTag::AllNotesOff)
        }) == Some(t),
{
}

/// One 32-byte control record. Field meaning depends on `tag` (see
/// [`MsgTag`]); unused fields are zero. `value` holds the bit pattern of the
/// IEEE-754 single-precision parameter value.
#[derive(Clone, Copy, Debug)]
pub struct Msg {
    pub tag: u32,
    pub a: u32,
    pub b: u32,
    pub c: u32,
    pub value: u32,
    pub _pad: [u32; 3],
}

/// The all-zero record.
pub open spec fn zero_msg() -> Msg {
    Msg { tag: 0, a: 0, b: 0, c: 0, value: 0, _pad: [0, 0, 0] }
}

impl Default for Msg {
    fn default() -> (r: Msg)
        ensures
            r == zero_msg(),
    {
        Msg { tag: 0, a: 0, b: 0, c: 0, value: 0, _pad: [0, 0, 0] }
    }
}

/// The note-on record.
pub open spec fn note_on_msg(note: u8, velocity: u8, frame_offset: u8) -> Msg {
    Msg { tag: 2, a: note as u32, b: velocity as u32, c: frame_offset as u32, ..zero_msg() }
}

/// The note-off record.
pub open spec fn note_off_msg(note: u8, frame_offset: u8) -> Msg {
    Msg { tag: 3, a: note as u32, c: frame_offset as u32, ..zero_msg() }
}

impl Msg {
    /// Set `param` of the module in `slot`; `value` is the bit pattern of the
    /// new value.
    pub fn set_param(slot: u32, param: u32, value: u32) -> (r: Msg)
        ensures
            r == (Msg { tag: 1, a: slot, b: param, value, ..zero_msg() }),
    {
        Msg { tag: 1, a: slot, b: param, c: 0, value, _pad: [0, 0, 0] }
    }

    pub fn note_on(note: u8, velocity: u8, frame_offset: u8) -> (r: Msg)
        ensures
            r == note_on_msg(note, velocity, frame_offset),
    {
        Msg {
            tag: 2,
            a: note as u32,
            b: velocity as u32,
            c: frame_offset as u32,
            value: 0,
            _pad: [0, 0, 0],
        }
    }

    pub fn note_off(note: u8, frame_offset: u8) -> (r: Msg)
        ensures
            r == note_off_msg(note, frame_offset),
    {
        Msg { tag: 3, a: note as u32, b: 0, c: frame_offset as u32, value: 0, _pad: [0, 0, 0] }
    }

    pub fn all_notes_off() -> (r: Msg)
        ensures
            r == (Msg { tag: 4, ..zero_msg() }),
    {
        Msg { tag: 4, a: 0, b: 0, c: 0, value: 0, _pad: [0, 0, 0] }
    }
}

/// The eight words of a record, in wire order.
pub open spec fn msg_words(m: Msg) -> Seq<u32> {
    seq![m.tag, m.a, m.b, m.c, m.value, m._pad@[0], m._pad@[1], m._pad@[2]]
}

/// The words of a batch: each record's words, records in order.
pub open spec fn batch_words(s: Seq<Msg>) -> Seq<u32> {
    Seq::new(8 * s.len(), |q: int| msg_words(s[q / 8])[q % 8])
}

/// The bytes of an encoded batch.
pub open spec fn spec_encode_batch(s: Seq<Msg>) -> Seq<u8> {
    le32_words(batch_words(s))
}

/// The record whose 32 bytes start at offset `p`.
pub open spec fn msg_at(b: Seq<u8>, p: int) -> Msg {
    Msg {
        tag: u32_at(b, p),
        a: u32_at(b, p + 4),
        b: u32_at(b, p + 8),
        c: u32_at(b, p + 12),
        value: u32_at(b, p + 16),
        _pad: [u32_at(b, p + 20), u32_at(b, p + 24), u32_at(b, p + 28)],
    }
}

/// The records of a received batch: one per whole 32-byte chunk; a trailing
/// partial chunk is ignored.
pub open spec fn spec_decode_batch(b: Seq<u8>) -> Seq<Msg> {
    Seq::new(b.len() / 32, |i: int| msg_at(b, 32 * i))
}

/// Serialize a batch of messages to bytes.
pub fn encode_batch(msgs: &[Msg]) -> (r: Vec<u8>)
    requires
        32 * msgs@.len() <= usize::MAX,
    ensures
        r@ == spec_encode_batch(msgs@),
        r@.len() == 32 * msgs@.len(),
{
    let n = msgs.len();
    let mut words: Vec<u32> = Vec::with_capacity(8 * n);
    for i in 0..n
        invariant
            n == msgs@.len(),
            32 * n <= usize::MAX,
            words@ == batch_words(msgs@.take(i as int)),
    {
        let m = msgs[i];
        let ghost before = words@;
        words.push(m.tag);
        words.push(m.a);
        words.push(m.b);
        words.push(m.c);
        words.push(m.value);
        words.push(m._pad[0]);
        words.push(m._pad[1]);
        words.push(m._pad[2]);
        proof {
            let s1 = msgs@.take(i as int + 1);
            let s0 = msgs@.take(i as int);
            assert forall|q: int| 0 <= q < 8 * s1.len() implies words@[q] == batch_words(s1)[q] by {
                let r = q / 8;
                let k = q % 8;
                assert(q == 8 * r + k && 0 <= k < 8) by (nonlinear_arith)
                    requires
                        r == q / 8,
                        k == q % 8,
                        q >= 0,
                ;
                if r < i {
                    assert(words@[q] == before[q]);
                    lemma_block_index(8, r, k);
                } else {
                    lemma_block_index(8, r, k);
                    assert(r == i);
                }
            }
            assert(words@ =~= batch_words(s1));
        }
    }
    assert(msgs@.take(n as int) =~= msgs@);
    words_to_bytes(&words)
}

/// Iterate the records of a received batch. Trailing partial records (which
/// would indicate a sender bug) are ignored rather than rejected.
pub fn decode_batch(bytes: &[u8]) -> (r: Vec<Msg>)
    ensures
        r@ == spec_decode_batch(bytes@),
        r@.len() == bytes@.len() / 32,
{
    let n = bytes.len() / 32;
    let mut out: Vec<Msg> = Vec::new();
    for i in 0..n
        invariant
            n == bytes@.len() / 32,
            bytes@.len() <= usize::MAX,
            out@ == Seq::new(i as nat, |k: int| msg_at(bytes@, 32 * k)),
    {
        assert(32 * i + 32 <= bytes@.len()) by (nonlinear_arith)
            requires
                i < n,
                n == bytes@.len() / 32,
        ;
        let p = 32 * i;
        let m = Msg {
            tag: read_u32(bytes, p),
            a: read_u32(bytes, p + 4),
            b: read_u32(bytes, p + 8),
            c: read_u32(bytes, p + 12),
            value: read_u32(bytes, p + 16),
            _pad: [read_u32(bytes, p + 20), read_u32(bytes, p + 24), read_u32(bytes, p + 28)],
        };
        out.push(m);
        assert(out@ =~= Seq::new(i as nat + 1, |k: int| msg_at(bytes@, 32 * k)));
    }
    assert(out@ =~= spec_decode_batch(bytes@));
    out
}

/// Decoding an encoded batch gives back exactly the messages that were
/// encoded: the records survive the trip through bytes unchanged.
pub proof fn lemma_batch_roundtrip(s: Seq<Msg>)
    ensures
        spec_decode_batch(spec_encode_batch(s)) == s,
{
    let ws = batch_words(s);
    let b = spec_encode_batch(s);
    assert(b.len() == 32 * s.len());
    assert(b.len() / 32 == s.len()) by (nonlinear_arith)
        requires
            b.len() == 32 * s.len(),
    ;
    assert forall|i: int| 0 <= i < s.len() implies msg_at(b, 32 * i) == s[i] by {
        assert forall|j: int| 0 <= j < 8 implies u32_at(b, 32 * i + 4 * j) == msg_words(s[i])[j] by {
            lemma_block_index(8, i, j);
            assert(8 * i + j < ws.len()) by (nonlinear_arith)
                requires
                    0 <= i < s.len(),
                    0 <= j < 8,
                    ws.len() == 8 * s.len(),
            ;
            lemma_le32_words_read(ws, 8 * i + j);
            assert(4 * (8 * i + j) == 32 * i + 4 * j);
        }
        let m = msg_at(b, 32 * i);
        assert(u32_at(b, 32 * i + 4 * 0) == msg_words(s[i])[0]);
        assert(u32_at(b, 32 * i + 4 * 1) == msg_words(s[i])[1]);
        assert(u32_at(b, 32 * i + 4 * 2) == msg_words(s[i])[2]);
        assert(u32_at(b, 32 * i + 4 * 3) == msg_words(s[i])[3]);
        assert(u32_at(b, 32 * i + 4 * 4) == msg_words(s[i])[4]);
        assert(u32_at(b, 32 * i + 4 * 5) == msg_words(s[i])[5]);
        assert(u32_at(b, 32 * i + 4 * 6) == msg_words(s[i])[6]);
        assert(u32_at(b, 32 * i + 4 * 7) == msg_words(s[i])[7]);
        assert(m._pad =~= s[i]._pad);
    }
    assert(spec_decode_batch(b) =~= s);
}

/// A batch cut short keeps only its whole records: decoding yields the
/// first `len / 32` of the encoded messages.
pub proof fn lemma_truncated_batch(s: Seq<Msg>, len: int)
    requires
        0 <= len <= 32 * s.len(),
    ensures
        spec_decode_batch(spec_encode_batch(s).take(len)) == s.take(len / 32),
{
    let b = spec_encode_batch(s);
    let t = b.take(len);
    lemma_batch_roundtrip(s);
    assert(len / 32 <= s.len()) by (nonlinear_arith)
        requires
            0 <= len <= 32 * s.len(),
    ;
    assert forall|i: int| 0 <= i < len / 32 implies #[trigger] msg_at(t, 32 * i) == msg_at(b, 32 * i) by {
        assert(32 * i + 32 <= len) by (nonlinear_arith)
            requires
                0 <= i < len / 32,
                len >= 0,
        ;
    }
    assert forall|i: int| 0 <= i < len / 32 implies #[trigger] spec_decode_batch(b)[i] == msg_at(b, 32 * i) by {
        assert(len / 32 <= b.len() / 32);
    }
    assert(spec_decode_batch(t) =~= s.take(len / 32));
}

} // verus!

//! Worklet-facing decisions of the engine: splitting a render quantum into
//! sub-blocks, telling a plan blob from a batch of control records and
//! turning records into commands, which modules hear note events, the boot
//! patch, and the scope-tap ring cursor.

use vstd::prelude::*;
use crate::caps::BLOCK;
use crate::messages::{
    batch_words, decode_batch, note_off_msg, note_on_msg, spec_decode_batch, spec_encode_batch, tag_code,
    zero_msg, Msg, MsgTag,
};
use crate::meters::SCOPE_LEN;
use crate::modules::{kind_id, ModuleKindId};
use crate::plan::{
    encode_plan, is_plan_blob, lemma_plan_roundtrip, plan_header, spec_decode_plan,
    spec_encode_plan, ModuleInit, PlanStep, SpecPlan, NO_BUFFER, N_RESERVED_BUFFERS, PLAN_TAG,
};
use crate::wire::{lemma_le32_words_read, read_u32, u32_at};

verus! {

// ---------------------------------------------------------------------------
// Sub-blocks
// ---------------------------------------------------------------------------

/// Frames in the sub-block starting at `offset` of a quantum of `frames`.
pub open spec fn sub_block_len(frames: int, offset: int) -> int {
    if frames - offset < BLOCK {
        frames - offset
    } else {
        BLOCK as int
    }
}

/// The sub-blocks `(offset, length)` a quantum of `frames` frames is
/// rendered in: consecutive, each at most [`BLOCK`] frames, covering the
/// quantum exactly.
pub fn sub_blocks(frames: usize) -> (r: Vec<(usize, usize)>)
    ensures
        r@.len() == (frames + BLOCK - 1) / BLOCK as int,
        forall|k: int|
            0 <= k < r@.len() ==> #[trigger] r@[k] == (
                (BLOCK * k) as usize,
                sub_block_len(frames as int, BLOCK * k) as usize,
            ),
        forall|k: int| 0 <= k < r@.len() ==> 1 <= (#[trigger] r@[k]).1 <= BLOCK,
        r@.len() > 0 ==> r@.last().0 + r@.last().1 == frames,
{
    let mut r: Vec<(usize, usize)> = Vec::new();
    let mut offset: usize = 0;
    while offset < frames
        invariant
            offset <= frames,
            offset < frames ==> offset == BLOCK * r@.len(),
            r@.len() == 0 ==> offset == 0,
            r@.len() > 0 ==> offset == BLOCK * (r@.len() - 1) + r@.last().1,
            offset < frames ==> r@.len() < (frames + BLOCK - 1) / BLOCK as int,
            offset >= frames ==> r@.len() == (frames + BLOCK - 1) / BLOCK as int,
            forall|k: int|
                0 <= k < r@.len() ==> #[trigger] r@[k] == (
                    (BLOCK * k) as usize,
                    sub_block_len(frames as int, BLOCK * k) as usize,
                ),
            r@.len() > 0 ==> r@.last().0 + r@.last().1 == offset,
        decreases frames - offset,
    {
        let n = if frames - offset < BLOCK {
            frames - offset
        } else {
            BLOCK
        };
        r.push((offset, n));
        offset = offset + n;
        proof {
            let l = r@.len() as int;
            assert(r@.last().1 == n && r@.last().0 == offset - n);
            if offset < frames {
                assert(n == BLOCK);
                assert(l < (frames + BLOCK - 1) / BLOCK as int) by (nonlinear_arith)
                    requires
                        offset == 32 * l,
                        offset < frames,
                ;
            } else {
                assert(l == (frames + BLOCK - 1) / BLOCK as int) by (nonlinear_arith)
                    requires
                        offset - n == 32 * (l - 1),
                        offset == frames,
                        1 <= n <= 32,
                        l >= 1,
                ;
            }
        }
    }
    assert(frames == 0 ==> r@.len() == 0);
    r
}

// ---------------------------------------------------------------------------
// Incoming messages
// ---------------------------------------------------------------------------

/// Leading little-endian u32 of a message payload; 0 for payloads shorter
/// than four bytes.
pub open spec fn spec_leading_tag(b: Seq<u8>) -> u32 {
    if b.len() < 4 {
        0
    } else {
        u32_at(b, 0)
    }
}

/// The tag that tells a plan blob from a batch of control records.
pub fn leading_tag(bytes: &[u8]) -> (r: u32)
    ensures
        r == spec_leading_tag(bytes@),
{
    if bytes.len() < 4 {
        0
    } else {
        read_u32(bytes, 0)
    }
}

/// A batch of control records never reads as a plan: its leading word is
/// the first record's tag, and every message tag lies below the plan tag
/// (an empty batch leads with 0).
pub proof fn lemma_batch_is_not_a_plan(s: Seq<Msg>)
    requires
        forall|i: int| 0 <= i < s.len() ==> exists|t: MsgTag| tag_code(t) == #[trigger] s[i].tag,
    ensures
        s.len() > 0 ==> spec_leading_tag(spec_encode_batch(s)) == s[0].tag,
        spec_leading_tag(spec_encode_batch(s)) != PLAN_TAG,
{
    if s.len() > 0 {
        let ws = batch_words(s);
        lemma_le32_words_read(ws, 0);
        assert(ws[0] == s[0].tag);
        let t = choose|t: MsgTag| tag_code(t) == s[0].tag;
        assert(tag_code(t) < PLAN_TAG);
    }
}

/// An engine command carried by one control record.
#[derive(Clone, Copy, Debug, PartialEq, Eq, Structural)]
pub enum Command {
    /// Set `param` of the module in `slot`; `value` is the float's bits.
    SetParam { slot: u32, param: u32, value: u32 },
    NoteOn { note: u8, velocity: u8 },
    NoteOff { note: u8 },
    AllNotesOff,
}

/// The command a record carries; records with unknown tags carry none.
/// Note numbers and velocities are the low bytes of their fields.
pub open spec fn command_of(m: Msg) -> Option<Command> {
    if m.tag == 1 {
        Some(Command::SetParam { slot: m.a, param: m.b, value: m.value })
    } else if m.tag == 2 {
        Some(Command::NoteOn { note: m.a as u8, velocity: m.b as u8 })
    } else if m.tag == 3 {
        Some(Command::NoteOff { note: m.a as u8 })
    } else if m.tag == 4 {
        Some(Command::AllNotesOff)
    } else {
        None
    }
}

/// Every record built by the message constructors carries back the command
/// it was built for: a parameter change goes to the slot and parameter it
/// names with its value, a note on to its note and velocity, a note off to
/// its note, and the all-notes-off record stops all notes.
pub proof fn lemma_constructed_records_command(
    slot: u32,
    param: u32,
    value: u32,
    note: u8,
    velocity: u8,
    frame_offset: u8,
)
    ensures
        command_of(Msg { tag: 1, a: slot, b: param, value, ..zero_msg() }) == Some(
            Command::SetParam { slot, param, value },
        ),
        command_of(note_on_msg(note, velocity, frame_offset)) == Some(Command::NoteOn { note, velocity }),
        command_of(note_off_msg(note, frame_offset)) == Some(Command::NoteOff { note }),
        command_of(Msg { tag: 4, ..zero_msg() }) == Some(Command::AllNotesOff),
{
}

/// Commands of a run of records, in record order, skipping unknown tags.
pub open spec fn commands_of(s: Seq<Msg>) -> Seq<Command>
    decreases s.len(),
{
    if s.len() == 0 {
        Seq::empty()
    } else {
        match command_of(s.last()) {
            Some(c) => commands_of(s.drop_last()).push(c),
            None => commands_of(s.drop_last()),
        }
    }
}

/// The command of one record.
pub fn command(m: &Msg) -> (r: Option<Command>)
    ensures
        r == command_of(*m),
{
    if m.tag == 1 {
        Some(Command::SetParam { slot: m.a, param: m.b, value: m.value })
    } else if m.tag == 2 {
        Some(Command::NoteOn { note: m.a as u8, velocity: m.b as u8 })
    } else if m.tag == 3 {
        Some(Command::NoteOff { note: m.a as u8 })
    } else if m.tag == 4 {
        Some(Command::AllNotesOff)
    } else {
        None
    }
}

/// Commands of a control batch: one per whole record of a known tag, in
/// order; trailing partial records and unknown tags are ignored.
pub fn commands(bytes: &[u8]) -> (r: Vec<Command>)
    ensures
        r@ == commands_of(spec_decode_batch(bytes@)),
{
    let msgs = decode_batch(bytes);
    let mut r: Vec<Command> = Vec::new();
    for i in 0..msgs.len()
        invariant
            msgs@ == spec_decode_batch(bytes@),
            r@ == commands_of(msgs@.take(i as int)),
    {
        assert(msgs@.take(i as int + 1).drop_last() =~= msgs@.take(i as int));
        assert(msgs@.take(i as int + 1).last() == msgs@[i as int]);
        match command(&msgs[i]) {
            Some(c) => r.push(c),
            None => {},
        }
    }
    assert(msgs@.take(msgs@.len() as int) =~= msgs@);
    r
}

/// Modules that hear note events: the note input and the arpeggiator.
pub open spec fn spec_consumes_notes(k: ModuleKindId) -> bool {
    k == ModuleKindId::NoteIn || k == ModuleKindId::Arp
}

/// Whether note events are delivered to modules of kind `k`.
pub fn consumes_notes(k: ModuleKindId) -> (r: bool)
    ensures
        r == spec_consumes_notes(k),
{
    match k {
        ModuleKindId::NoteIn => true,
        ModuleKindId::Arp => true,
        _ => false,
    }
}

// ---------------------------------------------------------------------------
// Boot patch
// ---------------------------------------------------------------------------

/// Module records of the boot patch: a VCO in slot 0 and the output in slot 1.
pub open spec fn boot_modules() -> Seq<ModuleInit> {
    seq![
        ModuleInit { slot: 0, kind: kind_id(ModuleKindId::Vco) },
        ModuleInit { slot: 1, kind: kind_id(ModuleKindId::Output) },
    ]
}

/// Steps of the boot patch: the VCO writes the first free buffer, which the
/// output reads on its left input.
pub open spec fn boot_steps() -> Seq<PlanStep> {
    seq![
        PlanStep {
            slot: 0,
            kind: kind_id(ModuleKindId::Vco),
            inputs: [NO_BUFFER, NO_BUFFER, NO_BUFFER, NO_BUFFER, NO_BUFFER, NO_BUFFER, NO_BUFFER, NO_BUFFER],
            outputs: [N_RESERVED_BUFFERS, 1, 2, 3, 4, 5, 6, 7],
        },
        PlanStep {
            slot: 1,
            kind: kind_id(ModuleKindId::Output),
            inputs: [N_RESERVED_BUFFERS, NO_BUFFER, NO_BUFFER, NO_BUFFER, NO_BUFFER, NO_BUFFER, NO_BUFFER, NO_BUFFER],
            outputs: [0, 1, 2, 3, 4, 5, 6, 7],
        },
    ]
}

/// The boot patch (VCO -> Output) the engine runs until the UI sends a
/// plan, as a plan blob of epoch 0.
pub fn default_plan() -> (r: Vec<u8>)
    ensures
        r@ == spec_encode_plan(0, boot_modules(), boot_steps()),
        is_plan_blob(r@),
        spec_decode_plan(r@) == (SpecPlan {
            header: plan_header(0, 2, 2),
            modules: boot_modules(),
            steps: boot_steps(),
        }),
{
    let vco = ModuleKindId::Vco.id();
    let out = ModuleKindId::Output.id();
    let modules = [ModuleInit { slot: 0, kind: vco }, ModuleInit { slot: 1, kind: out }];
    let steps = [
        PlanStep {
            slot: 0,
            kind: vco,
            inputs: [NO_BUFFER; 8],
            outputs: [N_RESERVED_BUFFERS, 1, 2, 3, 4, 5, 6, 7],
        },
        PlanStep {
            slot: 1,
            kind: out,
            inputs: [N_RESERVED_BUFFERS, NO_BUFFER, NO_BUFFER, NO_BUFFER, NO_BUFFER, NO_BUFFER, NO_BUFFER, NO_BUFFER],
            outputs: [0, 1, 2, 3, 4, 5, 6, 7],
        },
    ];
    proof {
        assert(modules@ =~= boot_modules());
        assert(steps@[0].inputs =~= boot_steps()[0].inputs);
        assert(steps@[0].outputs =~= boot_steps()[0].outputs);
        assert(steps@[1].inputs =~= boot_steps()[1].inputs);
        assert(steps@[1].outputs =~= boot_steps()[1].outputs);
        assert(steps@ =~= boot_steps());
        lemma_plan_roundtrip(0, boot_modules(), boot_steps());
    }
    encode_plan(0, &modules, &steps)
}

// ---------------------------------------------------------------------------
// Scope-tap cursor
// ---------------------------------------------------------------------------

/// Write position and decimation phase of a scope tap's ring.
pub struct ScopeCursor {
    /// Next ring slot to write.
    pub pos: u16,
    /// Index in the next block of the first sample to keep.
    pub phase: u8,
}

/// Samples of a block of `len` kept by a cursor at decimation phase `phase`.
pub open spec fn kept_count(phase: int, len: int) -> int {
    if phase < len {
        (len - phase + 3) / 4
    } else {
        0
    }
}

impl ScopeCursor {
    /// Cursor of a fresh tap.
    pub fn new() -> (r: ScopeCursor)
        ensures
            r.pos == 0,
            r.phase == 0,
    {
        ScopeCursor { pos: 0, phase: 0 }
    }

    /// Keep every fourth sample of a block of `len` samples, continuing the
    /// decimation across blocks. Returns `(sample index, ring slot)` for each
    /// kept sample in order: samples `phase, phase + 4, ...` go to
    /// consecutive ring slots from `pos`, wrapping at the ring length.
    pub fn feed(&mut self, len: usize) -> (r: Vec<(usize, usize)>)
        requires
            old(self).pos < SCOPE_LEN,
            old(self).phase < 4,
            len <= BLOCK,
        ensures
            r@.len() == kept_count(old(self).phase as int, len as int),
            forall|k: int|
                0 <= k < r@.len() ==> #[trigger] r@[k] == (
                    (old(self).phase + 4 * k) as usize,
                    ((old(self).pos + k) % 128) as usize,
                ),
            final(self).pos == (old(self).pos + r@.len()) % 128,
            final(self).phase == old(self).phase + 4 * r@.len() - len,
            final(self).pos < SCOPE_LEN,
            final(self).phase < 4,
    {
        let ghost p0 = self.phase;
        let ghost q0 = self.pos;
        let mut r: Vec<(usize, usize)> = Vec::new();
        let mut i = self.phase as usize;
        while i < len
            invariant
                i == p0 + 4 * r@.len(),
                i < len + 4,
                len <= BLOCK,
                p0 < 4,
                q0 < 128,
                self.pos == (q0 + r@.len()) % 128,
                self.pos < 128,
                i < len ==> r@.len() < kept_count(p0 as int, len as int),
                i >= len ==> r@.len() == kept_count(p0 as int, len as int),
                forall|k: int|
                    0 <= k < r@.len() ==> #[trigger] r@[k] == (
                        (p0 + 4 * k) as usize,
                        ((q0 + k) % 128) as usize,
                    ),
            decreases len + 4 - i,
        {
            r.push((i, self.pos as usize));
            self.pos = (self.pos + 1) % 128;
            i = i + 4;
            proof {
                let l = r@.len() as int;
                assert(self.pos == (q0 + l) % 128) by (nonlinear_arith)
                    requires
                        self.pos == ((q0 + (l - 1)) % 128 + 1) % 128,
                ;
                if i < len {
                    assert(l < kept_count(p0 as int, len as int)) by (nonlinear_arith)
                        requires
                            i == p0 + 4 * l,
                            i < len,
                    ;
                } else {
                    assert(l == kept_count(p0 as int, len as int)) by (nonlinear_arith)
                        requires
                            i == p0 + 4 * l,
                            i >= len,
                            i - 4 < len,
                            p0 < 4,
                            l >= 1,
                    ;
                }
            }
        }
        assert(p0 >= len ==> r@.len() == 0);
        self.phase = (i - len) as u8;
        r
    }

    /// Ring slot of the `i`-th oldest sample of a snapshot.
    pub fn snapshot_slot(&self, i: usize) -> (r: usize)
        requires
            self.pos < SCOPE_LEN,
            i < SCOPE_LEN,
        ensures
            r == (self.pos + i) % 128,
            r < SCOPE_LEN,
    {
        (self.pos as usize + i) % SCOPE_LEN
    }
}

} // verus!

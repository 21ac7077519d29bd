//! Hardware MIDI input: raw three-byte channel messages become note records
//! for the engine's queue, and Control Change values are remembered per
//! controller number.

use vstd::prelude::*;
use crate::messages::{note_off_msg, note_on_msg, Msg};

verus! {

/// What one raw MIDI message does.
#[derive(Clone, Copy, Debug)]
pub enum MidiEvent {
    /// A note record to forward to the engine.
    Note(Msg),
    /// Control Change: controller number (0..127) takes a value.
    Control(u8, u8),
    /// Short message, or a status this input does not handle.
    Ignored,
}

/// The meaning of a raw MIDI message, by its status nibble: Note On with a
/// non-zero velocity starts a note, Note On with velocity 0 or Note Off ends
/// it, Control Change stores a controller value (the controller number
/// masked to seven bits). Messages under three bytes are ignored.
pub open spec fn spec_midi_event(data: Seq<u8>) -> MidiEvent {
    if data.len() < 3 {
        MidiEvent::Ignored
    } else {
        let status = data[0] & 0xF0u8;
        let (a, b) = (data[1], data[2]);
        if status == 0x90 && b > 0 {
            MidiEvent::Note(note_on_msg(a, b, 0))
        } else if status == 0x90 || status == 0x80 {
            MidiEvent::Note(note_off_msg(a, 0))
        } else if status == 0xB0 {
            MidiEvent::Control(a & 0x7Fu8, b)
        } else {
            MidiEvent::Ignored
        }
    }
}

/// Decode one raw MIDI message.
pub fn midi_event(data: &[u8]) -> (r: MidiEvent)
    ensures
        r == spec_midi_event(data@),
{
    if data.len() < 3 {
        return MidiEvent::Ignored;
    }
    let status = data[0] & 0xF0u8;
    let a = data[1];
    let b = data[2];
    if status == 0x90 && b > 0 {
        MidiEvent::Note(Msg::note_on(a, b, 0))
    } else if status == 0x90 || status == 0x80 {
        MidiEvent::Note(Msg::note_off(a, 0))
    } else if status == 0xB0 {
        MidiEvent::Control(a & 0x7Fu8, b)
    } else {
        MidiEvent::Ignored
    }
}

/// Input state shared between the MIDI callbacks and the UI frame.
pub struct MidiState {
    /// Note records parsed since the last drain.
    pending: Vec<Msg>,
    /// Latest value (0..127) received for each Control Change number.
    pub cc: [u8; 128],
    pub device_count: usize,
    /// Why MIDI could not be started, if it could not.
    pub error: Option<String>,
}

impl Default for MidiState {
    fn default() -> (r: MidiState)
        ensures
            r.pending() == Seq::<Msg>::empty(),
            forall|i: int| 0 <= i < 128 ==> r.controls()[i] == 0,
            r.devices() == 0,
            r.failure() is None,
    {
        MidiState { pending: Vec::new(), cc: [0u8; 128], device_count: 0, error: None }
    }
}

impl MidiState {
    /// Note records waiting for the next drain, oldest first.
    pub closed spec fn pending(&self) -> Seq<Msg> {
        self.pending@
    }

    /// Latest value of each controller, indexed by controller number.
    pub closed spec fn controls(&self) -> Seq<u8> {
        self.cc@
    }

    /// Number of MIDI inputs found.
    pub closed spec fn devices(&self) -> usize {
        self.device_count
    }

    /// Why MIDI could not be started, if it could not.
    pub closed spec fn failure(&self) -> Option<String> {
        self.error
    }

    /// Apply one raw MIDI message: queue its note record or store its
    /// controller value; anything else leaves the state as it was.
    pub fn on_midi(&mut self, data: &[u8])
        ensures
            final(self).devices() == old(self).devices(),
            final(self).failure() == old(self).failure(),
            match spec_midi_event(data@) {
                MidiEvent::Note(m) => final(self).pending() == old(self).pending().push(m)
                    && final(self).controls() == old(self).controls(),
                MidiEvent::Control(n, v) => final(self).pending() == old(self).pending()
                    && final(self).controls() == old(self).controls().update(n as int, v),
                MidiEvent::Ignored => final(self).pending() == old(self).pending()
                    && final(self).controls() == old(self).controls(),
            },
    {
        match midi_event(data) {
            MidiEvent::Note(m) => self.pending.push(m),
            MidiEvent::Control(n, v) => {
                assert(forall|x: u8| #[trigger] (x & 0x7Fu8) < 128) by (bit_vector);
                self.cc[n as usize] = v;
            },
            MidiEvent::Ignored => {},
        }
    }

    /// Hand over the queued note records, leaving the queue empty.
    pub fn drain(&mut self) -> (r: Vec<Msg>)
        ensures
            r@ == old(self).pending(),
            final(self).pending() == Seq::<Msg>::empty(),
            final(self).controls() == old(self).controls(),
            final(self).devices() == old(self).devices(),
            final(self).failure() == old(self).failure(),
    {
        let mut out: Vec<Msg> = Vec::new();
        std::mem::swap(&mut out, &mut self.pending);
        out
    }
}

} // verus!

use lib::engine::{command, commands, consumes_notes, default_plan, leading_tag, sub_blocks, Command, ScopeCursor};
use lib::plan::PLAN_TAG;
use lib::executor::Executor;
use lib::history::{History, HISTORY_CAP};
use lib::keyboard::KeyboardPiano;
use lib::link::{link_state, LinkState, MsgQueue};
use lib::messages::{decode_batch, encode_batch, Msg, MsgTag};
use lib::meters::{encode_meters, store_meters, MeterEntry};
use lib::midi::{midi_event, MidiEvent, MidiState};
use lib::modules::ModuleKindId;
use lib::readout::{cable_color_index, note_name};
use lib::plan::{decode_plan, encode_plan, ModuleInit, PlanStep};
use lib::selection::Selection;
use std::collections::HashMap;
use lib::theme::Theme;
use lib::units::util2::{Burst, MidiCc, BURST_COUNT};

#[test]
fn burst_emits_count_pulses() {
    let mut burst = Burst::new();
    burst.set_param(BURST_COUNT, 4); // count = 5
    assert!(burst.trigger(Some(true)));
    let mut rises = 0u32;
    for _ in 0..200 {
        if burst.remaining() > 0 {
            rises += 1;
            burst.finish_interval();
        }
        burst.trigger(Some(false));
    }
    assert_eq!(rises, 5, "expected 5 burst pulses, got {rises}");
}

#[test]
fn burst_rearms_only_on_a_new_edge() {
    let mut burst = Burst::new();
    assert!(burst.trigger(Some(true)));
    assert_eq!(burst.remaining(), 4);
    burst.finish_interval();
    assert!(!burst.trigger(Some(true)), "a held trigger is no new edge");
    assert_eq!(burst.remaining(), 3);
    assert!(!burst.trigger(None), "an unconnected input keeps the level");
    assert!(!burst.trigger(Some(false)));
    assert!(burst.trigger(Some(true)));
    assert_eq!(burst.remaining(), 4, "a new edge restarts the burst");
}

#[test]
fn midi_cc_listens_to_set_controller() {
    let mut cc = MidiCc::new();
    assert_eq!(cc.cc(), 1);
    cc.set_cc(74);
    assert_eq!(cc.cc(), 74);
    cc.set_cc(200);
    assert_eq!(cc.cc(), 127);
}

#[test]
fn batch_roundtrip_keeps_every_field() {
    let msgs = vec![Msg::note_on(61, 90, 3), Msg::set_param(7, 2, 0xDEADBEEF)];
    let back = decode_batch(&encode_batch(&msgs));
    assert_eq!(back.len(), 2);
    assert_eq!((back[0].tag, back[0].a, back[0].b, back[0].c), (2, 61, 90, 3));
    assert_eq!((back[1].tag, back[1].a, back[1].b, back[1].value), (1, 7, 2, 0xDEADBEEF));
}

#[test]
fn unknown_tags_decode_to_no_command() {
    let mut m = Msg::all_notes_off();
    assert_eq!(command(&m), Some(Command::AllNotesOff));
    m.tag = 77;
    assert_eq!(command(&m), None);
    assert_eq!(MsgTag::from_u32(0), None);
    assert_eq!(MsgTag::from_u32(3), Some(MsgTag::NoteOff));
}

#[test]
fn commands_skip_unknown_and_partial_records() {
    let mut odd = Msg::note_off(5, 0);
    odd.tag = 9;
    let bytes = encode_batch(&[Msg::note_on(60, 100, 0), odd, Msg::note_off(60, 0)]);
    let cmds = commands(&bytes[..bytes.len() - 1]);
    assert_eq!(cmds, vec![Command::NoteOn { note: 60, velocity: 100 }]);
    let cmds = commands(&bytes);
    assert_eq!(
        cmds,
        vec![Command::NoteOn { note: 60, velocity: 100 }, Command::NoteOff { note: 60 }]
    );
}

#[test]
fn quanta_split_into_blocks() {
    assert_eq!(sub_blocks(128), vec![(0, 32), (32, 32), (64, 32), (96, 32)]);
    assert_eq!(sub_blocks(40), vec![(0, 32), (32, 8)]);
    assert!(sub_blocks(0).is_empty());
}

#[test]
fn scope_keeps_every_fourth_sample_across_blocks() {
    let mut c = ScopeCursor::new();
    assert_eq!(c.feed(6), vec![(0, 0), (4, 1)]);
    // Samples 6, 7 of the first block were skipped: the next keeps index 2.
    assert_eq!(c.feed(4), vec![(2, 2)]);
}

#[test]
fn only_note_modules_hear_notes() {
    assert!(consumes_notes(ModuleKindId::NoteIn));
    assert!(consumes_notes(ModuleKindId::Arp));
    assert!(!consumes_notes(ModuleKindId::Vco));
}

#[test]
fn default_plan_decodes_and_applies() {
    let blob = default_plan();
    let view = decode_plan(&blob).expect("decodes");
    assert!(view.steps.len() > 0);
    let mut ex = Executor::new();
    assert!(ex.apply_plan(&blob));
}

#[test]
fn live_plan_swap_keeps_unchanged_modules() {
    let mut ex = Executor::new();
    let vco = ModuleKindId::Vco.id();
    let vcf = ModuleKindId::Vcf.id();
    let step = |slot: u16, kind: u16| PlanStep { slot, kind, ..PlanStep::default() };
    let a = encode_plan(1, &[ModuleInit { slot: 0, kind: vco }], &[step(0, vco)]);
    assert!(ex.apply_plan(&a));
    assert_eq!(ex.epoch(), 1);
    assert!(ex.is_fresh(0), "a new module starts fresh");
    let b = encode_plan(
        2,
        &[ModuleInit { slot: 0, kind: vco }, ModuleInit { slot: 1, kind: vcf }],
        &[step(0, vco), step(1, vcf)],
    );
    assert!(ex.apply_plan(&b));
    assert!(!ex.is_fresh(0), "same kind in the same slot keeps its module");
    assert!(ex.is_fresh(1));
    assert_eq!(ex.module_at(1), Some(ModuleKindId::Vcf));
    assert_eq!(ex.metered_slots(), vec![0, 1]);
    // Dropping slot 0 from the records frees it.
    let c = encode_plan(3, &[ModuleInit { slot: 1, kind: vcf }], &[step(1, vcf)]);
    assert!(ex.apply_plan(&c));
    assert_eq!(ex.module_at(0), None);
    // A rejected plan changes nothing.
    assert!(!ex.apply_plan(&c[..c.len() - 1]));
    assert_eq!(ex.epoch(), 3);
    assert_eq!(ex.module_at(1), Some(ModuleKindId::Vcf));
}

#[test]
fn queue_flushes_once_running() {
    let mut q = MsgQueue::new();
    q.send(false, Msg::all_notes_off());
    assert_eq!(q.len(), 0, "records sent with no engine are dropped");
    q.send(true, Msg::note_on(60, 100, 0));
    assert!(q.flush(true, false).is_none(), "not ready yet");
    assert_eq!(q.len(), 1);
    let bytes = q.flush(true, true).expect("a batch");
    assert_eq!(bytes.len(), 32);
    assert_eq!(q.len(), 0);
    assert!(q.flush(true, true).is_none(), "nothing queued");
    assert_eq!(link_state(false, true), LinkState::Off);
    assert_eq!(link_state(true, false), LinkState::Starting);
    assert_eq!(link_state(true, true), LinkState::Running);
}

#[test]
fn keyboard_plays_and_releases_notes() {
    let mut kb = KeyboardPiano::new();
    let on = kb.key_event('E', true, false, false).expect("note on");
    assert_eq!((on.tag, on.a, on.b), (2, 63, 100));
    assert!(kb.key_event('E', true, true, false).is_none(), "repeats are ignored");
    assert!(kb.key_event('E', true, false, false).is_none(), "already held");
    assert!(kb.key_event('X', true, false, false).is_none());
    assert_eq!(kb.octave(), 1);
    // Release ends the note it started, whatever the octave now.
    let off = kb.key_event('E', false, false, false).expect("note off");
    assert_eq!((off.tag, off.a), (3, 63));
    assert!(kb.key_event('Q', true, false, false).is_none(), "unmapped key");
    assert!(kb.key_event('K', true, false, true).is_none(), "shortcuts are ignored");
}

#[test]
fn keyboard_octave_stays_in_range_and_notes_clamp() {
    let mut kb = KeyboardPiano::new();
    for _ in 0..10 {
        kb.key_event('X', true, false, false);
    }
    assert_eq!(kb.octave(), 3);
    let on = kb.key_event('K', true, false, false).expect("note on");
    assert_eq!(on.a, 108);
    for _ in 0..10 {
        kb.key_event('Z', true, false, false);
    }
    assert_eq!(kb.octave(), -3);
    assert_eq!(kb.held_count(), 1);
    let all = kb.release_all().expect("all notes off");
    assert_eq!(all.tag, 4);
    assert_eq!(kb.held_count(), 0);
    assert!(kb.release_all().is_none(), "released once");
}

#[test]
fn midi_messages_map_to_notes_and_controls() {
    assert!(matches!(midi_event(&[0x91, 60, 100]), MidiEvent::Note(m) if m.tag == 2 && m.a == 60 && m.b == 100));
    assert!(matches!(midi_event(&[0x90, 60, 0]), MidiEvent::Note(m) if m.tag == 3 && m.a == 60));
    assert!(matches!(midi_event(&[0x85, 61, 64]), MidiEvent::Note(m) if m.tag == 3 && m.a == 61));
    assert!(matches!(midi_event(&[0xB0, 0x81, 7]), MidiEvent::Control(1, 7)));
    assert!(matches!(midi_event(&[0xE0, 1, 2]), MidiEvent::Ignored));
    assert!(matches!(midi_event(&[0x90, 60]), MidiEvent::Ignored));
    let mut st = MidiState::default();
    st.on_midi(&[0x90, 60, 100]);
    st.on_midi(&[0xB0, 74, 99]);
    st.on_midi(&[0x80, 60, 0]);
    assert_eq!(st.cc[74], 99);
    let notes = st.drain();
    assert_eq!(notes.len(), 2);
    assert_eq!((notes[0].tag, notes[1].tag), (2, 3));
    assert!(st.drain().is_empty());
}

#[test]
fn undo_and_redo_trade_snapshots() {
    let mut h: History<u32> = History::new();
    let mut patch = 1u32;
    assert!(!h.undo(&mut patch), "nothing to undo");
    h.record(patch);
    patch = 2;
    h.record(patch);
    patch = 3;
    assert!(h.undo(&mut patch));
    assert_eq!(patch, 2);
    assert!(h.undo(&mut patch));
    assert_eq!(patch, 1);
    assert!(!h.can_undo());
    assert!(h.redo(&mut patch));
    assert_eq!(patch, 2);
    // A new edit forks the history.
    h.record(patch);
    assert!(!h.can_redo());
}

#[test]
fn history_keeps_at_most_the_cap() {
    let mut h: History<usize> = History::new();
    for i in 0..HISTORY_CAP + 5 {
        h.record(i);
    }
    let mut cur = 1000;
    let mut undone = 0;
    while h.undo(&mut cur) {
        undone += 1;
    }
    assert_eq!(undone, HISTORY_CAP);
    assert_eq!(cur, 5, "the oldest snapshots were dropped");
}

#[test]
fn clicks_select_and_toggle() {
    let mut s = Selection::new();
    s.select(3, false);
    s.select(5, true);
    assert_eq!(s.count(), 2);
    s.select(3, false);
    assert_eq!(s.count(), 2, "a plain click on a selected module keeps the group");
    s.select(3, true);
    assert!(!s.contains(3));
    s.select(7, false);
    assert_eq!(s.ids(), vec![7]);
    s.replace(&[1, 2, 2]);
    assert_eq!(s.count(), 2);
    assert!(s.is_exactly(&[2, 1]));
    assert!(!s.is_exactly(&[2, 3]));
    let mut ids = s.ids();
    ids.sort();
    assert_eq!(ids, vec![1, 2]);
}

#[test]
fn theme_keys_roundtrip() {
    for t in Theme::all() {
        assert_eq!(Theme::from_key(t.key()), t);
    }
    assert_eq!(Theme::from_key("nonsense"), Theme::Dark);
    assert!(Theme::DarkContrast.is_dark());
    assert!(!Theme::Light.is_dark());
    assert_eq!(Theme::LightContrast.label(), "Light (high contrast)");
}

#[test]
fn meter_store_takes_the_latest_snapshot() {
    let mut store: HashMap<u16, MeterEntry> = HashMap::new();
    let a = MeterEntry { slot: 2, peak: 1, ..MeterEntry::default() };
    let b = MeterEntry { slot: 5, peak: 2, ..MeterEntry::default() };
    let b2 = MeterEntry { slot: 5, peak: 3, ..MeterEntry::default() };
    assert!(store_meters(&mut store, &encode_meters(&[a, b, b2])));
    assert_eq!(store.len(), 2);
    assert_eq!(store[&5].peak, 3, "a later entry for a slot wins");
    assert!(!store_meters(&mut store, &[1, 2, 3]), "garbage keeps the store");
    assert_eq!(store.len(), 2);
    assert!(store_meters(&mut store, &encode_meters(&[b])));
    assert_eq!(store.len(), 1, "slots absent from a snapshot disappear");
    assert_eq!(store[&5].peak, 2);
}

#[test]
fn note_names_follow_scientific_pitch() {
    assert_eq!(note_name(60), ("C", 4));
    assert_eq!(note_name(69), ("A", 4));
    assert_eq!(note_name(61), ("C#", 4));
    assert_eq!(note_name(0), ("C", -1));
    assert_eq!(note_name(-1), ("B", -2));
    assert_eq!(note_name(127), ("G", 9));
}

#[test]
fn cable_colors_cycle() {
    assert_eq!(cable_color_index(0), 0);
    assert_eq!(cable_color_index(7), 2);
    assert_eq!(cable_color_index(u64::MAX), (u64::MAX % 5) as usize);
}

#[test]
fn batches_never_read_as_plans() {
    let batch = encode_batch(&[Msg::note_on(60, 100, 0), Msg::all_notes_off()]);
    assert_eq!(leading_tag(&batch), 2);
    assert_ne!(leading_tag(&batch), PLAN_TAG);
    assert_eq!(leading_tag(&encode_batch(&[])), 0);
    assert_eq!(leading_tag(&default_plan()), PLAN_TAG);
    assert_eq!(leading_tag(&[7, 0]), 0, "short payloads lead with 0");
}

#[test]
fn release_ends_the_pressed_note_after_other_keys() {
    let mut kb = KeyboardPiano::new();
    let on = kb.key_event('A', true, false, false).expect("note on");
    assert_eq!(on.a, 60);
    kb.key_event('S', true, false, false).expect("second note");
    kb.key_event('Z', true, false, false);
    kb.key_event('S', false, false, false).expect("second note off");
    let off = kb.key_event('A', false, false, false).expect("note off");
    assert_eq!((off.tag, off.a), (3, 60));
    assert_eq!(kb.held_count(), 0);
    assert!(kb.key_event('A', false, false, false).is_none(), "nothing left to release");
}

#[test]
fn shift_click_twice_restores_the_selection() {
    let mut s = Selection::new();
    s.replace(&[4, 9]);
    s.select(7, true);
    s.select(7, true);
    let mut ids = s.ids();
    ids.sort();
    assert_eq!(ids, vec![4, 9]);
    s.select(4, true);
    s.select(4, true);
    assert_eq!(s.count(), 2);
}

use lib::units::arp::{Arp, ARP_MODE, ARP_OCTAVES};
use lib::units::clockdiv::ClockDiv;
use lib::units::note_in::{NoteIn, NOTE_IN_POLYPHONY};
use lib::units::quantizer::{Quantizer, Side};
use lib::units::route::{Octave, SeqSwitch, OCTAVE_OCTAVES, OCTAVE_SEMIS, SEQSWITCH_STEPS};
use lib::units::seq2::{turing_shift, xorshift32, Euclid, EUCLID_FILL, EUCLID_LENGTH, EUCLID_ROTATE};
use lib::units::seq3::Beats;
use lib::units::seq8::Seq8;
use lib::units::util::Logic;

/// Frames per rendered block.
const BLOCK: u32 = 32;

#[test]
fn divides_clock_edges() {
    let mut div = ClockDiv::new();
    // Count rising edges on each output over many input pulses.
    let mut rises = [0u32; 4];
    let mut last = [false; 4];
    let pulses = 64;
    for _ in 0..pulses {
        for level in [true, false] {
            let outs = div.tick(Some(level), None);
            for j in 0..4 {
                if !last[j] && outs[j] {
                    rises[j] += 1;
                }
                last[j] = outs[j];
            }
        }
    }
    // 64 input pulses → ÷2 fires 32, ÷4 → 16, ÷8 → 8, ÷16 → 4 (±1).
    assert!((rises[0] as i32 - 32).abs() <= 1, "÷2 {rises:?}");
    assert!((rises[1] as i32 - 16).abs() <= 1, "÷4 {rises:?}");
    assert!((rises[2] as i32 - 8).abs() <= 1, "÷8 {rises:?}");
    assert!((rises[3] as i32 - 4).abs() <= 1, "÷16 {rises:?}");
}

/// One clock pulse; the semitone offset from middle C the arpeggiator plays.
fn clock_once(arp: &mut Arp) -> i32 {
    let t = arp.tick(Some(true), None);
    let (note, octave) = t.next.expect("a note is held");
    arp.tick(Some(false), None);
    note as i32 - 60 + 12 * octave as i32
}

#[test]
fn up_mode_ascends_held_notes() {
    let mut arp = Arp::new();
    arp.set_param(ARP_MODE, 0);
    arp.set_param(ARP_OCTAVES, 0); // 1 octave
    // Hold C(60), E(64), G(67) → semitone offsets 0, 4, 7.
    arp.note_on(60);
    arp.note_on(64);
    arp.note_on(67);
    let seq: Vec<i32> = (0..4).map(|_| clock_once(&mut arp)).collect();
    assert_eq!(seq, vec![0, 4, 7, 0], "up arp wrong: {seq:?}");
}

#[test]
fn down_mode_descends() {
    let mut arp = Arp::new();
    arp.set_param(ARP_MODE, 1);
    arp.set_param(ARP_OCTAVES, 0);
    arp.note_on(60);
    arp.note_on(64);
    arp.note_on(67);
    let seq: Vec<i32> = (0..3).map(|_| clock_once(&mut arp)).collect();
    assert_eq!(seq, vec![7, 4, 0], "down arp wrong: {seq:?}");
}

#[test]
fn octaves_extend_range() {
    let mut arp = Arp::new();
    arp.set_param(ARP_MODE, 0);
    arp.set_param(ARP_OCTAVES, 1); // 2 octaves
    arp.note_on(60);
    arp.note_on(64);
    let seq: Vec<i32> = (0..5).map(|_| clock_once(&mut arp)).collect();
    // C, E, then the same an octave up, then wrap.
    assert_eq!(seq, vec![0, 4, 12, 16, 0], "octave arp wrong: {seq:?}");
}

#[test]
fn no_notes_means_no_gate() {
    let mut arp = Arp::new();
    let t = arp.tick(Some(true), None);
    assert!(t.edge);
    assert!(t.next.is_none(), "gate fired with no held notes");
}

#[test]
fn mono_last_note_priority() {
    let mut n = NoteIn::new();
    n.note_on(60, 100);
    n.note_on(64, 100); // steals the single lane
    assert_eq!(n.polyphony(), 1);
    assert_eq!(n.voice(0).note, 64);
    assert!(n.voice(0).gate);
}

#[test]
fn poly_allocates_separate_lanes() {
    let mut n = NoteIn::new();
    n.set_param(NOTE_IN_POLYPHONY, 4);
    n.note_on(60, 100);
    n.note_on(64, 100);
    n.note_on(67, 100);
    assert_eq!(n.polyphony(), 4);
    let mut pitches: Vec<u8> = (0..3).map(|ch| n.voice(ch).note).collect();
    pitches.sort();
    assert_eq!(pitches, vec![60, 64, 67]);
    assert_eq!((0..3).filter(|&ch| n.voice(ch).gate).count(), 3);
}

#[test]
fn steals_oldest_when_full() {
    let mut n = NoteIn::new();
    n.set_param(NOTE_IN_POLYPHONY, 2);
    n.note_on(60, 100);
    n.note_on(64, 100);
    n.note_on(67, 100); // steals lane holding 60 (oldest)
    let held: Vec<u8> = (0..2).filter(|&ch| n.voice(ch).gate).map(|ch| n.voice(ch).note).collect();
    assert_eq!(held.len(), 2);
    assert!(held.contains(&64));
    assert!(held.contains(&67));
    assert!(!held.contains(&60));
    // The stolen lane re-attacks: retrig pulse present somewhere.
    let retrig = n.take_retrig(BLOCK);
    assert!(retrig.iter().any(|&f| f > 0));
}

#[test]
fn note_off_releases_gate_keeps_pitch() {
    let mut n = NoteIn::new();
    n.note_on(60, 100);
    n.note_off(60);
    assert!(!n.voice(0).gate);
    // Pitch holds during release so envelopes tail on the right note.
    assert_eq!(n.voice(0).note, 60);
}

#[test]
fn retrig_pulse_expires() {
    let mut n = NoteIn::new();
    n.note_on(60, 100);
    // Frames of each block that carry the pulse.
    assert_eq!(n.take_retrig(BLOCK)[0], BLOCK);
    // 48-frame pulse: after two 32-frame blocks it must be over.
    assert_eq!(n.take_retrig(BLOCK)[0], 16);
    assert_eq!(n.take_retrig(BLOCK)[0], 0);
}

/// Snap a V/oct input to the quantizer's scale, as the DSP code hands it
/// over: nearest semitone plus the side the input lies on.
fn run(scale: usize, root: i32, volts: f32) -> i64 {
    let mut q = Quantizer::new();
    q.set_scale(scale);
    q.set_root(root);
    let semis = volts * 12.0;
    let center = semis.round();
    let side = if semis == center {
        Side::Exact
    } else if semis > center {
        Side::Above
    } else if center - semis == 0.5 {
        Side::HalfBelow
    } else {
        Side::Below
    };
    q.quantize(center as i32, side).expect("a scale tone lies in the window")
}

#[test]
fn major_scale_snaps_to_scale_tones() {
    // C major, input near D# (3 semitones = 0.25 V) snaps to E (4) or D (2).
    let semis = run(1, 0, 3.4 / 12.0);
    assert!(semis == 4, "expected E(4), got {semis}");
    // Input near F (5 semis = exact scale tone) stays.
    assert_eq!(run(1, 0, 5.0 / 12.0), 5);
}

#[test]
fn chromatic_rounds_to_nearest_semitone() {
    assert_eq!(run(0, 0, 3.4 / 12.0), 3);
}

#[test]
fn output_is_always_in_scale() {
    // Sweep a range; every output semitone must be a major-scale degree.
    let major = [0, 2, 4, 5, 7, 9, 11];
    for milli in -1200..1200 {
        let pc = run(1, 0, milli as f32 / 1200.0).rem_euclid(12);
        assert!(major.contains(&pc), "out pitch class {pc} not in C major");
    }
}

#[test]
fn seq_switch_cycles_inputs() {
    let mut sw = SeqSwitch::new();
    sw.set_param(SEQSWITCH_STEPS, 3); // 4 steps
    let ins = [1.0f32, 2.0, 3.0, 4.0];
    let mut seen = Vec::new();
    for _ in 0..5 {
        let sel = sw.tick(true, None);
        seen.push(ins[sel]);
        sw.tick(false, None);
    }
    // Starts on input 1, advances each clock, wraps after 4.
    assert_eq!(seen, vec![2.0, 3.0, 4.0, 1.0, 2.0]);
}

#[test]
fn octave_transposes_by_volts() {
    let mut o = Octave::new();
    o.set_param(OCTAVE_OCTAVES, 4 + 1); // +1 octave
    o.set_param(OCTAVE_SEMIS, 12 + 7); // +7 semitones
    let out = 0.0f32 + o.octaves() as f32 + o.semis() as f32 / 12.0;
    // +1 V (octave) + 7/12 V.
    assert!((out - (1.0 + 7.0 / 12.0)).abs() < 1e-5);
}

fn euclid_pattern(e: &mut Euclid, n: usize) -> Vec<bool> {
    let mut hits = Vec::new();
    for _ in 0..n {
        hits.push(e.tick(true, None));
        e.tick(false, None);
    }
    hits
}

#[test]
fn euclid_distributes_fills_over_length() {
    let mut e = Euclid::new();
    e.set_param(EUCLID_LENGTH, 7); // length = 8
    e.set_param(EUCLID_FILL, 4);
    e.set_param(EUCLID_ROTATE, 0);
    let pat = euclid_pattern(&mut e, 8);
    let hits = pat.iter().filter(|&&h| h).count();
    assert_eq!(hits, 4, "expected 4 hits over 8 steps, got {hits}: {pat:?}");
}

#[test]
fn euclid_zero_fill_is_silent() {
    let mut e = Euclid::new();
    e.set_param(EUCLID_LENGTH, 7);
    e.set_param(EUCLID_FILL, 0);
    assert!(euclid_pattern(&mut e, 8).iter().all(|&h| !h));
}

#[test]
fn turing_locked_loop_repeats() {
    // Length 8, probability 0: locked, the pattern must repeat every 8 clocks.
    let mut bits: u16 = 0xA5C3;
    let mut clock = || {
        bits = turing_shift(bits, 8, false);
        bits & 0xFF
    };
    let first: Vec<u16> = (0..8).map(|_| clock()).collect();
    let second: Vec<u16> = (0..8).map(|_| clock()).collect();
    assert_eq!(first, second, "locked Turing machine should loop");
}

#[test]
fn beats_plays_only_the_masked_steps() {
    let mut beats = Beats::new();
    // Track 1 fires on step 0 only (bit 0); track 2 on step 1 only (bit 1).
    beats.set_param(0, 1);
    beats.set_param(1, 2);
    beats.set_param(2, 0);
    beats.set_param(3, 0);
    let mut edge = |beats: &mut Beats| -> [bool; 4] {
        let fired = beats.tick(true, false);
        beats.tick(false, false);
        fired
    };
    let e0 = edge(&mut beats); // plays step 0
    let e1 = edge(&mut beats); // plays step 1
    assert!(e0[0], "track1 should fire on step 0");
    assert!(!e0[1], "track2 silent on step 0");
    assert!(e1[1], "track2 should fire on step 1");
    assert!(!e1[0], "track1 silent on step 1");
    assert!(!(e0[2] || e0[3] || e1[2] || e1[3]), "empty tracks never fire");
}

#[test]
fn sequences_and_wraps() {
    let mut seq = Seq8::new();
    seq.set_steps(3);
    let pitches = [0.5f32, 1.0, 1.5];
    let mut seen = Vec::new();
    for _ in 0..5 {
        let step = seq.tick(true, Some(false)); // clock high
        seen.push(pitches[step]);
        seq.tick(false, Some(false)); // clock low
    }
    // First edge plays step 1, then advances, wrapping after 3.
    assert_eq!(seen, vec![0.5, 1.0, 1.5, 0.5, 1.0]);
}

#[test]
fn reset_returns_to_step_one() {
    let mut seq = Seq8::new();
    for _ in 0..3 {
        seq.tick(true, Some(false));
        seq.tick(false, Some(false));
    }
    // Reset, then next clock plays step 1 again.
    seq.tick(false, Some(true));
    let step = seq.tick(true, Some(true));
    assert_eq!(step, 0);
}

#[test]
fn logic_gates() {
    let (and, or, xor) = Logic::gates(true, false);
    assert!(!and);
    assert!(or);
    assert!(xor);
    let (and, or, xor) = Logic::gates(true, true);
    assert!(and);
    assert!(or);
    assert!(!xor);
}

#[test]
fn turing_full_randomness_changes_pattern() {
    // Length 8, probability 0.5: the fed-back bit flips on about half the
    // clocks, drawn from the module's xorshift generator.
    let mut bits: u16 = 0b1011_0010_1101_0110;
    let mut rng: u32 = 0x77;
    let mut seen = std::collections::HashSet::new();
    for _ in 0..64 {
        rng = xorshift32(rng);
        let flip = (rng as f32 / u32::MAX as f32) < 0.5;
        bits = turing_shift(bits, 8, flip);
        seen.insert(bits & 0xFF);
    }
    assert!(seen.len() > 4, "randomized Turing too static: {} values", seen.len());
}

#[test]
fn euclid_rotation_keeps_the_count_and_steps_repeat_by_cycle() {
    let mut e = Euclid::new();
    e.set_param(EUCLID_LENGTH, 6); // length 7
    e.set_param(EUCLID_FILL, 3);
    for rot in [0u32, 1, 5, 1000] {
        e.set_param(EUCLID_ROTATE, rot);
        let hits = (0..7).filter(|&s| e.is_hit(s)).count();
        assert_eq!(hits, 3, "rotation {rot}");
        for s in [0u32, 3, 6, 4_000_000] {
            assert_eq!(e.is_hit(s), e.is_hit(s + 7));
        }
    }
    e.set_param(EUCLID_FILL, 16);
    assert!((0..7).all(|s| e.is_hit(s)), "fill beyond the length fires every step");
}

#[test]
fn turing_sixteen_bit_register_loops() {
    let start: u16 = 0b1011_0010_1101_0110;
    let mut bits = start;
    let mut seen = Vec::new();
    for _ in 0..16 {
        bits = turing_shift(bits, 16, false);
        seen.push(bits);
    }
    assert_eq!(bits, start, "a locked 16-bit register repeats every 16 clocks");
    assert_eq!(seen[0], start.rotate_left(1));
    assert_eq!(turing_shift(0x8000, 16, false), 0x0001);
    assert_eq!(turing_shift(0x8000, 16, true), 0x0000);
}

#[test]
fn quantizer_handles_runaway_inputs() {
    let q = Quantizer::new();
    let top = q.quantize(i32::MAX, Side::Exact).expect("a tone");
    assert!((top - i32::MAX as i64).abs() <= 3);
    let bottom = q.quantize(i32::MIN, Side::Below).expect("a tone");
    assert!((bottom - i32::MIN as i64).abs() <= 3);
    let out = run(1, 0, 2.0e8);
    assert!(((out as f32) / 12.0).is_finite());
}

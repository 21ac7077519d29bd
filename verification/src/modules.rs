//! Static module metadata shared by the UI (panels, plan building) and the
//! engine (port counts): the module kinds with their stable wire ids and
//! serialization names, and each kind's display name and ports. Ports are
//! addressed by index at runtime; names exist for panels and patches.
//! Parameter ranges are floating point and are kept with the DSP code.

use vstd::prelude::*;
use crate::text::str_eq;

verus! {

/// Module kind discriminant, stable across versions (serialized in patches
/// by name, sent in plans by id).
#[derive(Clone, Copy, Debug, PartialEq, Eq, Hash, Structural)]
pub enum ModuleKindId {
    Vco,
    Vcf,
    Vca,
    Adsr,
    Lfo,
    Mixer,
    Output,
    NoteIn,
    Clock,
    Seq8,
    Delay,
    Noise,
    SampleHold,
    Attenuverter,
    Waveshaper,
    WtVco,
    Random,
    Quantizer,
    ClockDiv,
    Mult,
    Logic,
    Slew,
    Reverb,
    Chorus,
    Phaser,
    FmOp,
    Additive,
    Drum,
    RingMod,
    BitCrush,
    Comb,
    Formant,
    Maths,
    ComplexLfo,
    EnvFollow,
    CvMix,
    Octave,
    Euclid,
    Bernoulli,
    Turing,
    SeqSwitch,
    Crossfade,
    VcaBank,
    Pan,
    Compressor,
    MacroOsc,
    Lpg,
    Ladder,
    Saturator,
    Flanger,
    PingPong,
    ParamEq,
    Limiter,
    Stereo,
    Comparator,
    Rectify,
    Arp,
    ClockMult,
    GateDelay,
    Burst,
    TrigTool,
    Voltmeter,
    Tuner,
    MidiCc,
    SubOsc,
    Supersaw,
    Pluck,
    Wavefold,
    ChordOsc,
    Resonator,
    SvfMulti,
    AutoWah,
    DualFilter,
    Drive,
    Transient,
    Ducker,
    Gate,
    Tremolo,
    Vibrato,
    TapeDelay,
    PitchShift,
    FreqShift,
    Shimmer,
    Vocoder,
    Offset,
    TrackHold,
    Phasor,
    MinMax,
    Beats,
    Ratchet,
    Scope,
    Spectrum,
}

/// Number of module kinds.
pub const N_KINDS: usize = 92;

/// The wire id of each kind (its position in declaration order).
pub open spec fn kind_id(k: ModuleKindId) -> u16 {
    match k {
        ModuleKindId::Vco => 0,
        ModuleKindId::Vcf => 1,
        ModuleKindId::Vca => 2,
        ModuleKindId::Adsr => 3,
        ModuleKindId::Lfo => 4,
        ModuleKindId::Mixer => 5,
        ModuleKindId::Output => 6,
        ModuleKindId::NoteIn => 7,
        ModuleKindId::Clock => 8,
        ModuleKindId::Seq8 => 9,
        ModuleKindId::Delay => 10,
        ModuleKindId::Noise => 11,
        ModuleKindId::SampleHold => 12,
        ModuleKindId::Attenuverter => 13,
        ModuleKindId::Waveshaper => 14,
        ModuleKindId::WtVco => 15,
        ModuleKindId::Random => 16,
        ModuleKindId::Quantizer => 17,
        ModuleKindId::ClockDiv => 18,
        ModuleKindId::Mult => 19,
        ModuleKindId::Logic => 20,
        ModuleKindId::Slew => 21,
        ModuleKindId::Reverb => 22,
        ModuleKindId::Chorus => 23,
        ModuleKindId::Phaser => 24,
        ModuleKindId::FmOp => 25,
        ModuleKindId::Additive => 26,
        ModuleKindId::Drum => 27,
        ModuleKindId::RingMod => 28,
        ModuleKindId::BitCrush => 29,
        ModuleKindId::Comb => 30,
        ModuleKindId::Formant => 31,
        ModuleKindId::Maths => 32,
        ModuleKindId::ComplexLfo => 33,
        ModuleKindId::EnvFollow => 34,
        ModuleKindId::CvMix => 35,
        ModuleKindId::Octave => 36,
        ModuleKindId::Euclid => 37,
        ModuleKindId::Bernoulli => 38,
        ModuleKindId::Turing => 39,
        ModuleKindId::SeqSwitch => 40,
        ModuleKindId::Crossfade => 41,
        ModuleKindId::VcaBank => 42,
        ModuleKindId::Pan => 43,
        ModuleKindId::Compressor => 44,
        ModuleKindId::MacroOsc => 45,
        ModuleKindId::Lpg => 46,
        ModuleKindId::Ladder => 47,
        ModuleKindId::Saturator => 48,
        ModuleKindId::Flanger => 49,
        ModuleKindId::PingPong => 50,
        ModuleKindId::ParamEq => 51,
        ModuleKindId::Limiter => 52,
        ModuleKindId::Stereo => 53,
        ModuleKindId::Comparator => 54,
        ModuleKindId::Rectify => 55,
        ModuleKindId::Arp => 56,
        ModuleKindId::ClockMult => 57,
        ModuleKindId::GateDelay => 58,
        ModuleKindId::Burst => 59,
        ModuleKindId::TrigTool => 60,
        ModuleKindId::Voltmeter => 61,
        ModuleKindId::Tuner => 62,
        ModuleKindId::MidiCc => 63,
        ModuleKindId::SubOsc => 64,
        ModuleKindId::Supersaw => 65,
        ModuleKindId::Pluck => 66,
        ModuleKindId::Wavefold => 67,
        ModuleKindId::ChordOsc => 68,
        ModuleKindId::Resonator => 69,
        ModuleKindId::SvfMulti => 70,
        ModuleKindId::AutoWah => 71,
        ModuleKindId::DualFilter => 72,
        ModuleKindId::Drive => 73,
        ModuleKindId::Transient => 74,
        ModuleKindId::Ducker => 75,
        ModuleKindId::Gate => 76,
        ModuleKindId::Tremolo => 77,
        ModuleKindId::Vibrato => 78,
        ModuleKindId::TapeDelay => 79,
        ModuleKindId::PitchShift => 80,
        ModuleKindId::FreqShift => 81,
        ModuleKindId::Shimmer => 82,
        ModuleKindId::Vocoder => 83,
        ModuleKindId::Offset => 84,
        ModuleKindId::TrackHold => 85,
        ModuleKindId::Phasor => 86,
        ModuleKindId::MinMax => 87,
        ModuleKindId::Beats => 88,
        ModuleKindId::Ratchet => 89,
        ModuleKindId::Scope => 90,
        ModuleKindId::Spectrum => 91,
    }
}

/// The kind with a given wire id, if any.
pub open spec fn kind_of_id(v: u16) -> Option<ModuleKindId> {
    match v {
        0 => Some(ModuleKindId::Vco),
        1 => Some(ModuleKindId::Vcf),
        2 => Some(ModuleKindId::Vca),
        3 => Some(ModuleKindId::Adsr),
        4 => Some(ModuleKindId::Lfo),
        5 => Some(ModuleKindId::Mixer),
        6 => Some(ModuleKindId::Output),
        7 => Some(ModuleKindId::NoteIn),
        8 => Some(ModuleKindId::Clock),
        9 => Some(ModuleKindId::Seq8),
        10 => Some(ModuleKindId::Delay),
        11 => Some(ModuleKindId::Noise),
        12 => Some(ModuleKindId::SampleHold),
        13 => Some(ModuleKindId::Attenuverter),
        14 => Some(ModuleKindId::Waveshaper),
        15 => Some(ModuleKindId::WtVco),
        16 => Some(ModuleKindId::Random),
        17 => Some(ModuleKindId::Quantizer),
        18 => Some(ModuleKindId::ClockDiv),
        19 => Some(ModuleKindId::Mult),
        20 => Some(ModuleKindId::Logic),
        21 => Some(ModuleKindId::Slew),
        22 => Some(ModuleKindId::Reverb),
        23 => Some(ModuleKindId::Chorus),
        24 => Some(ModuleKindId::Phaser),
        25 => Some(ModuleKindId::FmOp),
        26 => Some(ModuleKindId::Additive),
        27 => Some(ModuleKindId::Drum),
        28 => Some(ModuleKindId::RingMod),
        29 => Some(ModuleKindId::BitCrush),
        30 => Some(ModuleKindId::Comb),
        31 => Some(ModuleKindId::Formant),
        32 => Some(ModuleKindId::Maths),
        33 => Some(ModuleKindId::ComplexLfo),
        34 => Some(ModuleKindId::EnvFollow),
        35 => Some(ModuleKindId::CvMix),
        36 => Some(ModuleKindId::Octave),
        37 => Some(ModuleKindId::Euclid),
        38 => Some(ModuleKindId::Bernoulli),
        39 => Some(ModuleKindId::Turing),
        40 => Some(ModuleKindId::SeqSwitch),
        41 => Some(ModuleKindId::Crossfade),
        42 => Some(ModuleKindId::VcaBank),
        43 => Some(ModuleKindId::Pan),
        44 => Some(ModuleKindId::Compressor),
        45 => Some(ModuleKindId::MacroOsc),
        46 => Some(ModuleKindId::Lpg),
        47 => Some(ModuleKindId::Ladder),
        48 => Some(ModuleKindId::Saturator),
        49 => Some(ModuleKindId::Flanger),
        50 => Some(ModuleKindId::PingPong),
        51 => Some(ModuleKindId::ParamEq),
        52 => Some(ModuleKindId::Limiter),
        53 => Some(ModuleKindId::Stereo),
        54 => Some(ModuleKindId::Comparator),
        55 => Some(ModuleKindId::Rectify),
        56 => Some(ModuleKindId::Arp),
        57 => Some(ModuleKindId::ClockMult),
        58 => Some(ModuleKindId::GateDelay),
        59 => Some(ModuleKindId::Burst),
        60 => Some(ModuleKindId::TrigTool),
        61 => Some(ModuleKindId::Voltmeter),
        62 => Some(ModuleKindId::Tuner),
        63 => Some(ModuleKindId::MidiCc),
        64 => Some(ModuleKindId::SubOsc),
        65 => Some(ModuleKindId::Supersaw),
        66 => Some(ModuleKindId::Pluck),
        67 => Some(ModuleKindId::Wavefold),
        68 => Some(ModuleKindId::ChordOsc),
        69 => Some(ModuleKindId::Resonator),
        70 => Some(ModuleKindId::SvfMulti),
        71 => Some(ModuleKindId::AutoWah),
        72 => Some(ModuleKindId::DualFilter),
        73 => Some(ModuleKindId::Drive),
        74 => Some(ModuleKindId::Transient),
        75 => Some(ModuleKindId::Ducker),
        76 => Some(ModuleKindId::Gate),
        77 => Some(ModuleKindId::Tremolo),
        78 => Some(ModuleKindId::Vibrato),
        79 => Some(ModuleKindId::TapeDelay),
        80 => Some(ModuleKindId::PitchShift),
        81 => Some(ModuleKindId::FreqShift),
        82 => Some(ModuleKindId::Shimmer),
        83 => Some(ModuleKindId::Vocoder),
        84 => Some(ModuleKindId::Offset),
        85 => Some(ModuleKindId::TrackHold),
        86 => Some(ModuleKindId::Phasor),
        87 => Some(ModuleKindId::MinMax),
        88 => Some(ModuleKindId::Beats),
        89 => Some(ModuleKindId::Ratchet),
        90 => Some(ModuleKindId::Scope),
        91 => Some(ModuleKindId::Spectrum),
        _ => None,
    }
}

/// Stable serialization name of each kind, as characters.
pub open spec fn spec_serial_name(k: ModuleKindId) -> Seq<char> {
    match k {
        ModuleKindId::Vco => seq!['v', 'c', 'o'],
        ModuleKindId::Vcf => seq!['v', 'c', 'f'],
        ModuleKindId::Vca => seq!['v', 'c', 'a'],
        ModuleKindId::Adsr => seq!['a', 'd', 's', 'r'],
        ModuleKindId::Lfo => seq!['l', 'f', 'o'],
        ModuleKindId::Mixer => seq!['m', 'i', 'x', 'e', 'r'],
        ModuleKindId::Output => seq!['o', 'u', 't', 'p', 'u', 't'],
        ModuleKindId::NoteIn => seq!['n', 'o', 't', 'e', '_', 'i', 'n'],
        ModuleKindId::Clock => seq!['c', 'l', 'o', 'c', 'k'],
        ModuleKindId::Seq8 => seq!['s', 'e', 'q', '8'],
        ModuleKindId::Delay => seq!['d', 'e', 'l', 'a', 'y'],
        ModuleKindId::Noise => seq!['n', 'o', 'i', 's', 'e'],
        ModuleKindId::SampleHold => seq!['s', 'n', 'h'],
        ModuleKindId::Attenuverter => seq!['a', 't', 't', 'n'],
        ModuleKindId::Waveshaper => seq!['s', 'h', 'a', 'p', 'e'],
        ModuleKindId::WtVco => seq!['w', 't', 'v', 'c', 'o'],
        ModuleKindId::Random => seq!['r', 'a', 'n', 'd', 'o', 'm'],
        ModuleKindId::Quantizer => seq!['q', 'u', 'a', 'n', 't', 'i', 'z', 'e', 'r'],
        ModuleKindId::ClockDiv => seq!['c', 'l', 'o', 'c', 'k', 'd', 'i', 'v'],
        ModuleKindId::Mult => seq!['m', 'u', 'l', 't'],
        ModuleKindId::Logic => seq!['l', 'o', 'g', 'i', 'c'],
        ModuleKindId::Slew => seq!['s', 'l', 'e', 'w'],
        ModuleKindId::Reverb => seq!['r', 'e', 'v', 'e', 'r', 'b'],
        ModuleKindId::Chorus => seq!['c', 'h', 'o', 'r', 'u', 's'],
        ModuleKindId::Phaser => seq!['p', 'h', 'a', 's', 'e', 'r'],
        ModuleKindId::FmOp => seq!['f', 'm', 'o', 'p'],
        ModuleKindId::Additive => seq!['a', 'd', 'd', 'i', 't', 'i', 'v', 'e'],
        ModuleKindId::Drum => seq!['d', 'r', 'u', 'm'],
        ModuleKindId::RingMod => seq!['r', 'i', 'n', 'g', 'm', 'o', 'd'],
        ModuleKindId::BitCrush => seq!['b', 'i', 't', 'c', 'r', 'u', 's', 'h'],
        ModuleKindId::Comb => seq!['c', 'o', 'm', 'b'],
        ModuleKindId::Formant => seq!['f', 'o', 'r', 'm', 'a', 'n', 't'],
        ModuleKindId::Maths => seq!['m', 'a', 't', 'h', 's'],
        ModuleKindId::ComplexLfo => seq!['c', 'o', 'm', 'p', 'l', 'e', 'x', 'l', 'f', 'o'],
        ModuleKindId::EnvFollow => seq!['e', 'n', 'v', 'f', 'o', 'l', 'l', 'o', 'w'],
        ModuleKindId::CvMix => seq!['c', 'v', 'm', 'i', 'x'],
        ModuleKindId::Octave => seq!['o', 'c', 't', 'a', 'v', 'e'],
        ModuleKindId::Euclid => seq!['e', 'u', 'c', 'l', 'i', 'd'],
        ModuleKindId::Bernoulli => seq!['b', 'e', 'r', 'n', 'o', 'u', 'l', 'l', 'i'],
        ModuleKindId::Turing => seq!['t', 'u', 'r', 'i', 'n', 'g'],
        ModuleKindId::SeqSwitch => seq!['s', 'e', 'q', 's', 'w', 'i', 't', 'c', 'h'],
        ModuleKindId::Crossfade => seq!['c', 'r', 'o', 's', 's', 'f', 'a', 'd', 'e'],
        ModuleKindId::VcaBank => seq!['v', 'c', 'a', 'b', 'a', 'n', 'k'],
        ModuleKindId::Pan => seq!['p', 'a', 'n'],
        ModuleKindId::Compressor => seq!['c', 'o', 'm', 'p', 'r', 'e', 's', 's', 'o', 'r'],
        ModuleKindId::MacroOsc => seq!['m', 'a', 'c', 'r', 'o', '_', 'o', 's', 'c'],
        ModuleKindId::Lpg => seq!['l', 'p', 'g'],
        ModuleKindId::Ladder => seq!['l', 'a', 'd', 'd', 'e', 'r'],
        ModuleKindId::Saturator => seq!['s', 'a', 't', 'u', 'r', 'a', 't', 'e'],
        ModuleKindId::Flanger => seq!['f', 'l', 'a', 'n', 'g', 'e', 'r'],
        ModuleKindId::PingPong => seq!['p', 'i', 'n', 'g', 'p', 'o', 'n', 'g'],
        ModuleKindId::ParamEq => seq!['e', 'q'],
        ModuleKindId::Limiter => seq!['l', 'i', 'm', 'i', 't', 'e', 'r'],
        ModuleKindId::Stereo => seq!['s', 't', 'e', 'r', 'e', 'o'],
        ModuleKindId::Comparator => seq!['c', 'o', 'm', 'p', 'a', 'r', 'a', 't', 'o', 'r'],
        ModuleKindId::Rectify => seq!['r', 'e', 'c', 't', 'i', 'f', 'y'],
        ModuleKindId::Arp => seq!['a', 'r', 'p'],
        ModuleKindId::ClockMult => seq!['c', 'l', 'o', 'c', 'k', 'm', 'u', 'l', 't'],
        ModuleKindId::GateDelay => seq!['g', 'a', 't', 'e', 'd', 'e', 'l', 'a', 'y'],
        ModuleKindId::Burst => seq!['b', 'u', 'r', 's', 't'],
        ModuleKindId::TrigTool => seq!['t', 'r', 'i', 'g', 't', 'o', 'o', 'l'],
        ModuleKindId::Voltmeter => seq!['v', 'o', 'l', 't', 'm', 'e', 't', 'e', 'r'],
        ModuleKindId::Tuner => seq!['t', 'u', 'n', 'e', 'r'],
        ModuleKindId::MidiCc => seq!['m', 'i', 'd', 'i', 'c', 'c'],
        ModuleKindId::SubOsc => seq!['s', 'u', 'b', 'o', 's', 'c'],
        ModuleKindId::Supersaw => seq!['s', 'u', 'p', 'e', 'r', 's', 'a', 'w'],
        ModuleKindId::Pluck => seq!['p', 'l', 'u', 'c', 'k'],
        ModuleKindId::Wavefold => seq!['w', 'a', 'v', 'e', 'f', 'o', 'l', 'd'],
        ModuleKindId::ChordOsc => seq!['c', 'h', 'o', 'r', 'd', 'o', 's', 'c'],
        ModuleKindId::Resonator => seq!['r', 'e', 's', 'o', 'n', 'a', 't', 'o', 'r'],
        ModuleKindId::SvfMulti => seq!['s', 'v', 'f'],
        ModuleKindId::AutoWah => seq!['a', 'u', 't', 'o', 'w', 'a', 'h'],
        ModuleKindId::DualFilter => seq!['d', 'u', 'a', 'l', 'f', 'i', 'l', 't', 'e', 'r'],
        ModuleKindId::Drive => seq!['d', 'r', 'i', 'v', 'e'],
        ModuleKindId::Transient => seq!['t', 'r', 'a', 'n', 's', 'i', 'e', 'n', 't'],
        ModuleKindId::Ducker => seq!['d', 'u', 'c', 'k', 'e', 'r'],
        ModuleKindId::Gate => seq!['g', 'a', 't', 'e'],
        ModuleKindId::Tremolo => seq!['t', 'r', 'e', 'm', 'o', 'l', 'o'],
        ModuleKindId::Vibrato => seq!['v', 'i', 'b', 'r', 'a', 't', 'o'],
        ModuleKindId::TapeDelay => seq!['t', 'a', 'p', 'e', 'd', 'e', 'l', 'a', 'y'],
        ModuleKindId::PitchShift => seq!['p', 'i', 't', 'c', 'h', 's', 'h', 'i', 'f', 't'],
        ModuleKindId::FreqShift => seq!['f', 'r', 'e', 'q', 's', 'h', 'i', 'f', 't'],
        ModuleKindId::Shimmer => seq!['s', 'h', 'i', 'm', 'm', 'e', 'r'],
        ModuleKindId::Vocoder => seq!['v', 'o', 'c', 'o', 'd', 'e', 'r'],
        ModuleKindId::Offset => seq!['o', 'f', 'f', 's', 'e', 't'],
        ModuleKindId::TrackHold => seq!['t', 'r', 'a', 'c', 'k', 'h', 'o', 'l', 'd'],
        ModuleKindId::Phasor => seq!['p', 'h', 'a', 's', 'o', 'r'],
        ModuleKindId::MinMax => seq!['m', 'i', 'n', 'm', 'a', 'x'],
        ModuleKindId::Beats => seq!['b', 'e', 'a', 't', 's'],
        ModuleKindId::Ratchet => seq!['r', 'a', 't', 'c', 'h', 'e', 't'],
        ModuleKindId::Scope => seq!['s', 'c', 'o', 'p', 'e'],
        ModuleKindId::Spectrum => seq!['s', 'p', 'e', 'c', 't', 'r', 'u', 'm'],
    }
}

/// Display name of each kind.
pub open spec fn spec_display_name(k: ModuleKindId) -> Seq<char> {
    match k {
        ModuleKindId::Vco => "VCO"@,
        ModuleKindId::Vcf => "VCF"@,
        ModuleKindId::Vca => "VCA"@,
        ModuleKindId::Adsr => "ADSR"@,
        ModuleKindId::Lfo => "LFO"@,
        ModuleKindId::Mixer => "MIXER"@,
        ModuleKindId::Output => "OUTPUT"@,
        ModuleKindId::NoteIn => "NOTES"@,
        ModuleKindId::Clock => "CLOCK"@,
        ModuleKindId::Seq8 => "SEQ-8"@,
        ModuleKindId::Delay => "DELAY"@,
        ModuleKindId::Noise => "NOISE"@,
        ModuleKindId::SampleHold => "S&H"@,
        ModuleKindId::Attenuverter => "ATTN"@,
        ModuleKindId::Waveshaper => "SHAPE"@,
        ModuleKindId::WtVco => "WT-OSC"@,
        ModuleKindId::Random => "RANDOM"@,
        ModuleKindId::Quantizer => "QUANT"@,
        ModuleKindId::ClockDiv => "CLK÷"@,
        ModuleKindId::Mult => "MULT"@,
        ModuleKindId::Logic => "LOGIC"@,
        ModuleKindId::Slew => "SLEW"@,
        ModuleKindId::Reverb => "REVERB"@,
        ModuleKindId::Chorus => "CHORUS"@,
        ModuleKindId::Phaser => "PHASER"@,
        ModuleKindId::FmOp => "FM-OSC"@,
        ModuleKindId::Additive => "ADDITIVE"@,
        ModuleKindId::Drum => "DRUM"@,
        ModuleKindId::RingMod => "RINGMOD"@,
        ModuleKindId::BitCrush => "CRUSH"@,
        ModuleKindId::Comb => "KARPLUS"@,
        ModuleKindId::Formant => "FORMANT"@,
        ModuleKindId::Maths => "MATHS"@,
        ModuleKindId::ComplexLfo => "CLX-LFO"@,
        ModuleKindId::EnvFollow => "ENV-FOL"@,
        ModuleKindId::CvMix => "CV-MIX"@,
        ModuleKindId::Octave => "OCTAVE"@,
        ModuleKindId::Euclid => "EUCLID"@,
        ModuleKindId::Bernoulli => "COIN"@,
        ModuleKindId::Turing => "TURING"@,
        ModuleKindId::SeqSwitch => "SWITCH"@,
        ModuleKindId::Crossfade => "XFADE"@,
        ModuleKindId::VcaBank => "VCA×4"@,
        ModuleKindId::Pan => "PAN"@,
        ModuleKindId::Compressor => "COMP"@,
        ModuleKindId::MacroOsc => "MACRO"@,
        ModuleKindId::Lpg => "LPG"@,
        ModuleKindId::Ladder => "LADDER"@,
        ModuleKindId::Saturator => "SATURATE"@,
        ModuleKindId::Flanger => "FLANGER"@,
        ModuleKindId::PingPong => "PINGPONG"@,
        ModuleKindId::ParamEq => "EQ"@,
        ModuleKindId::Limiter => "LIMITER"@,
        ModuleKindId::Stereo => "STEREO"@,
        ModuleKindId::Comparator => "COMPARE"@,
        ModuleKindId::Rectify => "RECTIFY"@,
        ModuleKindId::Arp => "ARP"@,
        ModuleKindId::ClockMult => "CLK×"@,
        ModuleKindId::GateDelay => "GATE-DLY"@,
        ModuleKindId::Burst => "BURST"@,
        ModuleKindId::TrigTool => "TRIG"@,
        ModuleKindId::Voltmeter => "VOLTS"@,
        ModuleKindId::Tuner => "TUNER"@,
        ModuleKindId::MidiCc => "MIDI-CC"@,
        ModuleKindId::SubOsc => "SUB OSC"@,
        ModuleKindId::Supersaw => "SUPERSAW"@,
        ModuleKindId::Pluck => "PLUCK"@,
        ModuleKindId::Wavefold => "WAVEFOLD"@,
        ModuleKindId::ChordOsc => "CHORD"@,
        ModuleKindId::Resonator => "RESONATOR"@,
        ModuleKindId::SvfMulti => "SVF"@,
        ModuleKindId::AutoWah => "AUTO-WAH"@,
        ModuleKindId::DualFilter => "DUAL FILTER"@,
        ModuleKindId::Drive => "DRIVE"@,
        ModuleKindId::Transient => "TRANSIENT"@,
        ModuleKindId::Ducker => "DUCKER"@,
        ModuleKindId::Gate => "GATE"@,
        ModuleKindId::Tremolo => "TREMOLO"@,
        ModuleKindId::Vibrato => "VIBRATO"@,
        ModuleKindId::TapeDelay => "TAPE DELAY"@,
        ModuleKindId::PitchShift => "PITCH SHIFT"@,
        ModuleKindId::FreqShift => "FREQ SHIFT"@,
        ModuleKindId::Shimmer => "SHIMMER"@,
        ModuleKindId::Vocoder => "VOCODER"@,
        ModuleKindId::Offset => "OFFSET"@,
        ModuleKindId::TrackHold => "TRACK-HOLD"@,
        ModuleKindId::Phasor => "PHASOR"@,
        ModuleKindId::MinMax => "MIN/MAX"@,
        ModuleKindId::Beats => "BEATS"@,
        ModuleKindId::Ratchet => "RATCHET"@,
        ModuleKindId::Scope => "SCOPE"@,
        ModuleKindId::Spectrum => "SPECTRUM"@,
    }
}

/// Input port names of each kind, in port-index order.
pub open spec fn spec_inputs(k: ModuleKindId) -> Seq<Seq<char>> {
    match k {
        ModuleKindId::Vco => seq!["v/oct"@, "pwm"@],
        ModuleKindId::Vcf => seq!["in"@, "cutoff cv"@],
        ModuleKindId::Vca => seq!["in"@, "cv"@],
        ModuleKindId::Adsr => seq!["gate"@, "retrig"@],
        ModuleKindId::Lfo => seq!["reset"@],
        ModuleKindId::Mixer => seq!["in 1"@, "in 2"@, "in 3"@, "in 4"@],
        ModuleKindId::Output => seq!["left"@, "right"@],
        ModuleKindId::NoteIn => Seq::empty(),
        ModuleKindId::Clock => Seq::empty(),
        ModuleKindId::Seq8 => seq!["clock"@, "reset"@],
        ModuleKindId::Delay => seq!["in"@],
        ModuleKindId::Noise => Seq::empty(),
        ModuleKindId::SampleHold => seq!["in"@, "trig"@],
        ModuleKindId::Attenuverter => seq!["in"@],
        ModuleKindId::Waveshaper => seq!["in"@],
        ModuleKindId::WtVco => seq!["v/oct"@, "pos cv"@],
        ModuleKindId::Random => seq!["trig"@],
        ModuleKindId::Quantizer => seq!["in"@],
        ModuleKindId::ClockDiv => seq!["clock"@, "reset"@],
        ModuleKindId::Mult => seq!["in"@],
        ModuleKindId::Logic => seq!["a"@, "b"@],
        ModuleKindId::Slew => seq!["in"@],
        ModuleKindId::Reverb => seq!["in"@],
        ModuleKindId::Chorus => seq!["in"@],
        ModuleKindId::Phaser => seq!["in"@],
        ModuleKindId::FmOp => seq!["v/oct"@, "fm"@],
        ModuleKindId::Additive => seq!["v/oct"@],
        ModuleKindId::Drum => seq!["trig"@, "accent"@],
        ModuleKindId::RingMod => seq!["a"@, "b"@],
        ModuleKindId::BitCrush => seq!["in"@],
        ModuleKindId::Comb => seq!["in"@, "v/oct"@],
        ModuleKindId::Formant => seq!["in"@, "vowel cv"@],
        ModuleKindId::Maths => seq!["trig"@],
        ModuleKindId::ComplexLfo => seq!["rate cv"@],
        ModuleKindId::EnvFollow => seq!["in"@],
        ModuleKindId::CvMix => seq!["a"@, "b"@, "c"@, "d"@],
        ModuleKindId::Octave => seq!["in"@],
        ModuleKindId::Euclid => seq!["clock"@, "reset"@],
        ModuleKindId::Bernoulli => seq!["trig"@, "prob cv"@],
        ModuleKindId::Turing => seq!["clock"@],
        ModuleKindId::SeqSwitch => seq!["clock"@, "reset"@, "1"@, "2"@, "3"@, "4"@],
        ModuleKindId::Crossfade => seq!["a"@, "b"@, "cv"@],
        ModuleKindId::VcaBank => seq!["in 1"@, "in 2"@, "in 3"@, "in 4"@, "cv 1"@, "cv 2"@, "cv 3"@, "cv 4"@],
        ModuleKindId::Pan => seq!["in"@, "pan cv"@],
        ModuleKindId::Compressor => seq!["in"@, "sidechain"@],
        ModuleKindId::MacroOsc => seq!["v/oct"@, "timbre cv"@, "morph cv"@],
        ModuleKindId::Lpg => seq!["in"@, "trig"@, "cv"@],
        ModuleKindId::Ladder => seq!["in"@, "cutoff cv"@],
        ModuleKindId::Saturator => seq!["in"@],
        ModuleKindId::Flanger => seq!["in"@],
        ModuleKindId::PingPong => seq!["left"@, "right"@],
        ModuleKindId::ParamEq => seq!["in"@],
        ModuleKindId::Limiter => seq!["in"@],
        ModuleKindId::Stereo => seq!["left"@, "right"@],
        ModuleKindId::Comparator => seq!["in"@, "thresh cv"@],
        ModuleKindId::Rectify => seq!["a"@, "b"@],
        ModuleKindId::Arp => seq!["clock"@, "reset"@],
        ModuleKindId::ClockMult => seq!["clock"@],
        ModuleKindId::GateDelay => seq!["in"@],
        ModuleKindId::Burst => seq!["trig"@],
        ModuleKindId::TrigTool => seq!["in"@],
        ModuleKindId::Voltmeter => seq!["in"@],
        ModuleKindId::Tuner => seq!["in"@],
        ModuleKindId::MidiCc => Seq::empty(),
        ModuleKindId::SubOsc => seq!["v/oct"@],
        ModuleKindId::Supersaw => seq!["v/oct"@],
        ModuleKindId::Pluck => seq!["v/oct"@, "trig"@],
        ModuleKindId::Wavefold => seq!["in"@],
        ModuleKindId::ChordOsc => seq!["v/oct"@],
        ModuleKindId::Resonator => seq!["in"@, "v/oct"@],
        ModuleKindId::SvfMulti => seq!["in"@, "cutoff cv"@],
        ModuleKindId::AutoWah => seq!["in"@],
        ModuleKindId::DualFilter => seq!["left"@, "right"@],
        ModuleKindId::Drive => seq!["in"@],
        ModuleKindId::Transient => seq!["in"@],
        ModuleKindId::Ducker => seq!["in"@, "key"@],
        ModuleKindId::Gate => seq!["in"@],
        ModuleKindId::Tremolo => seq!["in"@],
        ModuleKindId::Vibrato => seq!["in"@],
        ModuleKindId::TapeDelay => seq!["in"@],
        ModuleKindId::PitchShift => seq!["in"@],
        ModuleKindId::FreqShift => seq!["in"@],
        ModuleKindId::Shimmer => seq!["in"@],
        ModuleKindId::Vocoder => seq!["carrier"@, "mod"@],
        ModuleKindId::Offset => seq!["in"@],
        ModuleKindId::TrackHold => seq!["in"@, "gate"@],
        ModuleKindId::Phasor => seq!["clock"@, "reset"@],
        ModuleKindId::MinMax => seq!["a"@, "b"@, "c"@],
        ModuleKindId::Beats => seq!["clock"@, "reset"@],
        ModuleKindId::Ratchet => seq!["clock"@, "reset"@],
        ModuleKindId::Scope => seq!["in"@],
        ModuleKindId::Spectrum => seq!["in"@],
    }
}

/// Output port names of each kind, in port-index order.
pub open spec fn spec_outputs(k: ModuleKindId) -> Seq<Seq<char>> {
    match k {
        ModuleKindId::Vco => seq!["out"@],
        ModuleKindId::Vcf => seq!["out"@],
        ModuleKindId::Vca => seq!["out"@],
        ModuleKindId::Adsr => seq!["env"@],
        ModuleKindId::Lfo => seq!["out"@],
        ModuleKindId::Mixer => seq!["out"@],
        ModuleKindId::Output => Seq::empty(),
        ModuleKindId::NoteIn => seq!["v/oct"@, "gate"@, "velocity"@, "retrig"@],
        ModuleKindId::Clock => seq!["out"@, "/2"@, "/4"@],
        ModuleKindId::Seq8 => seq!["v/oct"@, "gate"@],
        ModuleKindId::Delay => seq!["out"@],
        ModuleKindId::Noise => seq!["out"@],
        ModuleKindId::SampleHold => seq!["out"@],
        ModuleKindId::Attenuverter => seq!["out"@],
        ModuleKindId::Waveshaper => seq!["out"@],
        ModuleKindId::WtVco => seq!["out"@],
        ModuleKindId::Random => seq!["stepped"@, "smooth"@],
        ModuleKindId::Quantizer => seq!["out"@],
        ModuleKindId::ClockDiv => seq!["÷2"@, "÷4"@, "÷8"@, "÷16"@],
        ModuleKindId::Mult => seq!["1"@, "2"@, "3"@, "4"@],
        ModuleKindId::Logic => seq!["and"@, "or"@, "xor"@],
        ModuleKindId::Slew => seq!["out"@],
        ModuleKindId::Reverb => seq!["left"@, "right"@],
        ModuleKindId::Chorus => seq!["left"@, "right"@],
        ModuleKindId::Phaser => seq!["out"@],
        ModuleKindId::FmOp => seq!["out"@],
        ModuleKindId::Additive => seq!["out"@],
        ModuleKindId::Drum => seq!["out"@],
        ModuleKindId::RingMod => seq!["out"@],
        ModuleKindId::BitCrush => seq!["out"@],
        ModuleKindId::Comb => seq!["out"@],
        ModuleKindId::Formant => seq!["out"@],
        ModuleKindId::Maths => seq!["out"@, "eoc"@],
        ModuleKindId::ComplexLfo => seq!["0°"@, "90°"@, "180°"@, "270°"@],
        ModuleKindId::EnvFollow => seq!["env"@],
        ModuleKindId::CvMix => seq!["sum"@],
        ModuleKindId::Octave => seq!["out"@],
        ModuleKindId::Euclid => seq!["gate"@],
        ModuleKindId::Bernoulli => seq!["a"@, "b"@],
        ModuleKindId::Turing => seq!["gate"@, "cv"@],
        ModuleKindId::SeqSwitch => seq!["out"@],
        ModuleKindId::Crossfade => seq!["out"@],
        ModuleKindId::VcaBank => seq!["1"@, "2"@, "3"@, "4"@],
        ModuleKindId::Pan => seq!["left"@, "right"@],
        ModuleKindId::Compressor => seq!["out"@],
        ModuleKindId::MacroOsc => seq!["main"@, "aux"@],
        ModuleKindId::Lpg => seq!["out"@],
        ModuleKindId::Ladder => seq!["out"@],
        ModuleKindId::Saturator => seq!["out"@],
        ModuleKindId::Flanger => seq!["out"@],
        ModuleKindId::PingPong => seq!["left"@, "right"@],
        ModuleKindId::ParamEq => seq!["out"@],
        ModuleKindId::Limiter => seq!["out"@],
        ModuleKindId::Stereo => seq!["left"@, "right"@],
        ModuleKindId::Comparator => seq!["gate"@, "inv"@],
        ModuleKindId::Rectify => seq!["|a|"@, "max"@, "min"@],
        ModuleKindId::Arp => seq!["v/oct"@, "gate"@],
        ModuleKindId::ClockMult => seq!["×2"@, "×3"@, "×4"@],
        ModuleKindId::GateDelay => seq!["out"@],
        ModuleKindId::Burst => seq!["out"@],
        ModuleKindId::TrigTool => seq!["gate"@, "trig"@],
        ModuleKindId::Voltmeter => seq!["thru"@],
        ModuleKindId::Tuner => seq!["v/oct"@],
        ModuleKindId::MidiCc => seq!["cv"@],
        ModuleKindId::SubOsc => seq!["out"@],
        ModuleKindId::Supersaw => seq!["out"@],
        ModuleKindId::Pluck => seq!["out"@],
        ModuleKindId::Wavefold => seq!["out"@],
        ModuleKindId::ChordOsc => seq!["out"@],
        ModuleKindId::Resonator => seq!["out"@],
        ModuleKindId::SvfMulti => seq!["lp"@, "bp"@, "hp"@, "notch"@],
        ModuleKindId::AutoWah => seq!["out"@],
        ModuleKindId::DualFilter => seq!["left"@, "right"@],
        ModuleKindId::Drive => seq!["out"@],
        ModuleKindId::Transient => seq!["out"@],
        ModuleKindId::Ducker => seq!["out"@],
        ModuleKindId::Gate => seq!["out"@],
        ModuleKindId::Tremolo => seq!["out"@],
        ModuleKindId::Vibrato => seq!["out"@],
        ModuleKindId::TapeDelay => seq!["out"@],
        ModuleKindId::PitchShift => seq!["out"@],
        ModuleKindId::FreqShift => seq!["out"@],
        ModuleKindId::Shimmer => seq!["out"@],
        ModuleKindId::Vocoder => seq!["out"@],
        ModuleKindId::Offset => seq!["out"@],
        ModuleKindId::TrackHold => seq!["out"@],
        ModuleKindId::Phasor => seq!["ramp"@, "pulse"@],
        ModuleKindId::MinMax => seq!["min"@, "max"@, "mean"@],
        ModuleKindId::Beats => seq!["t1"@, "t2"@, "t3"@, "t4"@],
        ModuleKindId::Ratchet => seq!["gate"@],
        ModuleKindId::Scope => seq!["thru"@],
        ModuleKindId::Spectrum => seq!["thru"@],
    }
}

/// The kind whose serialization name is `s`, if any.
pub open spec fn kind_of_name(s: Seq<char>) -> Option<ModuleKindId> {
    if s.len() == 2 {
        if s == seq!['e', 'q'] {
            Some(ModuleKindId::ParamEq)
        } else {
            None
        }
    } else if s.len() == 3 {
        if s[1] == 'a' {
            if s == seq!['p', 'a', 'n'] {
                Some(ModuleKindId::Pan)
            } else {
                None
            }
        } else if s[1] == 'c' {
            if s[2] == 'a' {
                if s == seq!['v', 'c', 'a'] {
                    Some(ModuleKindId::Vca)
                } else {
                    None
                }
            } else if s[2] == 'f' {
                if s == seq!['v', 'c', 'f'] {
                    Some(ModuleKindId::Vcf)
                } else {
                    None
                }
            } else if s[2] == 'o' {
                if s == seq!['v', 'c', 'o'] {
                    Some(ModuleKindId::Vco)
                } else {
                    None
                }
            } else {
                None
            }
        } else if s[1] == 'f' {
            if s == seq!['l', 'f', 'o'] {
                Some(ModuleKindId::Lfo)
            } else {
                None
            }
        } else if s[1] == 'n' {
            if s == seq!['s', 'n', 'h'] {
                Some(ModuleKindId::SampleHold)
            } else {
                None
            }
        } else if s[1] == 'p' {
            if s == seq!['l', 'p', 'g'] {
                Some(ModuleKindId::Lpg)
            } else {
                None
            }
        } else if s[1] == 'r' {
            if s == seq!['a', 'r', 'p'] {
                Some(ModuleKindId::Arp)
            } else {
                None
            }
        } else if s[1] == 'v' {
            if s == seq!['s', 'v', 'f'] {
                Some(ModuleKindId::SvfMulti)
            } else {
                None
            }
        } else {
            None
        }
    } else if s.len() == 4 {
        if s[1] == 'a' {
            if s == seq!['g', 'a', 't', 'e'] {
                Some(ModuleKindId::Gate)
            } else {
                None
            }
        } else if s[1] == 'd' {
            if s == seq!['a', 'd', 's', 'r'] {
                Some(ModuleKindId::Adsr)
            } else {
                None
            }
        } else if s[1] == 'e' {
            if s == seq!['s', 'e', 'q', '8'] {
                Some(ModuleKindId::Seq8)
            } else {
                None
            }
        } else if s[1] == 'l' {
            if s == seq!['s', 'l', 'e', 'w'] {
                Some(ModuleKindId::Slew)
            } else {
                None
            }
        } else if s[1] == 'm' {
            if s == seq!['f', 'm', 'o', 'p'] {
                Some(ModuleKindId::FmOp)
            } else {
                None
            }
        } else if s[1] == 'o' {
            if s == seq!['c', 'o', 'm', 'b'] {
                Some(ModuleKindId::Comb)
            } else {
                None
            }
        } else if s[1] == 'r' {
            if s == seq!['d', 'r', 'u', 'm'] {
                Some(ModuleKindId::Drum)
            } else {
                None
            }
        } else if s[1] == 't' {
            if s == seq!['a', 't', 't', 'n'] {
                Some(ModuleKindId::Attenuverter)
            } else {
                None
            }
        } else if s[1] == 'u' {
            if s == seq!['m', 'u', 'l', 't'] {
                Some(ModuleKindId::Mult)
            } else {
                None
            }
        } else {
            None
        }
    } else if s.len() == 5 {
        if s[2] == 'a' {
            if s[0] == 'b' {
                if s == seq!['b', 'e', 'a', 't', 's'] {
                    Some(ModuleKindId::Beats)
                } else {
                    None
                }
            } else if s[0] == 's' {
                if s == seq!['s', 'h', 'a', 'p', 'e'] {
                    Some(ModuleKindId::Waveshaper)
                } else {
                    None
                }
            } else {
                None
            }
        } else if s[2] == 'g' {
            if s == seq!['l', 'o', 'g', 'i', 'c'] {
                Some(ModuleKindId::Logic)
            } else {
                None
            }
        } else if s[2] == 'i' {
            if s[0] == 'd' {
                if s == seq!['d', 'r', 'i', 'v', 'e'] {
                    Some(ModuleKindId::Drive)
                } else {
                    None
                }
            } else if s[0] == 'n' {
                if s == seq!['n', 'o', 'i', 's', 'e'] {
                    Some(ModuleKindId::Noise)
                } else {
                    None
                }
            } else {
                None
            }
        } else if s[2] == 'l' {
            if s == seq!['d', 'e', 'l', 'a', 'y'] {
                Some(ModuleKindId::Delay)
            } else {
                None
            }
        } else if s[2] == 'm' {
            if s == seq!['c', 'v', 'm', 'i', 'x'] {
                Some(ModuleKindId::CvMix)
            } else {
                None
            }
        } else if s[2] == 'n' {
            if s == seq!['t', 'u', 'n', 'e', 'r'] {
                Some(ModuleKindId::Tuner)
            } else {
                None
            }
        } else if s[2] == 'o' {
            if s[0] == 'c' {
                if s == seq!['c', 'l', 'o', 'c', 'k'] {
                    Some(ModuleKindId::Clock)
                } else {
                    None
                }
            } else if s[0] == 's' {
                if s == seq!['s', 'c', 'o', 'p', 'e'] {
                    Some(ModuleKindId::Scope)
                } else {
                    None
                }
            } else {
                None
            }
        } else if s[2] == 'r' {
            if s == seq!['b', 'u', 'r', 's', 't'] {
                Some(ModuleKindId::Burst)
            } else {
                None
            }
        } else if s[2] == 't' {
            if s == seq!['m', 'a', 't', 'h', 's'] {
                Some(ModuleKindId::Maths)
            } else {
                None
            }
        } else if s[2] == 'u' {
            if s == seq!['p', 'l', 'u', 'c', 'k'] {
                Some(ModuleKindId::Pluck)
            } else {
                None
            }
        } else if s[2] == 'v' {
            if s == seq!['w', 't', 'v', 'c', 'o'] {
                Some(ModuleKindId::WtVco)
            } else {
                None
            }
        } else if s[2] == 'x' {
            if s == seq!['m', 'i', 'x', 'e', 'r'] {
                Some(ModuleKindId::Mixer)
            } else {
                None
            }
        } else {
            None
        }
    } else if s.len() == 6 {
        if s[2] == 'a' {
            if s[4] == 'e' {
                if s == seq!['p', 'h', 'a', 's', 'e', 'r'] {
                    Some(ModuleKindId::Phaser)
                } else {
                    None
                }
            } else if s[4] == 'o' {
                if s == seq!['p', 'h', 'a', 's', 'o', 'r'] {
                    Some(ModuleKindId::Phasor)
                } else {
                    None
                }
            } else {
                None
            }
        } else if s[2] == 'b' {
            if s == seq!['s', 'u', 'b', 'o', 's', 'c'] {
                Some(ModuleKindId::SubOsc)
            } else {
                None
            }
        } else if s[2] == 'c' {
            if s[0] == 'd' {
                if s == seq!['d', 'u', 'c', 'k', 'e', 'r'] {
                    Some(ModuleKindId::Ducker)
                } else {
                    None
                }
            } else if s[0] == 'e' {
                if s == seq!['e', 'u', 'c', 'l', 'i', 'd'] {
                    Some(ModuleKindId::Euclid)
                } else {
                    None
                }
            } else {
                None
            }
        } else if s[2] == 'd' {
            if s[0] == 'l' {
                if s == seq!['l', 'a', 'd', 'd', 'e', 'r'] {
                    Some(ModuleKindId::Ladder)
                } else {
                    None
                }
            } else if s[0] == 'm' {
                if s == seq!['m', 'i', 'd', 'i', 'c', 'c'] {
                    Some(ModuleKindId::MidiCc)
                } else {
                    None
                }
            } else {
                None
            }
        } else if s[2] == 'e' {
            if s == seq!['s', 't', 'e', 'r', 'e', 'o'] {
                Some(ModuleKindId::Stereo)
            } else {
                None
            }
        } else if s[2] == 'f' {
            if s == seq!['o', 'f', 'f', 's', 'e', 't'] {
                Some(ModuleKindId::Offset)
            } else {
                None
            }
        } else if s[2] == 'n' {
            if s[0] == 'm' {
                if s == seq!['m', 'i', 'n', 'm', 'a', 'x'] {
                    Some(ModuleKindId::MinMax)
                } else {
                    None
                }
            } else if s[0] == 'r' {
                if s == seq!['r', 'a', 'n', 'd', 'o', 'm'] {
                    Some(ModuleKindId::Random)
                } else {
                    None
                }
            } else {
                None
            }
        } else if s[2] == 'o' {
            if s == seq!['c', 'h', 'o', 'r', 'u', 's'] {
                Some(ModuleKindId::Chorus)
            } else {
                None
            }
        } else if s[2] == 'r' {
            if s == seq!['t', 'u', 'r', 'i', 'n', 'g'] {
                Some(ModuleKindId::Turing)
            } else {
                None
            }
        } else if s[2] == 't' {
            if s[1] == 'c' {
                if s == seq!['o', 'c', 't', 'a', 'v', 'e'] {
                    Some(ModuleKindId::Octave)
                } else {
                    None
                }
            } else if s[1] == 'u' {
                if s == seq!['o', 'u', 't', 'p', 'u', 't'] {
                    Some(ModuleKindId::Output)
                } else {
                    None
                }
            } else {
                None
            }
        } else if s[2] == 'v' {
            if s == seq!['r', 'e', 'v', 'e', 'r', 'b'] {
                Some(ModuleKindId::Reverb)
            } else {
                None
            }
        } else {
            None
        }
    } else if s.len() == 7 {
        if s[3] == 'b' {
            if s == seq!['v', 'c', 'a', 'b', 'a', 'n', 'k'] {
                Some(ModuleKindId::VcaBank)
            } else {
                None
            }
        } else if s[3] == 'c' {
            if s == seq!['r', 'a', 't', 'c', 'h', 'e', 't'] {
                Some(ModuleKindId::Ratchet)
            } else {
                None
            }
        } else if s[3] == 'e' {
            if s == seq!['n', 'o', 't', 'e', '_', 'i', 'n'] {
                Some(ModuleKindId::NoteIn)
            } else {
                None
            }
        } else if s[3] == 'g' {
            if s == seq!['r', 'i', 'n', 'g', 'm', 'o', 'd'] {
                Some(ModuleKindId::RingMod)
            } else {
                None
            }
        } else if s[3] == 'i' {
            if s == seq!['l', 'i', 'm', 'i', 't', 'e', 'r'] {
                Some(ModuleKindId::Limiter)
            } else {
                None
            }
        } else if s[3] == 'm' {
            if s[0] == 'f' {
                if s == seq!['f', 'o', 'r', 'm', 'a', 'n', 't'] {
                    Some(ModuleKindId::Formant)
                } else {
                    None
                }
            } else if s[0] == 's' {
                if s == seq!['s', 'h', 'i', 'm', 'm', 'e', 'r'] {
                    Some(ModuleKindId::Shimmer)
                } else {
                    None
                }
            } else if s[0] == 't' {
                if s == seq!['t', 'r', 'e', 'm', 'o', 'l', 'o'] {
                    Some(ModuleKindId::Tremolo)
                } else {
                    None
                }
            } else {
                None
            }
        } else if s[3] == 'n' {
            if s == seq!['f', 'l', 'a', 'n', 'g', 'e', 'r'] {
                Some(ModuleKindId::Flanger)
            } else {
                None
            }
        } else if s[3] == 'o' {
            if s[0] == 'a' {
                if s == seq!['a', 'u', 't', 'o', 'w', 'a', 'h'] {
                    Some(ModuleKindId::AutoWah)
                } else {
                    None
                }
            } else if s[0] == 'v' {
                if s == seq!['v', 'o', 'c', 'o', 'd', 'e', 'r'] {
                    Some(ModuleKindId::Vocoder)
                } else {
                    None
                }
            } else {
                None
            }
        } else if s[3] == 'r' {
            if s == seq!['v', 'i', 'b', 'r', 'a', 't', 'o'] {
                Some(ModuleKindId::Vibrato)
            } else {
                None
            }
        } else if s[3] == 't' {
            if s == seq!['r', 'e', 'c', 't', 'i', 'f', 'y'] {
                Some(ModuleKindId::Rectify)
            } else {
                None
            }
        } else {
            None
        }
    } else if s.len() == 8 {
        if s[6] == 'a' {
            if s == seq!['s', 'u', 'p', 'e', 'r', 's', 'a', 'w'] {
                Some(ModuleKindId::Supersaw)
            } else {
                None
            }
        } else if s[6] == 'i' {
            if s == seq!['c', 'l', 'o', 'c', 'k', 'd', 'i', 'v'] {
                Some(ModuleKindId::ClockDiv)
            } else {
                None
            }
        } else if s[6] == 'l' {
            if s == seq!['w', 'a', 'v', 'e', 'f', 'o', 'l', 'd'] {
                Some(ModuleKindId::Wavefold)
            } else {
                None
            }
        } else if s[6] == 'n' {
            if s == seq!['p', 'i', 'n', 'g', 'p', 'o', 'n', 'g'] {
                Some(ModuleKindId::PingPong)
            } else {
                None
            }
        } else if s[6] == 'o' {
            if s == seq!['t', 'r', 'i', 'g', 't', 'o', 'o', 'l'] {
                Some(ModuleKindId::TrigTool)
            } else {
                None
            }
        } else if s[6] == 's' {
            if s[0] == 'b' {
                if s == seq!['b', 'i', 't', 'c', 'r', 'u', 's', 'h'] {
                    Some(ModuleKindId::BitCrush)
                } else {
                    None
                }
            } else if s[0] == 'c' {
                if s == seq!['c', 'h', 'o', 'r', 'd', 'o', 's', 'c'] {
                    Some(ModuleKindId::ChordOsc)
                } else {
                    None
                }
            } else {
                None
            }
        } else if s[6] == 't' {
            if s == seq!['s', 'a', 't', 'u', 'r', 'a', 't', 'e'] {
                Some(ModuleKindId::Saturator)
            } else {
                None
            }
        } else if s[6] == 'u' {
            if s == seq!['s', 'p', 'e', 'c', 't', 'r', 'u', 'm'] {
                Some(ModuleKindId::Spectrum)
            } else {
                None
            }
        } else if s[6] == 'v' {
            if s == seq!['a', 'd', 'd', 'i', 't', 'i', 'v', 'e'] {
                Some(ModuleKindId::Additive)
            } else {
                None
            }
        } else {
            None
        }
    } else if s.len() == 9 {
        if s[0] == 'b' {
            if s == seq!['b', 'e', 'r', 'n', 'o', 'u', 'l', 'l', 'i'] {
                Some(ModuleKindId::Bernoulli)
            } else {
                None
            }
        } else if s[0] == 'c' {
            if s[1] == 'l' {
                if s == seq!['c', 'l', 'o', 'c', 'k', 'm', 'u', 'l', 't'] {
                    Some(ModuleKindId::ClockMult)
                } else {
                    None
                }
            } else if s[1] == 'r' {
                if s == seq!['c', 'r', 'o', 's', 's', 'f', 'a', 'd', 'e'] {
                    Some(ModuleKindId::Crossfade)
                } else {
                    None
                }
            } else {
                None
            }
        } else if s[0] == 'e' {
            if s == seq!['e', 'n', 'v', 'f', 'o', 'l', 'l', 'o', 'w'] {
                Some(ModuleKindId::EnvFollow)
            } else {
                None
            }
        } else if s[0] == 'f' {
            if s == seq!['f', 'r', 'e', 'q', 's', 'h', 'i', 'f', 't'] {
                Some(ModuleKindId::FreqShift)
            } else {
                None
            }
        } else if s[0] == 'g' {
            if s == seq!['g', 'a', 't', 'e', 'd', 'e', 'l', 'a', 'y'] {
                Some(ModuleKindId::GateDelay)
            } else {
                None
            }
        } else if s[0] == 'm' {
            if s == seq!['m', 'a', 'c', 'r', 'o', '_', 'o', 's', 'c'] {
                Some(ModuleKindId::MacroOsc)
            } else {
                None
            }
        } else if s[0] == 'q' {
            if s == seq!['q', 'u', 'a', 'n', 't', 'i', 'z', 'e', 'r'] {
                Some(ModuleKindId::Quantizer)
            } else {
                None
            }
        } else if s[0] == 'r' {
            if s == seq!['r', 'e', 's', 'o', 'n', 'a', 't', 'o', 'r'] {
                Some(ModuleKindId::Resonator)
            } else {
                None
            }
        } else if s[0] == 's' {
            if s == seq!['s', 'e', 'q', 's', 'w', 'i', 't', 'c', 'h'] {
                Some(ModuleKindId::SeqSwitch)
            } else {
                None
            }
        } else if s[0] == 't' {
            if s[3] == 'c' {
                if s == seq!['t', 'r', 'a', 'c', 'k', 'h', 'o', 'l', 'd'] {
                    Some(ModuleKindId::TrackHold)
                } else {
                    None
                }
            } else if s[3] == 'e' {
                if s == seq!['t', 'a', 'p', 'e', 'd', 'e', 'l', 'a', 'y'] {
                    Some(ModuleKindId::TapeDelay)
                } else {
                    None
                }
            } else if s[3] == 'n' {
                if s == seq!['t', 'r', 'a', 'n', 's', 'i', 'e', 'n', 't'] {
                    Some(ModuleKindId::Transient)
                } else {
                    None
                }
            } else {
                None
            }
        } else if s[0] == 'v' {
            if s == seq!['v', 'o', 'l', 't', 'm', 'e', 't', 'e', 'r'] {
                Some(ModuleKindId::Voltmeter)
            } else {
                None
            }
        } else {
            None
        }
    } else if s.len() == 10 {
        if s[4] == 'a' {
            if s == seq!['c', 'o', 'm', 'p', 'a', 'r', 'a', 't', 'o', 'r'] {
                Some(ModuleKindId::Comparator)
            } else {
                None
            }
        } else if s[4] == 'f' {
            if s == seq!['d', 'u', 'a', 'l', 'f', 'i', 'l', 't', 'e', 'r'] {
                Some(ModuleKindId::DualFilter)
            } else {
                None
            }
        } else if s[4] == 'h' {
            if s == seq!['p', 'i', 't', 'c', 'h', 's', 'h', 'i', 'f', 't'] {
                Some(ModuleKindId::PitchShift)
            } else {
                None
            }
        } else if s[4] == 'l' {
            if s == seq!['c', 'o', 'm', 'p', 'l', 'e', 'x', 'l', 'f', 'o'] {
                Some(ModuleKindId::ComplexLfo)
            } else {
                None
            }
        } else if s[4] == 'r' {
            if s == seq!['c', 'o', 'm', 'p', 'r', 'e', 's', 's', 'o', 'r'] {
                Some(ModuleKindId::Compressor)
            } else {
                None
            }
        } else {
            None
        }
    } else {
        None
    }
}

/// A port descriptor: the port's name.
pub struct PortDesc {
    pub name: &'static str,
}

/// Build a port descriptor.
pub fn port(name: &'static str) -> (r: PortDesc)
    ensures
        r.name == name,
{
    PortDesc { name }
}

/// Names of a list of ports.
pub open spec fn port_names(v: Seq<PortDesc>) -> Seq<Seq<char>> {
    v.map_values(|p: PortDesc| p.name@)
}

/// Static description of a module kind.
pub struct ModuleDesc {
    pub kind: ModuleKindId,
    /// Display name.
    pub name: &'static str,
    /// Stable serialization key.
    pub serial_name: &'static str,
    pub inputs: Vec<PortDesc>,
    pub outputs: Vec<PortDesc>,
}

impl ModuleKindId {
    /// Every kind, in wire-id order.
    pub fn all() -> (r: Vec<ModuleKindId>)
        ensures
            r@.len() == N_KINDS,
            forall|i: int| 0 <= i < N_KINDS ==> kind_id(#[trigger] r@[i]) == i,
    {
        let mut r: Vec<ModuleKindId> = Vec::with_capacity(N_KINDS);
        r.push(ModuleKindId::Vco);
        r.push(ModuleKindId::Vcf);
        r.push(ModuleKindId::Vca);
        r.push(ModuleKindId::Adsr);
        r.push(ModuleKindId::Lfo);
        r.push(ModuleKindId::Mixer);
        r.push(ModuleKindId::Output);
        r.push(ModuleKindId::NoteIn);
        r.push(ModuleKindId::Clock);
        r.push(ModuleKindId::Seq8);
        r.push(ModuleKindId::Delay);
        r.push(ModuleKindId::Noise);
        r.push(ModuleKindId::SampleHold);
        r.push(ModuleKindId::Attenuverter);
        r.push(ModuleKindId::Waveshaper);
        r.push(ModuleKindId::WtVco);
        r.push(ModuleKindId::Random);
        r.push(ModuleKindId::Quantizer);
        r.push(ModuleKindId::ClockDiv);
        r.push(ModuleKindId::Mult);
        r.push(ModuleKindId::Logic);
        r.push(ModuleKindId::Slew);
        r.push(ModuleKindId::Reverb);
        r.push(ModuleKindId::Chorus);
        r.push(ModuleKindId::Phaser);
        r.push(ModuleKindId::FmOp);
        r.push(ModuleKindId::Additive);
        r.push(ModuleKindId::Drum);
        r.push(ModuleKindId::RingMod);
        r.push(ModuleKindId::BitCrush);
        r.push(ModuleKindId::Comb);
        r.push(ModuleKindId::Formant);
        r.push(ModuleKindId::Maths);
        r.push(ModuleKindId::ComplexLfo);
        r.push(ModuleKindId::EnvFollow);
        r.push(ModuleKindId::CvMix);
        r.push(ModuleKindId::Octave);
        r.push(ModuleKindId::Euclid);
        r.push(ModuleKindId::Bernoulli);
        r.push(ModuleKindId::Turing);
        r.push(ModuleKindId::SeqSwitch);
        r.push(ModuleKindId::Crossfade);
        r.push(ModuleKindId::VcaBank);
        r.push(ModuleKindId::Pan);
        r.push(ModuleKindId::Compressor);
        r.push(ModuleKindId::MacroOsc);
        r.push(ModuleKindId::Lpg);
        r.push(ModuleKindId::Ladder);
        r.push(ModuleKindId::Saturator);
        r.push(ModuleKindId::Flanger);
        r.push(ModuleKindId::PingPong);
        r.push(ModuleKindId::ParamEq);
        r.push(ModuleKindId::Limiter);
        r.push(ModuleKindId::Stereo);
        r.push(ModuleKindId::Comparator);
        r.push(ModuleKindId::Rectify);
        r.push(ModuleKindId::Arp);
        r.push(ModuleKindId::ClockMult);
        r.push(ModuleKindId::GateDelay);
        r.push(ModuleKindId::Burst);
        r.push(ModuleKindId::TrigTool);
        r.push(ModuleKindId::Voltmeter);
        r.push(ModuleKindId::Tuner);
        r.push(ModuleKindId::MidiCc);
        r.push(ModuleKindId::SubOsc);
        r.push(ModuleKindId::Supersaw);
        r.push(ModuleKindId::Pluck);
        r.push(ModuleKindId::Wavefold);
        r.push(ModuleKindId::ChordOsc);
        r.push(ModuleKindId::Resonator);
        r.push(ModuleKindId::SvfMulti);
        r.push(ModuleKindId::AutoWah);
        r.push(ModuleKindId::DualFilter);
        r.push(ModuleKindId::Drive);
        r.push(ModuleKindId::Transient);
        r.push(ModuleKindId::Ducker);
        r.push(ModuleKindId::Gate);
        r.push(ModuleKindId::Tremolo);
        r.push(ModuleKindId::Vibrato);
        r.push(ModuleKindId::TapeDelay);
        r.push(ModuleKindId::PitchShift);
        r.push(ModuleKindId::FreqShift);
        r.push(ModuleKindId::Shimmer);
        r.push(ModuleKindId::Vocoder);
        r.push(ModuleKindId::Offset);
        r.push(ModuleKindId::TrackHold);
        r.push(ModuleKindId::Phasor);
        r.push(ModuleKindId::MinMax);
        r.push(ModuleKindId::Beats);
        r.push(ModuleKindId::Ratchet);
        r.push(ModuleKindId::Scope);
        r.push(ModuleKindId::Spectrum);
        r
    }

    /// The kind's wire id.
    pub fn id(self) -> (r: u16)
        ensures
            r == kind_id(self),
    {
        match self {
            ModuleKindId::Vco => 0,
            ModuleKindId::Vcf => 1,
            ModuleKindId::Vca => 2,
            ModuleKindId::Adsr => 3,
            ModuleKindId::Lfo => 4,
            ModuleKindId::Mixer => 5,
            ModuleKindId::Output => 6,
            ModuleKindId::NoteIn => 7,
            ModuleKindId::Clock => 8,
            ModuleKindId::Seq8 => 9,
            ModuleKindId::Delay => 10,
            ModuleKindId::Noise => 11,
            ModuleKindId::SampleHold => 12,
            ModuleKindId::Attenuverter => 13,
            ModuleKindId::Waveshaper => 14,
            ModuleKindId::WtVco => 15,
            ModuleKindId::Random => 16,
            ModuleKindId::Quantizer => 17,
            ModuleKindId::ClockDiv => 18,
            ModuleKindId::Mult => 19,
            ModuleKindId::Logic => 20,
            ModuleKindId::Slew => 21,
            ModuleKindId::Reverb => 22,
            ModuleKindId::Chorus => 23,
            ModuleKindId::Phaser => 24,
            ModuleKindId::FmOp => 25,
            ModuleKindId::Additive => 26,
            ModuleKindId::Drum => 27,
            ModuleKindId::RingMod => 28,
            ModuleKindId::BitCrush => 29,
            ModuleKindId::Comb => 30,
            ModuleKindId::Formant => 31,
            ModuleKindId::Maths => 32,
            ModuleKindId::ComplexLfo => 33,
            ModuleKindId::EnvFollow => 34,
            ModuleKindId::CvMix => 35,
            ModuleKindId::Octave => 36,
            ModuleKindId::Euclid => 37,
            ModuleKindId::Bernoulli => 38,
            ModuleKindId::Turing => 39,
            ModuleKindId::SeqSwitch => 40,
            ModuleKindId::Crossfade => 41,
            ModuleKindId::VcaBank => 42,
            ModuleKindId::Pan => 43,
            ModuleKindId::Compressor => 44,
            ModuleKindId::MacroOsc => 45,
            ModuleKindId::Lpg => 46,
            ModuleKindId::Ladder => 47,
            ModuleKindId::Saturator => 48,
            ModuleKindId::Flanger => 49,
            ModuleKindId::PingPong => 50,
            ModuleKindId::ParamEq => 51,
            ModuleKindId::Limiter => 52,
            ModuleKindId::Stereo => 53,
            ModuleKindId::Comparator => 54,
            ModuleKindId::Rectify => 55,
            ModuleKindId::Arp => 56,
            ModuleKindId::ClockMult => 57,
            ModuleKindId::GateDelay => 58,
            ModuleKindId::Burst => 59,
            ModuleKindId::TrigTool => 60,
            ModuleKindId::Voltmeter => 61,
            ModuleKindId::Tuner => 62,
            ModuleKindId::MidiCc => 63,
            ModuleKindId::SubOsc => 64,
            ModuleKindId::Supersaw => 65,
            ModuleKindId::Pluck => 66,
            ModuleKindId::Wavefold => 67,
            ModuleKindId::ChordOsc => 68,
            ModuleKindId::Resonator => 69,
            ModuleKindId::SvfMulti => 70,
            ModuleKindId::AutoWah => 71,
            ModuleKindId::DualFilter => 72,
            ModuleKindId::Drive => 73,
            ModuleKindId::Transient => 74,
            ModuleKindId::Ducker => 75,
            ModuleKindId::Gate => 76,
            ModuleKindId::Tremolo => 77,
            ModuleKindId::Vibrato => 78,
            ModuleKindId::TapeDelay => 79,
            ModuleKindId::PitchShift => 80,
            ModuleKindId::FreqShift => 81,
            ModuleKindId::Shimmer => 82,
            ModuleKindId::Vocoder => 83,
            ModuleKindId::Offset => 84,
            ModuleKindId::TrackHold => 85,
            ModuleKindId::Phasor => 86,
            ModuleKindId::MinMax => 87,
            ModuleKindId::Beats => 88,
            ModuleKindId::Ratchet => 89,
            ModuleKindId::Scope => 90,
            ModuleKindId::Spectrum => 91,
        }
    }

    /// The kind with wire id `v`; ids past the last kind are not kinds.
    pub fn from_u16(v: u16) -> (r: Option<ModuleKindId>)
        ensures
            r == kind_of_id(v),
            r is Some <==> v < N_KINDS,
    {
        match v {
            0 => Some(ModuleKindId::Vco),
            1 => Some(ModuleKindId::Vcf),
            2 => Some(ModuleKindId::Vca),
            3 => Some(ModuleKindId::Adsr),
            4 => Some(ModuleKindId::Lfo),
            5 => Some(ModuleKindId::Mixer),
            6 => Some(ModuleKindId::Output),
            7 => Some(ModuleKindId::NoteIn),
            8 => Some(ModuleKindId::Clock),
            9 => Some(ModuleKindId::Seq8),
            10 => Some(ModuleKindId::Delay),
            11 => Some(ModuleKindId::Noise),
            12 => Some(ModuleKindId::SampleHold),
            13 => Some(ModuleKindId::Attenuverter),
            14 => Some(ModuleKindId::Waveshaper),
            15 => Some(ModuleKindId::WtVco),
            16 => Some(ModuleKindId::Random),
            17 => Some(ModuleKindId::Quantizer),
            18 => Some(ModuleKindId::ClockDiv),
            19 => Some(ModuleKindId::Mult),
            20 => Some(ModuleKindId::Logic),
            21 => Some(ModuleKindId::Slew),
            22 => Some(ModuleKindId::Reverb),
            23 => Some(ModuleKindId::Chorus),
            24 => Some(ModuleKindId::Phaser),
            25 => Some(ModuleKindId::FmOp),
            26 => Some(ModuleKindId::Additive),
            27 => Some(ModuleKindId::Drum),
            28 => Some(ModuleKindId::RingMod),
            29 => Some(ModuleKindId::BitCrush),
            30 => Some(ModuleKindId::Comb),
            31 => Some(ModuleKindId::Formant),
            32 => Some(ModuleKindId::Maths),
            33 => Some(ModuleKindId::ComplexLfo),
            34 => Some(ModuleKindId::EnvFollow),
            35 => Some(ModuleKindId::CvMix),
            36 => Some(ModuleKindId::Octave),
            37 => Some(ModuleKindId::Euclid),
            38 => Some(ModuleKindId::Bernoulli),
            39 => Some(ModuleKindId::Turing),
            40 => Some(ModuleKindId::SeqSwitch),
            41 => Some(ModuleKindId::Crossfade),
            42 => Some(ModuleKindId::VcaBank),
            43 => Some(ModuleKindId::Pan),
            44 => Some(ModuleKindId::Compressor),
            45 => Some(ModuleKindId::MacroOsc),
            46 => Some(ModuleKindId::Lpg),
            47 => Some(ModuleKindId::Ladder),
            48 => Some(ModuleKindId::Saturator),
            49 => Some(ModuleKindId::Flanger),
            50 => Some(ModuleKindId::PingPong),
            51 => Some(ModuleKindId::ParamEq),
            52 => Some(ModuleKindId::Limiter),
            53 => Some(ModuleKindId::Stereo),
            54 => Some(ModuleKindId::Comparator),
            55 => Some(ModuleKindId::Rectify),
            56 => Some(ModuleKindId::Arp),
            57 => Some(ModuleKindId::ClockMult),
            58 => Some(ModuleKindId::GateDelay),
            59 => Some(ModuleKindId::Burst),
            60 => Some(ModuleKindId::TrigTool),
            61 => Some(ModuleKindId::Voltmeter),
            62 => Some(ModuleKindId::Tuner),
            63 => Some(ModuleKindId::MidiCc),
            64 => Some(ModuleKindId::SubOsc),
            65 => Some(ModuleKindId::Supersaw),
            66 => Some(ModuleKindId::Pluck),
            67 => Some(ModuleKindId::Wavefold),
            68 => Some(ModuleKindId::ChordOsc),
            69 => Some(ModuleKindId::Resonator),
            70 => Some(ModuleKindId::SvfMulti),
            71 => Some(ModuleKindId::AutoWah),
            72 => Some(ModuleKindId::DualFilter),
            73 => Some(ModuleKindId::Drive),
            74 => Some(ModuleKindId::Transient),
            75 => Some(ModuleKindId::Ducker),
            76 => Some(ModuleKindId::Gate),
            77 => Some(ModuleKindId::Tremolo),
            78 => Some(ModuleKindId::Vibrato),
            79 => Some(ModuleKindId::TapeDelay),
            80 => Some(ModuleKindId::PitchShift),
            81 => Some(ModuleKindId::FreqShift),
            82 => Some(ModuleKindId::Shimmer),
            83 => Some(ModuleKindId::Vocoder),
            84 => Some(ModuleKindId::Offset),
            85 => Some(ModuleKindId::TrackHold),
            86 => Some(ModuleKindId::Phasor),
            87 => Some(ModuleKindId::MinMax),
            88 => Some(ModuleKindId::Beats),
            89 => Some(ModuleKindId::Ratchet),
            90 => Some(ModuleKindId::Scope),
            91 => Some(ModuleKindId::Spectrum),
            _ => None,
        }
    }

    /// Stable string for patch serialization.
    pub fn serial_name(self) -> (r: &'static str)
        ensures
            r@ == spec_serial_name(self),
    {
        match self {
            ModuleKindId::Vco => {
                proof {
                    reveal_strlit("vco");
                }
                "vco"
            },
            ModuleKindId::Vcf => {
                proof {
                    reveal_strlit("vcf");
                }
                "vcf"
            },
            ModuleKindId::Vca => {
                proof {
                    reveal_strlit("vca");
                }
                "vca"
            },
            ModuleKindId::Adsr => {
                proof {
                    reveal_strlit("adsr");
                }
                "adsr"
            },
            ModuleKindId::Lfo => {
                proof {
                    reveal_strlit("lfo");
                }
                "lfo"
            },
            ModuleKindId::Mixer => {
                proof {
                    reveal_strlit("mixer");
                }
                "mixer"
            },
            ModuleKindId::Output => {
                proof {
                    reveal_strlit("output");
                }
                "output"
            },
            ModuleKindId::NoteIn => {
                proof {
                    reveal_strlit("note_in");
                }
                "note_in"
            },
            ModuleKindId::Clock => {
                proof {
                    reveal_strlit("clock");
                }
                "clock"
            },
            ModuleKindId::Seq8 => {
                proof {
                    reveal_strlit("seq8");
                }
                "seq8"
            },
            ModuleKindId::Delay => {
                proof {
                    reveal_strlit("delay");
                }
                "delay"
            },
            ModuleKindId::Noise => {
                proof {
                    reveal_strlit("noise");
                }
                "noise"
            },
            ModuleKindId::SampleHold => {
                proof {
                    reveal_strlit("snh");
                }
                "snh"
            },
            ModuleKindId::Attenuverter => {
                proof {
                    reveal_strlit("attn");
                }
                "attn"
            },
            ModuleKindId::Waveshaper => {
                proof {
                    reveal_strlit("shape");
                }
                "shape"
            },
            ModuleKindId::WtVco => {
                proof {
                    reveal_strlit("wtvco");
                }
                "wtvco"
            },
            ModuleKindId::Random => {
                proof {
                    reveal_strlit("random");
                }
                "random"
            },
            ModuleKindId::Quantizer => {
                proof {
                    reveal_strlit("quantizer");
                }
                "quantizer"
            },
            ModuleKindId::ClockDiv => {
                proof {
                    reveal_strlit("clockdiv");
                }
                "clockdiv"
            },
            ModuleKindId::Mult => {
                proof {
                    reveal_strlit("mult");
                }
                "mult"
            },
            ModuleKindId::Logic => {
                proof {
                    reveal_strlit("logic");
                }
                "logic"
            },
            ModuleKindId::Slew => {
                proof {
                    reveal_strlit("slew");
                }
                "slew"
            },
            ModuleKindId::Reverb => {
                proof {
                    reveal_strlit("reverb");
                }
                "reverb"
            },
            ModuleKindId::Chorus => {
                proof {
                    reveal_strlit("chorus");
                }
                "chorus"
            },
            ModuleKindId::Phaser => {
                proof {
                    reveal_strlit("phaser");
                }
                "phaser"
            },
            ModuleKindId::FmOp => {
                proof {
                    reveal_strlit("fmop");
                }
                "fmop"
            },
            ModuleKindId::Additive => {
                proof {
                    reveal_strlit("additive");
                }
                "additive"
            },
            ModuleKindId::Drum => {
                proof {
                    reveal_strlit("drum");
                }
                "drum"
            },
            ModuleKindId::RingMod => {
                proof {
                    reveal_strlit("ringmod");
                }
                "ringmod"
            },
            ModuleKindId::BitCrush => {
                proof {
                    reveal_strlit("bitcrush");
                }
                "bitcrush"
            },
            ModuleKindId::Comb => {
                proof {
                    reveal_strlit("comb");
                }
                "comb"
            },
            ModuleKindId::Formant => {
                proof {
                    reveal_strlit("formant");
                }
                "formant"
            },
            ModuleKindId::Maths => {
                proof {
                    reveal_strlit("maths");
                }
                "maths"
            },
            ModuleKindId::ComplexLfo => {
                proof {
                    reveal_strlit("complexlfo");
                }
                "complexlfo"
            },
            ModuleKindId::EnvFollow => {
                proof {
                    reveal_strlit("envfollow");
                }
                "envfollow"
            },
            ModuleKindId::CvMix => {
                proof {
                    reveal_strlit("cvmix");
                }
                "cvmix"
            },
            ModuleKindId::Octave => {
                proof {
                    reveal_strlit("octave");
                }
                "octave"
            },
            ModuleKindId::Euclid => {
                proof {
                    reveal_strlit("euclid");
                }
                "euclid"
            },
            ModuleKindId::Bernoulli => {
                proof {
                    reveal_strlit("bernoulli");
                }
                "bernoulli"
            },
            ModuleKindId::Turing => {
                proof {
                    reveal_strlit("turing");
                }
                "turing"
            },
            ModuleKindId::SeqSwitch => {
                proof {
                    reveal_strlit("seqswitch");
                }
                "seqswitch"
            },
            ModuleKindId::Crossfade => {
                proof {
                    reveal_strlit("crossfade");
                }
                "crossfade"
            },
            ModuleKindId::VcaBank => {
                proof {
                    reveal_strlit("vcabank");
                }
                "vcabank"
            },
            ModuleKindId::Pan => {
                proof {
                    reveal_strlit("pan");
                }
                "pan"
            },
            ModuleKindId::Compressor => {
                proof {
                    reveal_strlit("compressor");
                }
                "compressor"
            },
            ModuleKindId::MacroOsc => {
                proof {
                    reveal_strlit("macro_osc");
                }
                "macro_osc"
            },
            ModuleKindId::Lpg => {
                proof {
                    reveal_strlit("lpg");
                }
                "lpg"
            },
            ModuleKindId::Ladder => {
                proof {
                    reveal_strlit("ladder");
                }
                "ladder"
            },
            ModuleKindId::Saturator => {
                proof {
                    reveal_strlit("saturate");
                }
                "saturate"
            },
            ModuleKindId::Flanger => {
                proof {
                    reveal_strlit("flanger");
                }
                "flanger"
            },
            ModuleKindId::PingPong => {
                proof {
                    reveal_strlit("pingpong");
                }
                "pingpong"
            },
            ModuleKindId::ParamEq => {
                proof {
                    reveal_strlit("eq");
                }
                "eq"
            },
            ModuleKindId::Limiter => {
                proof {
                    reveal_strlit("limiter");
                }
                "limiter"
            },
            ModuleKindId::Stereo => {
                proof {
                    reveal_strlit("stereo");
                }
                "stereo"
            },
            ModuleKindId::Comparator => {
                proof {
                    reveal_strlit("comparator");
                }
                "comparator"
            },
            ModuleKindId::Rectify => {
                proof {
                    reveal_strlit("rectify");
                }
                "rectify"
            },
            ModuleKindId::Arp => {
                proof {
                    reveal_strlit("arp");
                }
                "arp"
            },
            ModuleKindId::ClockMult => {
                proof {
                    reveal_strlit("clockmult");
                }
                "clockmult"
            },
            ModuleKindId::GateDelay => {
                proof {
                    reveal_strlit("gatedelay");
                }
                "gatedelay"
            },
            ModuleKindId::Burst => {
                proof {
                    reveal_strlit("burst");
                }
                "burst"
            },
            ModuleKindId::TrigTool => {
                proof {
                    reveal_strlit("trigtool");
                }
                "trigtool"
            },
            ModuleKindId::Voltmeter => {
                proof {
                    reveal_strlit("voltmeter");
                }
                "voltmeter"
            },
            ModuleKindId::Tuner => {
                proof {
                    reveal_strlit("tuner");
                }
                "tuner"
            },
            ModuleKindId::MidiCc => {
                proof {
                    reveal_strlit("midicc");
                }
                "midicc"
            },
            ModuleKindId::SubOsc => {
                proof {
                    reveal_strlit("subosc");
                }
                "subosc"
            },
            ModuleKindId::Supersaw => {
                proof {
                    reveal_strlit("supersaw");
                }
                "supersaw"
            },
            ModuleKindId::Pluck => {
                proof {
                    reveal_strlit("pluck");
                }
                "pluck"
            },
            ModuleKindId::Wavefold => {
                proof {
                    reveal_strlit("wavefold");
                }
                "wavefold"
            },
            ModuleKindId::ChordOsc => {
                proof {
                    reveal_strlit("chordosc");
                }
                "chordosc"
            },
            ModuleKindId::Resonator => {
                proof {
                    reveal_strlit("resonator");
                }
                "resonator"
            },
            ModuleKindId::SvfMulti => {
                proof {
                    reveal_strlit("svf");
                }
                "svf"
            },
            ModuleKindId::AutoWah => {
                proof {
                    reveal_strlit("autowah");
                }
                "autowah"
            },
            ModuleKindId::DualFilter => {
                proof {
                    reveal_strlit("dualfilter");
                }
                "dualfilter"
            },
            ModuleKindId::Drive => {
                proof {
                    reveal_strlit("drive");
                }
                "drive"
            },
            ModuleKindId::Transient => {
                proof {
                    reveal_strlit("transient");
                }
                "transient"
            },
            ModuleKindId::Ducker => {
                proof {
                    reveal_strlit("ducker");
                }
                "ducker"
            },
            ModuleKindId::Gate => {
                proof {
                    reveal_strlit("gate");
                }
                "gate"
            },
            ModuleKindId::Tremolo => {
                proof {
                    reveal_strlit("tremolo");
                }
                "tremolo"
            },
            ModuleKindId::Vibrato => {
                proof {
                    reveal_strlit("vibrato");
                }
                "vibrato"
            },
            ModuleKindId::TapeDelay => {
                proof {
                    reveal_strlit("tapedelay");
                }
                "tapedelay"
            },
            ModuleKindId::PitchShift => {
                proof {
                    reveal_strlit("pitchshift");
                }
                "pitchshift"
            },
            ModuleKindId::FreqShift => {
                proof {
                    reveal_strlit("freqshift");
                }
                "freqshift"
            },
            ModuleKindId::Shimmer => {
                proof {
                    reveal_strlit("shimmer");
                }
                "shimmer"
            },
            ModuleKindId::Vocoder => {
                proof {
                    reveal_strlit("vocoder");
                }
                "vocoder"
            },
            ModuleKindId::Offset => {
                proof {
                    reveal_strlit("offset");
                }
                "offset"
            },
            ModuleKindId::TrackHold => {
                proof {
                    reveal_strlit("trackhold");
                }
                "trackhold"
            },
            ModuleKindId::Phasor => {
                proof {
                    reveal_strlit("phasor");
                }
                "phasor"
            },
            ModuleKindId::MinMax => {
                proof {
                    reveal_strlit("minmax");
                }
                "minmax"
            },
            ModuleKindId::Beats => {
                proof {
                    reveal_strlit("beats");
                }
                "beats"
            },
            ModuleKindId::Ratchet => {
                proof {
                    reveal_strlit("ratchet");
                }
                "ratchet"
            },
            ModuleKindId::Scope => {
                proof {
                    reveal_strlit("scope");
                }
                "scope"
            },
            ModuleKindId::Spectrum => {
                proof {
                    reveal_strlit("spectrum");
                }
                "spectrum"
            },
        }
    }

    /// Display name.
    pub fn name(self) -> (r: &'static str)
        ensures
            r@ == spec_display_name(self),
    {
        match self {
            ModuleKindId::Vco => "VCO",
            ModuleKindId::Vcf => "VCF",
            ModuleKindId::Vca => "VCA",
            ModuleKindId::Adsr => "ADSR",
            ModuleKindId::Lfo => "LFO",
            ModuleKindId::Mixer => "MIXER",
            ModuleKindId::Output => "OUTPUT",
            ModuleKindId::NoteIn => "NOTES",
            ModuleKindId::Clock => "CLOCK",
            ModuleKindId::Seq8 => "SEQ-8",
            ModuleKindId::Delay => "DELAY",
            ModuleKindId::Noise => "NOISE",
            ModuleKindId::SampleHold => "S&H",
            ModuleKindId::Attenuverter => "ATTN",
            ModuleKindId::Waveshaper => "SHAPE",
            ModuleKindId::WtVco => "WT-OSC",
            ModuleKindId::Random => "RANDOM",
            ModuleKindId::Quantizer => "QUANT",
            ModuleKindId::ClockDiv => "CLK÷",
            ModuleKindId::Mult => "MULT",
            ModuleKindId::Logic => "LOGIC",
            ModuleKindId::Slew => "SLEW",
            ModuleKindId::Reverb => "REVERB",
            ModuleKindId::Chorus => "CHORUS",
            ModuleKindId::Phaser => "PHASER",
            ModuleKindId::FmOp => "FM-OSC",
            ModuleKindId::Additive => "ADDITIVE",
            ModuleKindId::Drum => "DRUM",
            ModuleKindId::RingMod => "RINGMOD",
            ModuleKindId::BitCrush => "CRUSH",
            ModuleKindId::Comb => "KARPLUS",
            ModuleKindId::Formant => "FORMANT",
            ModuleKindId::Maths => "MATHS",
            ModuleKindId::ComplexLfo => "CLX-LFO",
            ModuleKindId::EnvFollow => "ENV-FOL",
            ModuleKindId::CvMix => "CV-MIX",
            ModuleKindId::Octave => "OCTAVE",
            ModuleKindId::Euclid => "EUCLID",
            ModuleKindId::Bernoulli => "COIN",
            ModuleKindId::Turing => "TURING",
            ModuleKindId::SeqSwitch => "SWITCH",
            ModuleKindId::Crossfade => "XFADE",
            ModuleKindId::VcaBank => "VCA×4",
            ModuleKindId::Pan => "PAN",
            ModuleKindId::Compressor => "COMP",
            ModuleKindId::MacroOsc => "MACRO",
            ModuleKindId::Lpg => "LPG",
            ModuleKindId::Ladder => "LADDER",
            ModuleKindId::Saturator => "SATURATE",
            ModuleKindId::Flanger => "FLANGER",
            ModuleKindId::PingPong => "PINGPONG",
            ModuleKindId::ParamEq => "EQ",
            ModuleKindId::Limiter => "LIMITER",
            ModuleKindId::Stereo => "STEREO",
            ModuleKindId::Comparator => "COMPARE",
            ModuleKindId::Rectify => "RECTIFY",
            ModuleKindId::Arp => "ARP",
            ModuleKindId::ClockMult => "CLK×",
            ModuleKindId::GateDelay => "GATE-DLY",
            ModuleKindId::Burst => "BURST",
            ModuleKindId::TrigTool => "TRIG",
            ModuleKindId::Voltmeter => "VOLTS",
            ModuleKindId::Tuner => "TUNER",
            ModuleKindId::MidiCc => "MIDI-CC",
            ModuleKindId::SubOsc => "SUB OSC",
            ModuleKindId::Supersaw => "SUPERSAW",
            ModuleKindId::Pluck => "PLUCK",
            ModuleKindId::Wavefold => "WAVEFOLD",
            ModuleKindId::ChordOsc => "CHORD",
            ModuleKindId::Resonator => "RESONATOR",
            ModuleKindId::SvfMulti => "SVF",
            ModuleKindId::AutoWah => "AUTO-WAH",
            ModuleKindId::DualFilter => "DUAL FILTER",
            ModuleKindId::Drive => "DRIVE",
            ModuleKindId::Transient => "TRANSIENT",
            ModuleKindId::Ducker => "DUCKER",
            ModuleKindId::Gate => "GATE",
            ModuleKindId::Tremolo => "TREMOLO",
            ModuleKindId::Vibrato => "VIBRATO",
            ModuleKindId::TapeDelay => "TAPE DELAY",
            ModuleKindId::PitchShift => "PITCH SHIFT",
            ModuleKindId::FreqShift => "FREQ SHIFT",
            ModuleKindId::Shimmer => "SHIMMER",
            ModuleKindId::Vocoder => "VOCODER",
            ModuleKindId::Offset => "OFFSET",
            ModuleKindId::TrackHold => "TRACK-HOLD",
            ModuleKindId::Phasor => "PHASOR",
            ModuleKindId::MinMax => "MIN/MAX",
            ModuleKindId::Beats => "BEATS",
            ModuleKindId::Ratchet => "RATCHET",
            ModuleKindId::Scope => "SCOPE",
            ModuleKindId::Spectrum => "SPECTRUM",
        }
    }

    /// The kind's input ports, in port-index order.
    pub fn inputs(self) -> (r: Vec<PortDesc>)
        ensures
            port_names(r@) == spec_inputs(self),
    {
        let r = match self {
            ModuleKindId::Vco => vec![port("v/oct"), port("pwm")],
            ModuleKindId::Vcf => vec![port("in"), port("cutoff cv")],
            ModuleKindId::Vca => vec![port("in"), port("cv")],
            ModuleKindId::Adsr => vec![port("gate"), port("retrig")],
            ModuleKindId::Lfo => vec![port("reset")],
            ModuleKindId::Mixer => vec![port("in 1"), port("in 2"), port("in 3"), port("in 4")],
            ModuleKindId::Output => vec![port("left"), port("right")],
            ModuleKindId::NoteIn => vec![],
            ModuleKindId::Clock => vec![],
            ModuleKindId::Seq8 => vec![port("clock"), port("reset")],
            ModuleKindId::Delay => vec![port("in")],
            ModuleKindId::Noise => vec![],
            ModuleKindId::SampleHold => vec![port("in"), port("trig")],
            ModuleKindId::Attenuverter => vec![port("in")],
            ModuleKindId::Waveshaper => vec![port("in")],
            ModuleKindId::WtVco => vec![port("v/oct"), port("pos cv")],
            ModuleKindId::Random => vec![port("trig")],
            ModuleKindId::Quantizer => vec![port("in")],
            ModuleKindId::ClockDiv => vec![port("clock"), port("reset")],
            ModuleKindId::Mult => vec![port("in")],
            ModuleKindId::Logic => vec![port("a"), port("b")],
            ModuleKindId::Slew => vec![port("in")],
            ModuleKindId::Reverb => vec![port("in")],
            ModuleKindId::Chorus => vec![port("in")],
            ModuleKindId::Phaser => vec![port("in")],
            ModuleKindId::FmOp => vec![port("v/oct"), port("fm")],
            ModuleKindId::Additive => vec![port("v/oct")],
            ModuleKindId::Drum => vec![port("trig"), port("accent")],
            ModuleKindId::RingMod => vec![port("a"), port("b")],
            ModuleKindId::BitCrush => vec![port("in")],
            ModuleKindId::Comb => vec![port("in"), port("v/oct")],
            ModuleKindId::Formant => vec![port("in"), port("vowel cv")],
            ModuleKindId::Maths => vec![port("trig")],
            ModuleKindId::ComplexLfo => vec![port("rate cv")],
            ModuleKindId::EnvFollow => vec![port("in")],
            ModuleKindId::CvMix => vec![port("a"), port("b"), port("c"), port("d")],
            ModuleKindId::Octave => vec![port("in")],
            ModuleKindId::Euclid => vec![port("clock"), port("reset")],
            ModuleKindId::Bernoulli => vec![port("trig"), port("prob cv")],
            ModuleKindId::Turing => vec![port("clock")],
            ModuleKindId::SeqSwitch => vec![port("clock"), port("reset"), port("1"), port("2"), port("3"), port("4")],
            ModuleKindId::Crossfade => vec![port("a"), port("b"), port("cv")],
            ModuleKindId::VcaBank => vec![port("in 1"), port("in 2"), port("in 3"), port("in 4"), port("cv 1"), port("cv 2"), port("cv 3"), port("cv 4")],
            ModuleKindId::Pan => vec![port("in"), port("pan cv")],
            ModuleKindId::Compressor => vec![port("in"), port("sidechain")],
            ModuleKindId::MacroOsc => vec![port("v/oct"), port("timbre cv"), port("morph cv")],
            ModuleKindId::Lpg => vec![port("in"), port("trig"), port("cv")],
            ModuleKindId::Ladder => vec![port("in"), port("cutoff cv")],
            ModuleKindId::Saturator => vec![port("in")],
            ModuleKindId::Flanger => vec![port("in")],
            ModuleKindId::PingPong => vec![port("left"), port("right")],
            ModuleKindId::ParamEq => vec![port("in")],
            ModuleKindId::Limiter => vec![port("in")],
            ModuleKindId::Stereo => vec![port("left"), port("right")],
            ModuleKindId::Comparator => vec![port("in"), port("thresh cv")],
            ModuleKindId::Rectify => vec![port("a"), port("b")],
            ModuleKindId::Arp => vec![port("clock"), port("reset")],
            ModuleKindId::ClockMult => vec![port("clock")],
            ModuleKindId::GateDelay => vec![port("in")],
            ModuleKindId::Burst => vec![port("trig")],
            ModuleKindId::TrigTool => vec![port("in")],
            ModuleKindId::Voltmeter => vec![port("in")],
            ModuleKindId::Tuner => vec![port("in")],
            ModuleKindId::MidiCc => vec![],
            ModuleKindId::SubOsc => vec![port("v/oct")],
            ModuleKindId::Supersaw => vec![port("v/oct")],
            ModuleKindId::Pluck => vec![port("v/oct"), port("trig")],
            ModuleKindId::Wavefold => vec![port("in")],
            ModuleKindId::ChordOsc => vec![port("v/oct")],
            ModuleKindId::Resonator => vec![port("in"), port("v/oct")],
            ModuleKindId::SvfMulti => vec![port("in"), port("cutoff cv")],
            ModuleKindId::AutoWah => vec![port("in")],
            ModuleKindId::DualFilter => vec![port("left"), port("right")],
            ModuleKindId::Drive => vec![port("in")],
            ModuleKindId::Transient => vec![port("in")],
            ModuleKindId::Ducker => vec![port("in"), port("key")],
            ModuleKindId::Gate => vec![port("in")],
            ModuleKindId::Tremolo => vec![port("in")],
            ModuleKindId::Vibrato => vec![port("in")],
            ModuleKindId::TapeDelay => vec![port("in")],
            ModuleKindId::PitchShift => vec![port("in")],
            ModuleKindId::FreqShift => vec![port("in")],
            ModuleKindId::Shimmer => vec![port("in")],
            ModuleKindId::Vocoder => vec![port("carrier"), port("mod")],
            ModuleKindId::Offset => vec![port("in")],
            ModuleKindId::TrackHold => vec![port("in"), port("gate")],
            ModuleKindId::Phasor => vec![port("clock"), port("reset")],
            ModuleKindId::MinMax => vec![port("a"), port("b"), port("c")],
            ModuleKindId::Beats => vec![port("clock"), port("reset")],
            ModuleKindId::Ratchet => vec![port("clock"), port("reset")],
            ModuleKindId::Scope => vec![port("in")],
            ModuleKindId::Spectrum => vec![port("in")],
        };
        assert(port_names(r@) =~= spec_inputs(self));
        r
    }

    /// The kind's output ports, in port-index order.
    pub fn outputs(self) -> (r: Vec<PortDesc>)
        ensures
            port_names(r@) == spec_outputs(self),
    {
        let r = match self {
            ModuleKindId::Vco => vec![port("out")],
            ModuleKindId::Vcf => vec![port("out")],
            ModuleKindId::Vca => vec![port("out")],
            ModuleKindId::Adsr => vec![port("env")],
            ModuleKindId::Lfo => vec![port("out")],
            ModuleKindId::Mixer => vec![port("out")],
            ModuleKindId::Output => vec![],
            ModuleKindId::NoteIn => vec![port("v/oct"), port("gate"), port("velocity"), port("retrig")],
            ModuleKindId::Clock => vec![port("out"), port("/2"), port("/4")],
            ModuleKindId::Seq8 => vec![port("v/oct"), port("gate")],
            ModuleKindId::Delay => vec![port("out")],
            ModuleKindId::Noise => vec![port("out")],
            ModuleKindId::SampleHold => vec![port("out")],
            ModuleKindId::Attenuverter => vec![port("out")],
            ModuleKindId::Waveshaper => vec![port("out")],
            ModuleKindId::WtVco => vec![port("out")],
            ModuleKindId::Random => vec![port("stepped"), port("smooth")],
            ModuleKindId::Quantizer => vec![port("out")],
            ModuleKindId::ClockDiv => vec![port("÷2"), port("÷4"), port("÷8"), port("÷16")],
            ModuleKindId::Mult => vec![port("1"), port("2"), port("3"), port("4")],
            ModuleKindId::Logic => vec![port("and"), port("or"), port("xor")],
            ModuleKindId::Slew => vec![port("out")],
            ModuleKindId::Reverb => vec![port("left"), port("right")],
            ModuleKindId::Chorus => vec![port("left"), port("right")],
            ModuleKindId::Phaser => vec![port("out")],
            ModuleKindId::FmOp => vec![port("out")],
            ModuleKindId::Additive => vec![port("out")],
            ModuleKindId::Drum => vec![port("out")],
            ModuleKindId::RingMod => vec![port("out")],
            ModuleKindId::BitCrush => vec![port("out")],
            ModuleKindId::Comb => vec![port("out")],
            ModuleKindId::Formant => vec![port("out")],
            ModuleKindId::Maths => vec![port("out"), port("eoc")],
            ModuleKindId::ComplexLfo => vec![port("0°"), port("90°"), port("180°"), port("270°")],
            ModuleKindId::EnvFollow => vec![port("env")],
            ModuleKindId::CvMix => vec![port("sum")],
            ModuleKindId::Octave => vec![port("out")],
            ModuleKindId::Euclid => vec![port("gate")],
            ModuleKindId::Bernoulli => vec![port("a"), port("b")],
            ModuleKindId::Turing => vec![port("gate"), port("cv")],
            ModuleKindId::SeqSwitch => vec![port("out")],
            ModuleKindId::Crossfade => vec![port("out")],
            ModuleKindId::VcaBank => vec![port("1"), port("2"), port("3"), port("4")],
            ModuleKindId::Pan => vec![port("left"), port("right")],
            ModuleKindId::Compressor => vec![port("out")],
            ModuleKindId::MacroOsc => vec![port("main"), port("aux")],
            ModuleKindId::Lpg => vec![port("out")],
            ModuleKindId::Ladder => vec![port("out")],
            ModuleKindId::Saturator => vec![port("out")],
            ModuleKindId::Flanger => vec![port("out")],
            ModuleKindId::PingPong => vec![port("left"), port("right")],
            ModuleKindId::ParamEq => vec![port("out")],
            ModuleKindId::Limiter => vec![port("out")],
            ModuleKindId::Stereo => vec![port("left"), port("right")],
            ModuleKindId::Comparator => vec![port("gate"), port("inv")],
            ModuleKindId::Rectify => vec![port("|a|"), port("max"), port("min")],
            ModuleKindId::Arp => vec![port("v/oct"), port("gate")],
            ModuleKindId::ClockMult => vec![port("×2"), port("×3"), port("×4")],
            ModuleKindId::GateDelay => vec![port("out")],
            ModuleKindId::Burst => vec![port("out")],
            ModuleKindId::TrigTool => vec![port("gate"), port("trig")],
            ModuleKindId::Voltmeter => vec![port("thru")],
            ModuleKindId::Tuner => vec![port("v/oct")],
            ModuleKindId::MidiCc => vec![port("cv")],
            ModuleKindId::SubOsc => vec![port("out")],
            ModuleKindId::Supersaw => vec![port("out")],
            ModuleKindId::Pluck => vec![port("out")],
            ModuleKindId::Wavefold => vec![port("out")],
            ModuleKindId::ChordOsc => vec![port("out")],
            ModuleKindId::Resonator => vec![port("out")],
            ModuleKindId::SvfMulti => vec![port("lp"), port("bp"), port("hp"), port("notch")],
            ModuleKindId::AutoWah => vec![port("out")],
            ModuleKindId::DualFilter => vec![port("left"), port("right")],
            ModuleKindId::Drive => vec![port("out")],
            ModuleKindId::Transient => vec![port("out")],
            ModuleKindId::Ducker => vec![port("out")],
            ModuleKindId::Gate => vec![port("out")],
            ModuleKindId::Tremolo => vec![port("out")],
            ModuleKindId::Vibrato => vec![port("out")],
            ModuleKindId::TapeDelay => vec![port("out")],
            ModuleKindId::PitchShift => vec![port("out")],
            ModuleKindId::FreqShift => vec![port("out")],
            ModuleKindId::Shimmer => vec![port("out")],
            ModuleKindId::Vocoder => vec![port("out")],
            ModuleKindId::Offset => vec![port("out")],
            ModuleKindId::TrackHold => vec![port("out")],
            ModuleKindId::Phasor => vec![port("ramp"), port("pulse")],
            ModuleKindId::MinMax => vec![port("min"), port("max"), port("mean")],
            ModuleKindId::Beats => vec![port("t1"), port("t2"), port("t3"), port("t4")],
            ModuleKindId::Ratchet => vec![port("gate")],
            ModuleKindId::Scope => vec![port("thru")],
            ModuleKindId::Spectrum => vec![port("thru")],
        };
        assert(port_names(r@) =~= spec_outputs(self));
        r
    }

    /// The kind's static description.
    pub fn desc(self) -> (r: ModuleDesc)
        ensures
            r.kind == self,
            r.name@ == spec_display_name(self),
            r.serial_name@ == spec_serial_name(self),
            port_names(r.inputs@) == spec_inputs(self),
            port_names(r.outputs@) == spec_outputs(self),
    {
        ModuleDesc {
            kind: self,
            name: self.name(),
            serial_name: self.serial_name(),
            inputs: self.inputs(),
            outputs: self.outputs(),
        }
    }

    /// The kind whose serialization name is `name`.
    pub fn from_serial_name(name: &str) -> (r: Option<ModuleKindId>)
        ensures
            r == kind_of_name(name@),
    {
        let mut i: u16 = 0;
        while i < 92
            invariant
                i <= 92,
                forall|j: u16| j < i ==> (#[trigger] kind_of_id(j)).is_some() && spec_serial_name(kind_of_id(j).unwrap()) != name@,
            decreases 92 - i,
        {
            let k = ModuleKindId::from_u16(i).unwrap();
            if str_eq(name, k.serial_name()) {
                proof {
                    lemma_name_roundtrip(k);
                }
                return Some(k);
            }
            i = i + 1;
        }
        proof {
            lemma_kind_of_name_sound(name@);
            if let Some(k) = kind_of_name(name@) {
                lemma_id_roundtrip(k);
                assert(kind_of_id(kind_id(k)).is_some());
            }
        }
        None
    }
}

/// Every kind's id decodes back to the kind.
pub proof fn lemma_id_roundtrip(k: ModuleKindId)
    ensures
        kind_of_id(kind_id(k)) == Some(k),
        kind_id(k) < N_KINDS,
{
}

/// Every kind's serialization name decodes back to the kind.
pub proof fn lemma_name_roundtrip(k: ModuleKindId)
    ensures
        kind_of_name(spec_serial_name(k)) == Some(k),
{
}

/// A name decodes to a kind only if it is that kind's name.
pub proof fn lemma_kind_of_name_sound(s: Seq<char>)
    ensures
        kind_of_name(s) matches Some(k) ==> s == spec_serial_name(k),
{
}

/// Different kinds have different serialization names.
pub proof fn lemma_serial_names_distinct(k1: ModuleKindId, k2: ModuleKindId)
    ensures
        spec_serial_name(k1) == spec_serial_name(k2) ==> k1 == k2,
{
    lemma_name_roundtrip(k1);
    lemma_name_roundtrip(k2);
}

/// Every kind round-trips through its id and through its serialization name,
/// and its description names it.
pub proof fn lemma_kind_roundtrips(k: ModuleKindId)
    ensures
        kind_of_id(kind_id(k)) == Some(k),
        kind_of_name(spec_serial_name(k)) == Some(k),
{
    lemma_id_roundtrip(k);
    lemma_name_roundtrip(k);
}

/// Every kind's port counts fit the plan's per-step port limits.
pub proof fn lemma_port_counts_fit_plan_limits(k: ModuleKindId)
    ensures
        spec_inputs(k).len() <= crate::plan::MAX_PORTS_IN,
        spec_outputs(k).len() <= crate::plan::MAX_PORTS_OUT,
{
}

} // verus!

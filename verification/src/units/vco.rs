//! Oscillator waveform selection.

use vstd::prelude::*;

verus! {

#[derive(Clone, Copy, Debug, PartialEq, Eq, Structural)]
pub enum Waveform {
    Sine,
    Triangle,
    Saw,
    Square,
}

/// Waveform of a switch position; positions other than 0, 1 and 3 are saw.
pub open spec fn spec_waveform(v: u32) -> Waveform {
    if v == 0 {
        Waveform::Sine
    } else if v == 1 {
        Waveform::Triangle
    } else if v == 3 {
        Waveform::Square
    } else {
        Waveform::Saw
    }
}

impl Waveform {
    /// Waveform selected by the switch position `v`.
    pub fn from_index(v: u32) -> (r: Waveform)
        ensures
            r == spec_waveform(v),
    {
        if v == 0 {
            Waveform::Sine
        } else if v == 1 {
            Waveform::Triangle
        } else if v == 3 {
            Waveform::Square
        } else {
            Waveform::Saw
        }
    }
}

impl Default for Waveform {
    fn default() -> (r: Waveform)
        ensures
            r == Waveform::Saw,
    {
        Waveform::Saw
    }
}

} // verus!

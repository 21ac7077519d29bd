//! Integer state machines and decisions of the engine's modules: edge
//! counting, step sequencing, pattern generation, voice allocation and
//! pitch-class selection. Signal levels arrive here already thresholded to
//! gate booleans; sample arithmetic stays with the DSP code.

pub mod gate;
pub mod clockdiv;
pub mod seq2;
pub mod route;
pub mod util;
pub mod util2;
pub mod cvutil2;
pub mod timbre;
pub mod vco;
pub mod env;
pub mod note_in;
pub mod arp;
pub mod quantizer;
pub mod seq8;
pub mod seq3;

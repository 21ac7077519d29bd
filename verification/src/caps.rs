//! Compile-time engine caps. All audio-side pools are sized by these.

use vstd::prelude::*;

verus! {

/// Frames per processing sub-block (4 per 128-frame Web Audio quantum).
pub const BLOCK: usize = 32;
/// Polyphonic cable width, VCV-style.
pub const MAX_CHANNELS: usize = 16;
/// Module slot pool size.
pub const MAX_MODULES: usize = 256;
/// Cable pool size.
pub const MAX_CABLES: usize = 1024;

} // verus!

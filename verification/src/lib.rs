//! Control-plane library of a browser modular synthesizer: wire formats,
//! module metadata, plan execution bookkeeping and the integer state
//! machines of the sequencing modules.

use vstd::prelude::*;

pub mod caps;
pub mod wire;
pub mod messages;
pub mod plan;
pub mod meters;
pub mod text;
pub mod modules;
pub mod executor;
pub mod buffer;
pub mod engine;
pub mod units;
pub mod theme;
pub mod link;
pub mod keyboard;
pub mod midi;
pub mod history;
pub mod selection;
pub mod readout;

verus! {
} // verus!

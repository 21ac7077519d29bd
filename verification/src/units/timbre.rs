//! Ring modulator. Stateless.

use vstd::prelude::*;

verus! {

pub struct RingMod;

impl RingMod {
    pub fn new() -> (r: RingMod) {
        RingMod
    }
}

} // verus!

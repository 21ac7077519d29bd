//! Min / max / mean of up to three CV inputs. Stateless.

use vstd::prelude::*;

verus! {

pub struct MinMax;

impl MinMax {
    pub fn new() -> (r: MinMax) {
        MinMax
    }
}

} // verus!

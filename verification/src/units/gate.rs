//! Edge detection on thresholded gate inputs.

use vstd::prelude::*;

verus! {

/// Whether an input (`None` when unconnected) shows a rising edge against
/// its previously seen level.
pub open spec fn rising(input: Option<bool>, prev: bool) -> bool {
    match input {
        Some(h) => h && !prev,
        None => false,
    }
}

/// The level remembered after a frame: an unconnected input keeps the
/// previously seen level.
pub open spec fn level_after(input: Option<bool>, prev: bool) -> bool {
    match input {
        Some(h) => h,
        None => prev,
    }
}

} // verus!

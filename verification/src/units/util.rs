//! Utility modules without integer state: the mult and boolean logic on gates.

use vstd::prelude::*;

verus! {

/// Mult / splitter: copies one input to four outputs. Stateless.
pub struct Mult;

impl Mult {
    pub fn new() -> (r: Mult) {
        Mult
    }
}

/// Gate logic: AND / OR / XOR of two gate inputs. Stateless.
pub struct Logic;

impl Logic {
    pub fn new() -> (r: Logic) {
        Logic
    }

    /// AND, OR and XOR of two gate levels (an unconnected input is low).
    pub fn gates(a: bool, b: bool) -> (r: (bool, bool, bool))
        ensures
            r == (a && b, a || b, a != b),
    {
        (a && b, a || b, a != b)
    }
}

} // verus!

//! The perimeter capability: a single-member interface of the kind the
//! generator synthesizes, with a hand-written implementation for the
//! example entity.

use vstd::prelude::*;

use crate::square::Square;

verus! {

/// The capability of having a perimeter.
pub trait Perimeter {
    /// The receivers whose perimeter can be computed.
    spec fn perimeter_ok(&self) -> bool;

    /// The perimeter value.
    spec fn perimeter_value(&self) -> int;

    fn perimeter(&self) -> (r: i32)
        requires
            self.perimeter_ok(),
        ensures
            r == self.perimeter_value(),
    ;
}

impl Perimeter for Square {
    open spec fn perimeter_ok(&self) -> bool {
        i32::MIN <= 4 * self.side <= i32::MAX
    }

    open spec fn perimeter_value(&self) -> int {
        4 * self.side
    }

    fn perimeter(&self) -> (r: i32) {
        self.side * 4
    }
}

} // verus!

//! The example target entity: a square with a side length.  Its area and
//! scale capabilities are hand-written implementations of the kind a
//! completed scaffold unit holds.

use vstd::prelude::*;

verus! {

/// A square, described by its side length.
pub struct Square {
    pub side: i32,
}

impl Square {
    /// The area of the square.
    pub fn area(&self) -> (r: i32)
        requires
            i32::MIN <= self.side * self.side <= i32::MAX,
        ensures
            r == self.side * self.side,
    {
        self.side * self.side
    }

    /// Scales the side length by the given factor.
    pub fn scale(&mut self, scale: i32)
        requires
            i32::MIN <= old(self).side * scale <= i32::MAX,
        ensures
            final(self).side == old(self).side * scale,
    {
        self.side = self.side * scale;
    }
}

} // verus!

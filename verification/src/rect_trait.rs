//! The example umbrella interface: the declaration a generation run would
//! decompose into one capability per member.  It is an input to the
//! generator, not something the library implements.

use vstd::prelude::*;

verus! {

/// A rectangle-shaped interface: one associated type and three methods,
/// one of them mutating its receiver.
pub trait Rect {
    type Item;

    fn area(&self) -> Self::Item;

    fn perimeter(&self) -> Self::Item;

    fn scale(&mut self, scale: Self::Item);
}

} // verus!

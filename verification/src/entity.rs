//! A minimal entity type, as the example program around the generator
//! declares it: a named holder of string data.

use vstd::prelude::*;
use vstd::string::*;

verus! {

/// An entity with a piece of string data.
pub struct Entity {
    pub data: String,
}

impl Entity {
    /// A new entity holding the given data.
    pub fn new(data: &'static str) -> (r: Self)
        ensures
            r.data@ == data@,
    {
        Entity { data: String::from_str(data) }
    }
}

} // verus!

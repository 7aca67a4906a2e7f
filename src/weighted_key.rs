use vstd::prelude::*;

verus! {

/// A key with its own relative likelihood of being drawn.
#[derive(PartialEq, Eq, Structural, Debug, Clone, Copy)]
pub struct Key {
    pub value: char,
    pub weight: u32,
}

impl Key {
    /// The key of weight 1 with the value `value`.
    pub open spec fn spec_new(value: char) -> Key {
        Key { value, weight: 1 }
    }

    /// A key of weight 1.
    pub fn new(value: char) -> (r: Key)
        ensures
            r.value == value,
            r.weight == 1,
    {
        Key { value, weight: 1 }
    }
}

} // verus!

use vstd::prelude::*;

verus! {

/// A key of the keyboard, named by the character it types.
#[derive(PartialEq, Eq, Structural, Debug, Clone, Copy)]
pub struct Key {
    pub value: char,
}

impl Key {
    pub fn new(value: char) -> (r: Key)
        ensures
            r.value == value,
    {
        Key { value }
    }
}

} // verus!

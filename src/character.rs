use vstd::prelude::*;

verus! {

/// One character of a lesson's character set.
#[derive(PartialEq, Eq, Structural, Debug, Clone, Copy)]
pub struct Character {
    pub value: char,
}

impl Character {
    pub open spec fn spec_new(value: char) -> Character {
        Character { value }
    }

    pub fn new(value: char) -> (r: Character)
        ensures
            r.value == value,
    {
        Character { value }
    }
}

} // verus!

use vstd::prelude::*;

use crate::character::Character;

verus! {

/// Gives each character of a lesson its relative likelihood of being drawn.
pub trait ProvideKeyWeight {
    spec fn key_weight(&self, key: Character) -> u32;

    fn get_key_weight(&self, key: Character) -> (r: u32)
        ensures
            r == self.key_weight(key),
    ;
}

/// Gives the characters of `focused_keys` the weight `weight`, all others 1.
#[derive(PartialEq, Eq, Debug, Clone)]
pub struct FocusKey {
    pub focused_keys: Vec<Character>,
    pub weight: u32,
}

/// How the characters of a lesson are weighted when text is generated.
#[derive(PartialEq, Eq, Debug, Clone)]
pub enum WeightingStrategy {
    EqualWeight,
    FocusKey(FocusKey),
}

impl FocusKey {
    pub open spec fn is_focused(&self, key: Character) -> bool {
        exists|i: int| 0 <= i < self.focused_keys@.len() && self.focused_keys@[i] == key
    }

    fn contains_key(&self, key: Character) -> (r: bool)
        ensures
            r == self.is_focused(key),
    {
        let mut i: usize = 0;
        while i < self.focused_keys.len()
            invariant
                0 <= i <= self.focused_keys@.len(),
                forall|j: int| 0 <= j < i ==> self.focused_keys@[j] != key,
            decreases self.focused_keys@.len() - i,
        {
            if self.focused_keys[i].value == key.value {
                return true;
            }
            i = i + 1;
        }
        false
    }
}

impl ProvideKeyWeight for FocusKey {
    open spec fn key_weight(&self, key: Character) -> u32 {
        if self.is_focused(key) {
            self.weight
        } else {
            1
        }
    }

    fn get_key_weight(&self, key: Character) -> (r: u32) {
        if self.contains_key(key) {
            self.weight
        } else {
            1
        }
    }
}

impl ProvideKeyWeight for WeightingStrategy {
    open spec fn key_weight(&self, key: Character) -> u32 {
        match self {
            WeightingStrategy::EqualWeight => 1,
            WeightingStrategy::FocusKey(f) => f.key_weight(key),
        }
    }

    fn get_key_weight(&self, key: Character) -> (r: u32) {
        match self {
            WeightingStrategy::EqualWeight => 1,
            WeightingStrategy::FocusKey(f) => f.get_key_weight(key),
        }
    }
}

} // verus!

use vstd::prelude::*;

use crate::content::{generate_text, is_text_from};
use crate::sampling::total_weight;
use crate::weighted_key::Key;

verus! {

/// Each of `keys` as its value and its weight.
pub open spec fn key_items(keys: Seq<Key>) -> Seq<(char, u32)> {
    keys.map_values(|k: Key| (k.value, k.weight))
}

/// Keys of weight 1 with the given values, in order.
pub open spec fn keys_of(chars: Seq<char>) -> Seq<Key> {
    chars.map_values(|c: char| Key::spec_new(c))
}

/// A character set whose keys carry their own weights, with the dimensions
/// of the text to practise it on.
#[derive(PartialEq, Eq, Debug)]
pub struct Lesson {
    pub keys: Vec<Key>,
    pub lesson_length: u32,
    pub word_length: u8,
}

impl Lesson {
    /// Text can be generated: the key set is not empty and the weights have a
    /// positive sum that fits in a `u32`.
    pub open spec fn can_generate(&self) -> bool {
        &&& self.keys@.len() > 0
        &&& 0 < total_weight(key_items(self.keys@)) <= u32::MAX
    }

    /// `c` is a text this lesson may generate: words of `word_length` keys,
    /// joined by single spaces, as many as it takes to reach `lesson_length`.
    pub open spec fn is_content(&self, c: Seq<char>) -> bool {
        is_text_from(key_items(self.keys@), self.lesson_length as nat, self.word_length as nat, c)
    }

    /// A new lesson with the keys of this one and `key` after them.
    pub fn add_key(&self, key: Key) -> (r: Lesson)
        ensures
            r.keys@ == self.keys@.push(key),
            r.lesson_length == self.lesson_length,
            r.word_length == self.word_length,
    {
        let mut new_keys: Vec<Key> = Vec::new();
        let mut i: usize = 0;
        while i < self.keys.len()
            invariant
                0 <= i <= self.keys@.len(),
                new_keys@ == self.keys@.subrange(0, i as int),
            decreases self.keys@.len() - i,
        {
            new_keys.push(self.keys[i]);
            i = i + 1;
            assert(new_keys@ =~= self.keys@.subrange(0, i as int));
        }
        assert(new_keys@ =~= self.keys@);
        new_keys.push(key);
        Lesson { keys: new_keys, lesson_length: self.lesson_length, word_length: self.word_length }
    }

    /// A lesson over keys of weight 1 with the values `chars`.
    pub fn from_chars(chars: &[char], char_count: u32, word_length: u8) -> (r: Lesson)
        ensures
            r.keys@ == keys_of(chars@),
            r.lesson_length == char_count,
            r.word_length == word_length,
    {
        let mut new_keys: Vec<Key> = Vec::new();
        let mut i: usize = 0;
        assert(new_keys@ =~= keys_of(chars@.subrange(0, 0)));
        while i < chars.len()
            invariant
                0 <= i <= chars@.len(),
                new_keys@ == keys_of(chars@.subrange(0, i as int)),
            decreases chars@.len() - i,
        {
            new_keys.push(Key::new(chars[i]));
            i = i + 1;
            assert(new_keys@ =~= keys_of(chars@.subrange(0, i as int)));
        }
        assert(chars@.subrange(0, i as int) =~= chars@);
        Lesson { keys: new_keys, lesson_length: char_count, word_length }
    }

    /// A practice text: words of `word_length` random keys, each drawn with a
    /// likelihood proportional to its weight, joined by single spaces, as many
    /// as it takes to reach `lesson_length` characters, and at least one.
    pub fn generate_lesson_content(&self) -> (r: String)
        requires
            self.can_generate(),
        ensures
            self.is_content(r@),
    {
        let mut items: Vec<(char, u32)> = Vec::new();
        let mut i: usize = 0;
        while i < self.keys.len()
            invariant
                0 <= i <= self.keys@.len(),
                items@ == key_items(self.keys@.subrange(0, i as int)),
            decreases self.keys@.len() - i,
        {
            items.push((self.keys[i].value, self.keys[i].weight));
            i = i + 1;
            assert(items@ =~= key_items(self.keys@.subrange(0, i as int)));
        }
        assert(self.keys@.subrange(0, i as int) =~= self.keys@);
        generate_text(&items, self.lesson_length, self.word_length)
    }
}

} // verus!

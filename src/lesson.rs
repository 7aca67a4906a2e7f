use vstd::prelude::*;

use crate::character::Character;
use crate::content::{generate_text, is_text_from, lemma_text_bounds};
use crate::sampling::{drawable, total_weight};
use crate::weighting_strategy::{ProvideKeyWeight, WeightingStrategy};

verus! {

/// Each of `keys` as its value and its weight under `strategy`.
pub open spec fn weighted_keys(keys: Seq<Character>, strategy: WeightingStrategy) -> Seq<(char, u32)> {
    keys.map_values(|k: Character| (k.value, strategy.key_weight(k)))
}

/// The sum of the weights of `keys` under `strategy`.
pub open spec fn weight_sum(keys: Seq<Character>, strategy: WeightingStrategy) -> nat {
    total_weight(weighted_keys(keys, strategy))
}

/// The characters with the given values, in order.
pub open spec fn to_characters(chars: Seq<char>) -> Seq<Character> {
    chars.map_values(|c: char| Character::spec_new(c))
}

/// Text that a lesson generates is at least `lesson_length` characters long,
/// at most `word_length` characters longer, and never shorter than one word.
/// Where words are not empty, it starts and ends with a character of the
/// lesson's set, so never with a space unless the set holds one.
pub proof fn lemma_content_bounds(lesson: Lesson, content: Seq<char>)
    requires
        lesson.is_content(content),
    ensures
        lesson.target_length() <= content.len() <= lesson.target_length() + lesson.word_len(),
        lesson.word_len() <= content.len(),
        lesson.word_len() > 0 ==> {
            &&& drawable(lesson.weighted(), content[0])
            &&& drawable(lesson.weighted(), content.last())
        },
        lesson.word_len() > 0 && (forall|i: int|
            0 <= i < lesson.keys_view().len() ==> lesson.keys_view()[i].value != ' ') ==> {
            &&& content[0] != ' '
            &&& content.last() != ' '
        },
{
    lemma_text_bounds(lesson.weighted(), lesson.target_length(), lesson.word_len(), content);
}

/// Proves that the weight total of a prefix never exceeds that of the whole.
proof fn lemma_total_weight_prefix(items: Seq<(char, u32)>, n: int)
    requires
        0 <= n <= items.len(),
    ensures
        total_weight(items.subrange(0, n)) <= total_weight(items),
    decreases items.len(),
{
    if n < items.len() {
        assert(items.drop_last().subrange(0, n) =~= items.subrange(0, n));
        lemma_total_weight_prefix(items.drop_last(), n);
    } else {
        assert(items.subrange(0, n) =~= items);
    }
}

/// A copy of `keys`.
fn copy_keys(keys: &Vec<Character>) -> (r: Vec<Character>)
    ensures
        r@ == keys@,
{
    let mut r: Vec<Character> = Vec::new();
    let mut i: usize = 0;
    while i < keys.len()
        invariant
            0 <= i <= keys@.len(),
            r@ == keys@.subrange(0, i as int),
        decreases keys@.len() - i,
    {
        r.push(keys[i]);
        i = i + 1;
        assert(r@ =~= keys@.subrange(0, i as int));
    }
    assert(r@ =~= keys@);
    r
}

/// Appends a character with each value of `chars`, in order.
fn append_chars(keys: &mut Vec<Character>, chars: &[char])
    ensures
        final(keys)@ == old(keys)@ + to_characters(chars@),
{
    let ghost start = keys@;
    let mut i: usize = 0;
    assert(start + to_characters(chars@.subrange(0, 0)) =~= start);
    while i < chars.len()
        invariant
            0 <= i <= chars@.len(),
            keys@ == start + to_characters(chars@.subrange(0, i as int)),
        decreases chars@.len() - i,
    {
        keys.push(Character::new(chars[i]));
        proof {
            let done = chars@.subrange(0, i + 1);
            assert(done.drop_last() =~= chars@.subrange(0, i as int));
            assert(to_characters(done) =~= to_characters(done.drop_last()).push(
                Character { value: chars@[i as int] },
            ));
        }
        i = i + 1;
        assert(keys@ =~= start + to_characters(chars@.subrange(0, i as int)));
    }
    assert(chars@.subrange(0, i as int) =~= chars@);
}

/// A named character set with the dimensions of the text to practise it on.
#[derive(PartialEq, Eq, Debug, Clone)]
pub struct Lesson {
    name: String,
    keys: Vec<Character>,
    weighting_strategy: WeightingStrategy,
    lesson_length: u32,
    word_length: u8,
}

impl Lesson {
    pub closed spec fn name_view(&self) -> Seq<char> {
        self.name@
    }

    pub closed spec fn keys_view(&self) -> Seq<Character> {
        self.keys@
    }

    pub closed spec fn strategy(&self) -> WeightingStrategy {
        self.weighting_strategy
    }

    /// The least number of characters of generated text.
    pub closed spec fn target_length(&self) -> nat {
        self.lesson_length as nat
    }

    pub closed spec fn word_len(&self) -> nat {
        self.word_length as nat
    }

    /// Text can be generated: the character set is not empty and the weights
    /// have a positive sum that fits in a `u32`.
    pub open spec fn can_generate(&self) -> bool {
        &&& self.keys_view().len() > 0
        &&& 0 < weight_sum(self.keys_view(), self.strategy()) <= u32::MAX
    }

    /// The characters of the set, each with its weight.
    pub open spec fn weighted(&self) -> Seq<(char, u32)> {
        weighted_keys(self.keys_view(), self.strategy())
    }

    /// `c` is a text this lesson may generate: words of `word_len` characters
    /// of the set, joined by single spaces, as many as it takes to reach the
    /// target length.
    pub open spec fn is_content(&self, c: Seq<char>) -> bool {
        is_text_from(self.weighted(), self.target_length(), self.word_len(), c)
    }

    /// A lesson over characters with the values `chars`, in order.
    pub fn from_chars(
        name: String,
        chars: &[char],
        char_count: u32,
        word_length: u8,
        weighting_strategy: WeightingStrategy,
    ) -> (r: Lesson)
        ensures
            r.name_view() == name@,
            r.keys_view() == to_characters(chars@),
            r.strategy() == weighting_strategy,
            r.target_length() == char_count,
            r.word_len() == word_length,
    {
        let mut keys: Vec<Character> = Vec::new();
        append_chars(&mut keys, chars);
        assert(keys@ =~= to_characters(chars@));
        Lesson { name, keys, weighting_strategy, lesson_length: char_count, word_length }
    }

    /// A new lesson with the characters of this one and `key` after them.
    pub fn add_key(&self, name: String, key: Character, weighting_strategy: WeightingStrategy) -> (r:
        Lesson)
        ensures
            r.name_view() == name@,
            r.keys_view() == self.keys_view().push(key),
            r.strategy() == weighting_strategy,
            r.target_length() == self.target_length(),
            r.word_len() == self.word_len(),
    {
        let mut keys = copy_keys(&self.keys);
        keys.push(key);
        Lesson {
            name,
            keys,
            weighting_strategy,
            lesson_length: self.lesson_length,
            word_length: self.word_length,
        }
    }

    /// A new lesson with the characters of this one and `chars` after them.
    pub fn add_chars(&self, name: String, chars: &[char], weighting_strategy: WeightingStrategy) -> (r:
        Lesson)
        ensures
            r.name_view() == name@,
            r.keys_view() == self.keys_view() + to_characters(chars@),
            r.strategy() == weighting_strategy,
            r.target_length() == self.target_length(),
            r.word_len() == self.word_len(),
    {
        let mut keys = copy_keys(&self.keys);
        append_chars(&mut keys, chars);
        assert(keys@ =~= self.keys@ + to_characters(chars@));
        Lesson {
            name,
            keys,
            weighting_strategy,
            lesson_length: self.lesson_length,
            word_length: self.word_length,
        }
    }

    /// The sum of the weights of the characters, or `None` where it does not
    /// fit in a `u32`.
    pub fn total_key_weight(&self) -> (r: Option<u32>)
        ensures
            match r {
                Some(total) => total == weight_sum(self.keys_view(), self.strategy()),
                None => weight_sum(self.keys_view(), self.strategy()) > u32::MAX,
            },
    {
        let mut total: u32 = 0;
        let mut i: usize = 0;
        while i < self.keys.len()
            invariant
                0 <= i <= self.keys@.len(),
                total == total_weight(weighted_keys(self.keys@, self.weighting_strategy).subrange(0, i as int)),
            decreases self.keys@.len() - i,
        {
            let w = self.weighting_strategy.get_key_weight(self.keys[i]);
            proof {
                let items = weighted_keys(self.keys@, self.weighting_strategy);
                assert(items.subrange(0, i + 1).drop_last() =~= items.subrange(0, i as int));
            }
            match total.checked_add(w) {
                Some(t) => {
                    total = t;
                },
                None => {
                    proof {
                        lemma_total_weight_prefix(
                            weighted_keys(self.keys@, self.weighting_strategy),
                            i + 1,
                        );
                    }
                    return None;
                },
            }
            i = i + 1;
        }
        assert(weighted_keys(self.keys@, self.weighting_strategy).subrange(0, i as int)
            =~= weighted_keys(self.keys@, self.weighting_strategy));
        Some(total)
    }

    /// Whether text can be generated from this lesson.
    pub fn can_generate_content(&self) -> (r: bool)
        ensures
            r == self.can_generate(),
    {
        match self.total_key_weight() {
            Some(total) => self.keys.len() > 0 && total > 0,
            None => false,
        }
    }

    /// Each character of the set with its weight.
    fn weighted_key_list(&self) -> (r: Vec<(char, u32)>)
        ensures
            r@ == weighted_keys(self.keys_view(), self.strategy()),
    {
        let mut r: Vec<(char, u32)> = Vec::new();
        let mut i: usize = 0;
        while i < self.keys.len()
            invariant
                0 <= i <= self.keys@.len(),
                r@ == weighted_keys(self.keys@.subrange(0, i as int), self.weighting_strategy),
            decreases self.keys@.len() - i,
        {
            let key = self.keys[i];
            r.push((key.value, self.weighting_strategy.get_key_weight(key)));
            i = i + 1;
            assert(r@ =~= weighted_keys(self.keys@.subrange(0, i as int), self.weighting_strategy));
        }
        assert(self.keys@.subrange(0, i as int) =~= self.keys@);
        r
    }

    /// A practice text: words of `word_length` random characters of the set,
    /// each drawn with a likelihood proportional to its weight, joined by
    /// single spaces, as many as it takes to reach `lesson_length` characters,
    /// and at least one.
    pub fn generate_lesson_content(&self) -> (r: String)
        requires
            self.can_generate(),
        ensures
            self.is_content(r@),
    {
        let items = self.weighted_key_list();
        generate_text(&items, self.lesson_length, self.word_length)
    }

    pub fn name(&self) -> (r: &str)
        ensures
            r@ == self.name_view(),
    {
        self.name.as_str()
    }

    pub fn keys(&self) -> (r: &[Character])
        ensures
            r@ == self.keys_view(),
    {
        self.keys.as_slice()
    }

    pub fn weighting_strategy(&self) -> (r: &WeightingStrategy)
        ensures
            *r == self.strategy(),
    {
        &self.weighting_strategy
    }

    pub fn lesson_length(&self) -> (r: u32)
        ensures
            r == self.target_length(),
    {
        self.lesson_length
    }

    pub fn word_length(&self) -> (r: u8)
        ensures
            r == self.word_len(),
    {
        self.word_length
    }
}

} // verus!

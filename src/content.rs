use vstd::prelude::*;
use vstd::string::StringExecFns;

use crate::sampling::{choose_weighted_char, drawable, push_char, total_weight};

verus! {

/// The words joined by single spaces.
pub open spec fn join_words(words: Seq<Seq<char>>) -> Seq<char>
    decreases words.len(),
{
    if words.len() == 0 {
        Seq::empty()
    } else if words.len() == 1 {
        words[0]
    } else {
        join_words(words.drop_last()) + seq![' '] + words.last()
    }
}

/// How many words of `word_length` characters, joined by single spaces, it
/// takes to reach at least `target` characters (never fewer than one).
pub open spec fn words_needed(target: int, word_length: nat) -> nat
    decreases target,
{
    if target <= word_length {
        1
    } else {
        1 + words_needed(target - word_length - 1, word_length)
    }
}

/// `w` is a word of `word_length` characters drawn from `items`.
pub open spec fn is_word_of(items: Seq<(char, u32)>, word_length: nat, w: Seq<char>) -> bool {
    &&& w.len() == word_length
    &&& forall|j: int| 0 <= j < w.len() ==> drawable(items, w[j])
}

/// `text` is made of words of `word_length` characters drawn from `items`,
/// joined by single spaces, as many as it takes to reach `target` characters.
pub open spec fn is_text_from(
    items: Seq<(char, u32)>,
    target: nat,
    word_length: nat,
    text: Seq<char>,
) -> bool {
    exists|words: Seq<Seq<char>>|
        {
            &&& words.len() == words_needed(target as int, word_length)
            &&& forall|i: int| 0 <= i < words.len() ==> is_word_of(items, word_length, #[trigger] words[i])
            &&& text == join_words(words)
        }
}

/// Proves that `k` words of `word_length` characters, joined by single spaces,
/// take `k * (word_length + 1) - 1` characters.
proof fn lemma_join_words_len(words: Seq<Seq<char>>, word_length: nat)
    requires
        words.len() >= 1,
        forall|i: int| 0 <= i < words.len() ==> (#[trigger] words[i]).len() == word_length,
    ensures
        join_words(words).len() == words.len() * (word_length + 1) - 1,
    decreases words.len(),
{
    if words.len() > 1 {
        let rest = words.drop_last();
        lemma_join_words_len(rest, word_length);
        let k = rest.len();
        assert((k + 1) * (word_length + 1) == k * (word_length + 1) + word_length + 1)
            by (nonlinear_arith);
    }
}

/// Proves that the words a target asks for reach it, and overshoot it by less
/// than one word and its space.
proof fn lemma_words_needed_len(target: int, word_length: nat)
    requires
        target >= 0,
    ensures
        target <= words_needed(target, word_length) * (word_length + 1) - 1 <= target + word_length,
    decreases target,
{
    if target > word_length {
        let rest = target - word_length - 1;
        lemma_words_needed_len(rest, word_length);
        let k = words_needed(rest, word_length);
        assert((k + 1) * (word_length + 1) == k * (word_length + 1) + word_length + 1)
            by (nonlinear_arith);
    }
}

/// Proves that joined words start with the first character of the first word
/// and end with the last character of the last word.
proof fn lemma_join_words_ends(words: Seq<Seq<char>>, word_length: nat)
    requires
        words.len() >= 1,
        word_length > 0,
        forall|i: int| 0 <= i < words.len() ==> (#[trigger] words[i]).len() == word_length,
    ensures
        join_words(words).len() > 0,
        join_words(words)[0] == words[0][0],
        join_words(words).last() == words.last().last(),
    decreases words.len(),
{
    if words.len() > 1 {
        let rest = words.drop_last();
        lemma_join_words_ends(rest, word_length);
        assert(rest[0] == words[0]);
    }
}

/// A generated text is at least `target` characters long, at most
/// `word_length` characters longer, and never shorter than one word. Where
/// words are not empty, it starts and ends with a drawn character, never with
/// a separating space.
pub proof fn lemma_text_bounds(
    items: Seq<(char, u32)>,
    target: nat,
    word_length: nat,
    text: Seq<char>,
)
    requires
        is_text_from(items, target, word_length, text),
    ensures
        target <= text.len() <= target + word_length,
        word_length <= text.len(),
        word_length > 0 ==> drawable(items, text[0]) && drawable(items, text.last()),
{
    let words = choose|words: Seq<Seq<char>>|
        {
            &&& words.len() == words_needed(target as int, word_length)
            &&& forall|i: int| 0 <= i < words.len() ==> is_word_of(items, word_length, #[trigger] words[i])
            &&& text == join_words(words)
        };
    lemma_words_needed_len(target as int, word_length);
    assert(words.len() >= 1);
    assert forall|i: int| 0 <= i < words.len() implies (#[trigger] words[i]).len() == word_length by {
        assert(is_word_of(items, word_length, words[i]));
    }
    lemma_join_words_len(words, word_length);
    let k = words.len();
    assert(k * (word_length + 1) >= word_length + 1) by (nonlinear_arith)
        requires
            k >= 1,
    ;
    if word_length > 0 {
        lemma_join_words_ends(words, word_length);
        assert(is_word_of(items, word_length, words[0]));
        assert(is_word_of(items, word_length, words.last()));
        assert(drawable(items, words.last()[word_length - 1]));
    }
}

/// One word: `word_length` characters drawn at random from `items`.
pub fn generate_word(items: &Vec<(char, u32)>, word_length: u8) -> (r: String)
    requires
        items@.len() > 0,
        0 < total_weight(items@) <= u32::MAX,
    ensures
        is_word_of(items@, word_length as nat, r@),
{
    let mut word = String::new();
    let mut i: u8 = 0;
    while i < word_length
        invariant
            items@.len() > 0,
            0 < total_weight(items@) <= u32::MAX,
            i <= word_length,
            word@.len() == i,
            forall|j: int| 0 <= j < i ==> drawable(items@, word@[j]),
        decreases word_length - i,
    {
        let c = choose_weighted_char(items);
        push_char(&mut word, c);
        i = i + 1;
    }
    word
}

/// A practice text: words of `word_length` characters drawn at random from
/// `items`, joined by single spaces, as many as it takes to reach
/// `lesson_length` characters, and at least one.
pub fn generate_text(items: &Vec<(char, u32)>, lesson_length: u32, word_length: u8) -> (r: String)
    requires
        items@.len() > 0,
        0 < total_weight(items@) <= u32::MAX,
    ensures
        is_text_from(items@, lesson_length as nat, word_length as nat, r@),
{
    let mut content = generate_word(items, word_length);
    let ghost mut words: Seq<Seq<char>> = seq![content@];
    let target: u64 = lesson_length as u64;
    let word_len: u64 = word_length as u64;
    let mut len: u64 = word_len;
    assert(join_words(words) == content@);
    while len < target
        invariant
            items@.len() > 0,
            0 < total_weight(items@) <= u32::MAX,
            target == lesson_length,
            word_len == word_length,
            len == content@.len(),
            content@ == join_words(words),
            words.len() >= 1,
            forall|i: int| 0 <= i < words.len() ==> is_word_of(items@, word_len as nat, #[trigger] words[i]),
            len <= target + word_len,
            if len < target {
                words_needed(target as int, word_len as nat) == words.len() + words_needed(
                    target - len - 1,
                    word_len as nat,
                )
            } else {
                words_needed(target as int, word_len as nat) == words.len()
            },
        decreases target + word_len - len,
    {
        let word = generate_word(items, word_length);
        proof {
            reveal_strlit(" ");
        }
        content.append(" ");
        content.append(word.as_str());
        proof {
            let old_words = words;
            words = words.push(word@);
            assert(words.drop_last() =~= old_words);
        }
        len = len + 1 + word_len;
    }
    content
}

} // verus!

use vstd::prelude::*;

verus! {

/// A typing speed, given either in words or in characters per minute.
#[derive(Debug, PartialEq, Eq, Structural, Copy, Clone)]
pub enum TypingSpeed {
    WordsPerMinute(u16),
    CharactersPerMinute(u16),
}

impl TypingSpeed {
    /// The speed in words per minute (one word is five characters).
    pub open spec fn wpm(self) -> int {
        match self {
            TypingSpeed::WordsPerMinute(wpm) => wpm as int,
            TypingSpeed::CharactersPerMinute(cpm) => cpm as int / 5,
        }
    }

    /// The speed in characters per minute (one word is five characters).
    pub open spec fn cpm(self) -> int {
        match self {
            TypingSpeed::WordsPerMinute(wpm) => wpm as int * 5,
            TypingSpeed::CharactersPerMinute(cpm) => cpm as int,
        }
    }

    pub fn words_per_minute(self) -> (r: u16)
        ensures
            r == self.wpm(),
    {
        match self {
            TypingSpeed::WordsPerMinute(wpm) => wpm,
            TypingSpeed::CharactersPerMinute(cpm) => cpm / 5,
        }
    }

    pub fn characters_per_minute(self) -> (r: u32)
        ensures
            r == self.cpm(),
    {
        match self {
            TypingSpeed::WordsPerMinute(wpm) => wpm as u32 * 5,
            TypingSpeed::CharactersPerMinute(cpm) => cpm as u32,
        }
    }
}

/// Converting a speed to words per minute and back loses at most the
/// characters of one partial word, and nothing when the character count is a
/// whole number of words.
pub proof fn lemma_words_per_minute_round_trip(speed: TypingSpeed)
    ensures
        speed.wpm() * 5 <= speed.cpm() < speed.wpm() * 5 + 5,
        speed.cpm() % 5 == 0 ==> speed.wpm() * 5 == speed.cpm(),
{
}

} // verus!

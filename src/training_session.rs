use vstd::prelude::*;
use vstd::string::StrSliceExecFns;

use crate::clock::Timestamp;
use crate::stats::{TrainingRecord, TrainingStatistics};
use crate::typing_errors::TypingErrors;
use crate::typing_speed::TypingSpeed;

verus! {

/// The outcome of the most recent keystroke.
#[derive(PartialEq, Eq, Structural, Debug, Clone, Copy)]
pub enum InputResult {
    Waiting,
    Wrong,
    Correct,
}

/// The state of a training session as a mathematical value.
pub struct SessionView {
    /// The whole text to type.
    pub content: Seq<char>,
    /// How many characters of it have been typed correctly.
    pub finished: nat,
    pub last_input: InputResult,
    pub start: Option<Timestamp>,
    pub end: Option<Timestamp>,
    pub errors: nat,
}

impl SessionView {
    pub open spec fn is_finished(self) -> bool {
        self.finished >= self.content.len()
    }

    /// The character to type next.
    pub open spec fn current(self) -> Option<char> {
        if self.finished < self.content.len() {
            Some(self.content[self.finished as int])
        } else {
            None
        }
    }
}

/// A session over `content` before any keystroke.
pub open spec fn fresh_session(content: Seq<char>) -> SessionView {
    SessionView {
        content,
        finished: 0,
        last_input: InputResult::Waiting,
        start: None,
        end: None,
        errors: 0,
    }
}

/// The session after the keystroke `input` at time `now`: the first keystroke
/// starts the clock; the right character is consumed, a wrong one only
/// counted (the count stops at `u16::MAX`); consuming the last character stops
/// the clock.
pub open spec fn key_step(v: SessionView, input: char, now: Timestamp) -> SessionView {
    let start = if v.start is None {
        Some(now)
    } else {
        v.start
    };
    if v.current() == Some(input) {
        let finished = v.finished + 1;
        SessionView {
            content: v.content,
            finished,
            last_input: InputResult::Correct,
            start,
            end: if finished >= v.content.len() {
                Some(now)
            } else {
                v.end
            },
            errors: v.errors,
        }
    } else {
        SessionView {
            content: v.content,
            finished: v.finished,
            last_input: InputResult::Wrong,
            start,
            end: v.end,
            errors: if v.errors < u16::MAX {
                v.errors + 1
            } else {
                v.errors
            },
        }
    }
}

/// Characters per minute of `finished` characters over `millis` milliseconds:
/// 0 under one second, else `60 * finished` over the whole seconds, rounded
/// down, and at most `u16::MAX`.
pub open spec fn characters_per_minute(finished: nat, millis: int) -> u16 {
    if millis < 1000 {
        0
    } else {
        let cpm = (60 * finished) as int / (millis / 1000);
        if cpm > u16::MAX {
            u16::MAX
        } else {
            cpm as u16
        }
    }
}

/// The typing speed of a session, read at time `now`: zero before the first
/// keystroke, else over the time from the first keystroke to the last one, or
/// to `now` while the session runs.
pub open spec fn speed_at(v: SessionView, now: Timestamp) -> TypingSpeed {
    match v.start {
        None => TypingSpeed::CharactersPerMinute(0),
        Some(start) => {
            let end = match v.end {
                Some(end) => end,
                None => now,
            };
            TypingSpeed::CharactersPerMinute(
                characters_per_minute(v.finished, end.millis - start.millis),
            )
        },
    }
}

/// The record of a session read at time `now`: its start (or `now` if it
/// never started), its errors and its speed.
pub open spec fn record_of(v: SessionView, now: Timestamp) -> TrainingRecord {
    TrainingRecord {
        timestamp: match v.start {
            Some(start) => start,
            None => now,
        },
        stats: TrainingStatistics {
            errors: TypingErrors { total_error_count: v.errors as u16 },
            typing_speed: speed_at(v, now),
        },
    }
}

/// The session after the keystrokes `inputs`, the i-th made at time `times[i]`.
pub open spec fn run_keys(v: SessionView, inputs: Seq<char>, times: Seq<Timestamp>) -> SessionView
    decreases inputs.len(),
{
    if inputs.len() == 0 || times.len() < inputs.len() {
        v
    } else {
        key_step(
            run_keys(v, inputs.drop_last(), times.subrange(0, inputs.len() - 1)),
            inputs.last(),
            times[inputs.len() - 1],
        )
    }
}

/// Typing the first `n` characters of the text exactly, on a fresh session,
/// leaves `n` characters typed and no error; the session is finished exactly
/// when the whole text has been typed, so every keystroke before the last one
/// meets an unfinished session.
pub proof fn lemma_exact_typing(content: Seq<char>, times: Seq<Timestamp>, n: nat)
    requires
        times.len() == content.len(),
        n <= content.len(),
    ensures
        run_keys(fresh_session(content), content.take(n as int), times.take(n as int)).finished
            == n,
        run_keys(fresh_session(content), content.take(n as int), times.take(n as int)).errors
            == 0,
        run_keys(fresh_session(content), content.take(n as int), times.take(n as int)).content
            == content,
        run_keys(
            fresh_session(content),
            content.take(n as int),
            times.take(n as int),
        ).is_finished() <==> n == content.len(),
    decreases n,
{
    if n > 0 {
        let m = (n - 1) as nat;
        lemma_exact_typing(content, times, m);
        assert(content.take(n as int).drop_last() =~= content.take(m as int));
        assert(times.take(n as int).subrange(0, n - 1) =~= times.take(m as int));
    }
}

/// A wrong keystroke followed by the right one: the wrong one adds exactly
/// one error and consumes nothing; the right one then consumes the character
/// and adds no error.
pub proof fn lemma_wrong_then_right(v: SessionView, wrong: char, t1: Timestamp, t2: Timestamp)
    requires
        !v.is_finished(),
        v.current() != Some(wrong),
        v.errors < u16::MAX,
    ensures
        key_step(v, wrong, t1).errors == v.errors + 1,
        key_step(v, wrong, t1).finished == v.finished,
        key_step(v, wrong, t1).current() == v.current(),
        key_step(key_step(v, wrong, t1), v.content[v.finished as int], t2).finished == v.finished
            + 1,
        key_step(key_step(v, wrong, t1), v.content[v.finished as int], t2).errors == v.errors + 1,
{
}

/// One attempt at typing a text, keystroke by keystroke.
pub struct TrainingSession {
    lesson_content: String,
    content_len: usize,
    finished: usize,
    last_input_result: InputResult,
    start_time: Option<Timestamp>,
    end_time: Option<Timestamp>,
    errors: u16,
}

impl View for TrainingSession {
    type V = SessionView;

    closed spec fn view(&self) -> SessionView {
        SessionView {
            content: self.lesson_content@,
            finished: self.finished as nat,
            last_input: self.last_input_result,
            start: self.start_time,
            end: self.end_time,
            errors: self.errors as nat,
        }
    }
}

impl TrainingSession {
    pub closed spec fn wf(&self) -> bool {
        &&& self@.errors <= u16::MAX
        &&& self.content_len == self.lesson_content@.len()
        &&& self.finished <= self.content_len
        &&& self.end_time is Some ==> self.start_time is Some && self.finished == self.content_len
    }

    pub fn new(lesson: String) -> (r: TrainingSession)
        ensures
            r.wf(),
            r@ == fresh_session(lesson@),
    {
        let content_len = lesson.as_str().unicode_len();
        TrainingSession {
            lesson_content: lesson,
            content_len,
            finished: 0,
            last_input_result: InputResult::Waiting,
            start_time: None,
            end_time: None,
            errors: 0,
        }
    }

    /// A session over a single space.
    pub fn default() -> (r: TrainingSession)
        ensures
            r.wf(),
            r@ == fresh_session(seq![' ']),
    {
        proof {
            reveal_strlit(" ");
        }
        let content = String::from_str(" ");
        assert(content@ =~= seq![' ']);
        TrainingSession::new(content)
    }

    /// Takes one keystroke, made at time `now`.
    pub fn handle_key(&mut self, current_input: char, now: Timestamp)
        requires
            old(self).wf(),
            !old(self)@.is_finished(),
        ensures
            final(self).wf(),
            final(self)@ == key_step(old(self)@, current_input, now),
    {
        if self.start_time.is_none() {
            self.start_time = Some(now);
        }
        let expected = self.lesson_content.as_str().get_char(self.finished);
        if current_input == expected {
            self.finished = self.finished + 1;
            self.last_input_result = InputResult::Correct;
        } else {
            if self.errors < u16::MAX {
                self.errors = self.errors + 1;
            }
            self.last_input_result = InputResult::Wrong;
        }
        if self.is_finished() {
            self.end_time = Some(now);
        }
    }

    pub fn is_finished(&self) -> (r: bool)
        requires
            self.wf(),
        ensures
            r == self@.is_finished(),
    {
        self.finished >= self.content_len
    }

    /// The character to type next, if any is left.
    pub fn current_char(&self) -> (r: Option<char>)
        requires
            self.wf(),
        ensures
            r == self@.current(),
    {
        if self.finished < self.content_len {
            Some(self.lesson_content.as_str().get_char(self.finished))
        } else {
            None
        }
    }

    pub fn lesson_content(&self) -> (r: &str)
        ensures
            r@ == self@.content,
    {
        self.lesson_content.as_str()
    }

    /// The text typed correctly so far.
    pub fn finished_text(&self) -> (r: &str)
        requires
            self.wf(),
        ensures
            r@ == self@.content.subrange(0, self@.finished as int),
    {
        self.lesson_content.as_str().substring_char(0, self.finished)
    }

    /// The text after the character to type next.
    pub fn remaining_text(&self) -> (r: &str)
        requires
            self.wf(),
        ensures
            self@.is_finished() ==> r@.len() == 0,
            !self@.is_finished() ==> r@ == self@.content.subrange(
                self@.finished + 1int,
                self@.content.len() as int,
            ),
    {
        if self.finished < self.content_len {
            self.lesson_content.as_str().substring_char(self.finished + 1, self.content_len)
        } else {
            self.lesson_content.as_str().substring_char(self.content_len, self.content_len)
        }
    }

    pub fn last_input_result(&self) -> (r: InputResult)
        ensures
            r == self@.last_input,
    {
        self.last_input_result
    }

    /// How many characters have been typed correctly.
    pub fn finished_len(&self) -> (r: usize)
        ensures
            r == self@.finished,
    {
        self.finished
    }

    /// How many characters the text has.
    pub fn content_len(&self) -> (r: usize)
        requires
            self.wf(),
        ensures
            r == self@.content.len(),
    {
        self.content_len
    }

    /// The typing speed, read at time `now`.
    pub fn typing_speed(&self, now: Timestamp) -> (r: TypingSpeed)
        requires
            self.wf(),
        ensures
            r == speed_at(self@, now),
            self@.start is None ==> r == TypingSpeed::CharactersPerMinute(0),
    {
        match self.start_time {
            None => TypingSpeed::CharactersPerMinute(0),
            Some(start) => {
                let end = match self.end_time {
                    Some(end) => end,
                    None => now,
                };
                let millis: i128 = end.millis as i128 - start.millis as i128;
                if millis < 1000 {
                    TypingSpeed::CharactersPerMinute(0)
                } else {
                    let seconds: u128 = (millis as u128) / 1000;
                    let cpm: u128 = 60 * (self.finished as u128) / seconds;
                    if cpm > u16::MAX as u128 {
                        TypingSpeed::CharactersPerMinute(u16::MAX)
                    } else {
                        TypingSpeed::CharactersPerMinute(cpm as u16)
                    }
                }
            },
        }
    }

    pub fn errors(&self) -> (r: TypingErrors)
        ensures
            r.total_error_count == self@.errors,
    {
        TypingErrors { total_error_count: self.errors }
    }

    pub fn stats(&self, now: Timestamp) -> (r: TrainingStatistics)
        requires
            self.wf(),
        ensures
            r.errors.total_error_count == self@.errors,
            r.typing_speed == speed_at(self@, now),
    {
        TrainingStatistics { errors: self.errors(), typing_speed: self.typing_speed(now) }
    }

    /// The record of this session, stamped with its start, or with `now` if it
    /// never started.
    pub fn training_record(&self, now: Timestamp) -> (r: TrainingRecord)
        requires
            self.wf(),
        ensures
            r == record_of(self@, now),
    {
        let timestamp = match self.start_time {
            Some(start) => start,
            None => now,
        };
        TrainingRecord { timestamp, stats: self.stats(now) }
    }
}

} // verus!

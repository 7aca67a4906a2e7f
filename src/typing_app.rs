use vstd::prelude::*;
use vstd::string::StrSliceExecFns;

verus! {

/// A bare typing exercise over a borrowed text: it follows the position in
/// the text and remembers the last key typed, but counts no errors and keeps
/// no time.
pub struct App<'a> {
    pub lesson: &'a str,
    lesson_len: usize,
    finished: usize,
    last_input: Option<char>,
}

impl<'a> App<'a> {
    pub closed spec fn wf(&self) -> bool {
        &&& self.lesson_len == self.lesson@.len()
        &&& self.finished <= self.lesson_len
    }

    /// How many characters have been typed correctly.
    pub closed spec fn position(&self) -> nat {
        self.finished as nat
    }

    pub closed spec fn last_key(&self) -> Option<char> {
        self.last_input
    }

    /// The text to type.
    pub closed spec fn text(&self) -> Seq<char> {
        self.lesson@
    }

    pub open spec fn is_done(&self) -> bool {
        self.position() >= self.text().len()
    }

    pub fn new(lesson: &'a str) -> (r: App<'a>)
        ensures
            r.wf(),
            r.text() == lesson@,
            r.position() == 0,
            r.last_key() is None,
    {
        let lesson_len = lesson.unicode_len();
        App { lesson, lesson_len, finished: 0, last_input: None }
    }

    /// Takes one keystroke: the right character moves the position on, any
    /// other leaves it.
    pub fn add_key(&mut self, current_input: char)
        requires
            old(self).wf(),
            !old(self).is_done(),
        ensures
            final(self).wf(),
            final(self).text() == old(self).text(),
            final(self).last_key() == Some(current_input),
            final(self).position() == if current_input == old(self).text()[old(
                self,
            ).position() as int] {
                old(self).position() + 1
            } else {
                old(self).position()
            },
    {
        if current_input == self.lesson.get_char(self.finished) {
            self.finished = self.finished + 1;
        }
        self.last_input = Some(current_input);
    }

    pub fn is_finished(&self) -> (r: bool)
        requires
            self.wf(),
        ensures
            r == self.is_done(),
    {
        self.finished >= self.lesson_len
    }

    /// The character to type next, if any is left.
    pub fn next_char(&self) -> (r: Option<char>)
        requires
            self.wf(),
        ensures
            !self.is_done() ==> r == Some(self.text()[self.position() as int]),
            self.is_done() ==> r is None,
    {
        if self.finished < self.lesson_len {
            Some(self.lesson.get_char(self.finished))
        } else {
            None
        }
    }

    /// The text typed correctly so far.
    pub fn finished_text(&self) -> (r: &'a str)
        requires
            self.wf(),
        ensures
            r@ == self.text().subrange(0, self.position() as int),
    {
        self.lesson.substring_char(0, self.finished)
    }

    /// The text after the character to type next.
    pub fn remaining_text(&self) -> (r: &'a str)
        requires
            self.wf(),
        ensures
            self.is_done() ==> r@.len() == 0,
            !self.is_done() ==> r@ == self.text().subrange(
                self.position() + 1int,
                self.text().len() as int,
            ),
    {
        if self.finished < self.lesson_len {
            self.lesson.substring_char(self.finished + 1, self.lesson_len)
        } else {
            self.lesson.substring_char(self.lesson_len, self.lesson_len)
        }
    }
}

} // verus!

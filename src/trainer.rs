use vstd::prelude::*;

use crate::clock::{Clock, Timestamp};
use crate::enums::{AppState, KeyPress, OptionalInput};
use crate::lesson::{lemma_content_bounds, Lesson};
use crate::stats::TrainingRecord;
use crate::selectable_session_list::{
    next_selection, prev_selection, records_at, LessonListView, SelectableLessonList,
};
use crate::training_session::{fresh_session, key_step, record_of, SessionView, TrainingSession};

verus! {

/// The application as a mathematical value.
pub struct TrainerView {
    pub list: LessonListView,
    pub session: SessionView,
    pub state: AppState,
}

/// A session can be started on the selected lesson: one is selected, text
/// can be generated from it, and that text is not empty.
pub open spec fn can_start(list: LessonListView) -> bool {
    match list.selected {
        Some(i) => {
            &&& i < list.lessons.len()
            &&& list.lessons[i as int].can_generate()
            &&& (list.lessons[i as int].word_len() > 0 || list.lessons[i as int].target_length() > 0)
        },
        None => false,
    }
}

/// `session` is a fresh session over a text generated from the selected
/// lesson.
pub open spec fn started_on_selected(list: LessonListView, session: SessionView) -> bool {
    match list.selected {
        Some(i) => {
            &&& i < list.lessons.len()
            &&& list.lessons[i as int].is_content(session.content)
            &&& session.content.len() > 0
            &&& session == fresh_session(session.content)
        },
        None => false,
    }
}

/// Starting a session: where one can be started, a fresh one over generated
/// text replaces the current one and training begins; otherwise nothing
/// changes.
pub open spec fn start_result(old: TrainerView, new: TrainerView) -> bool {
    &&& new.list == old.list
    &&& if can_start(old.list) {
        &&& new.state == AppState::Training
        &&& started_on_selected(new.list, new.session)
    } else {
        &&& new.session == old.session
        &&& new.state == old.state
    }
}

/// A key press while choosing a lesson: Down and Up move the selection,
/// Enter starts a session, Escape ends the application, others do nothing.
pub open spec fn selection_result(old: TrainerView, key: KeyPress, new: TrainerView) -> bool {
    match key {
        KeyPress::Esc => new == TrainerView { state: AppState::Terminated, ..old },
        KeyPress::Down => new == TrainerView {
            list: LessonListView {
                selected: next_selection(old.list.selected, old.list.lessons.len()),
                ..old.list
            },
            ..old
        },
        KeyPress::Up => new == TrainerView {
            list: LessonListView {
                selected: prev_selection(old.list.selected, old.list.lessons.len()),
                ..old.list
            },
            ..old
        },
        KeyPress::Char(c) => if c == '\n' {
            start_result(old, new)
        } else {
            new == old
        },
        _ => new == old,
    }
}

/// A key press while training: a character goes to the session; when it
/// finishes the session, its record (read at `now`) joins the selected
/// lesson's history and a new session starts on the same lesson. Escape
/// abandons the session without a record; other keys do nothing.
pub open spec fn training_result(
    old: TrainerView,
    key: KeyPress,
    now: Timestamp,
    new: TrainerView,
) -> bool {
    match key {
        KeyPress::Esc => new == TrainerView { state: AppState::LessonSelection, ..old },
        KeyPress::Char(c) => {
            let session = key_step(old.session, c, now);
            if !session.is_finished() {
                new == TrainerView { session, ..old }
            } else {
                let i = old.list.selected->0;
                let list = LessonListView {
                    records: old.list.records.insert(
                        i,
                        records_at(old.list.records, i).push(record_of(session, now)),
                    ),
                    ..old.list
                };
                start_result(TrainerView { list, session, state: old.state }, new)
            }
        },
        _ => new == old,
    }
}

/// One tick of the application with the input `input` at time `now`.
pub open spec fn tick_result(
    old: TrainerView,
    input: OptionalInput,
    now: Timestamp,
    new: TrainerView,
) -> bool {
    match input {
        OptionalInput::NoInput => new == old,
        OptionalInput::InputKey(key) => match old.state {
            AppState::Training => training_result(old, key, now, new),
            AppState::LessonSelection => selection_result(old, key, new),
            AppState::Terminated => new == old,
        },
    }
}

/// The typing trainer: a lesson list, the current session and the state that
/// decides where input goes.
pub struct TrainerApp {
    pub lesson_list: SelectableLessonList,
    lesson_progress: TrainingSession,
    state: AppState,
    file_path: String,
}

impl View for TrainerApp {
    type V = TrainerView;

    closed spec fn view(&self) -> TrainerView {
        TrainerView { list: self.lesson_list@, session: self.lesson_progress@, state: self.state }
    }
}

impl TrainerApp {
    pub closed spec fn wf(&self) -> bool {
        &&& self.start_ready()
        &&& self.state == AppState::Training ==> !self.lesson_progress@.is_finished()
    }

    /// The list and the session are well formed, and while training a session
    /// can be started on the selected lesson.
    pub closed spec fn start_ready(&self) -> bool {
        &&& self.lesson_list.wf()
        &&& self.lesson_progress.wf()
        &&& self.state == AppState::Training ==> can_start(self.lesson_list@)
    }

    pub closed spec fn file_path_view(&self) -> Seq<char> {
        self.file_path@
    }

    pub fn new(lessons: Vec<Lesson>) -> (r: TrainerApp)
        ensures
            r.wf(),
            r@.list.lessons == lessons@,
            r@.list.selected is None,
            r@.list.records == Map::<usize, Seq<TrainingRecord>>::empty(),
            r@.session == fresh_session(seq![' ']),
            r@.state == AppState::LessonSelection,
            r.file_path_view().len() == 0,
    {
        TrainerApp {
            lesson_list: SelectableLessonList::new(lessons),
            lesson_progress: TrainingSession::default(),
            state: AppState::LessonSelection,
            file_path: String::new(),
        }
    }

    /// An application over a lesson list read from `file_path`, to be saved
    /// back there.
    pub fn from_lesson_list(lesson_list: SelectableLessonList, file_path: String) -> (r: TrainerApp)
        requires
            lesson_list.wf(),
        ensures
            r.wf(),
            r@.list == lesson_list@,
            r@.session == fresh_session(seq![' ']),
            r@.state == AppState::LessonSelection,
            r.file_path_view() == file_path@,
    {
        TrainerApp {
            lesson_list,
            lesson_progress: TrainingSession::default(),
            state: AppState::LessonSelection,
            file_path,
        }
    }

    pub fn file_path(&self) -> (r: &str)
        ensures
            r@ == self.file_path_view(),
    {
        self.file_path.as_str()
    }

    pub fn state(&self) -> (r: &AppState)
        ensures
            *r == self@.state,
    {
        &self.state
    }

    pub fn lessons(&self) -> (r: &[Lesson])
        ensures
            r@ == self@.list.lessons,
    {
        self.lesson_list.lessons()
    }

    pub fn lesson_progress(&self) -> (r: &TrainingSession)
        requires
            self.wf(),
        ensures
            r@ == self@.session,
            r.wf(),
    {
        &self.lesson_progress
    }

    /// Handles one tick's input, reading the system clock for the time of a
    /// keystroke.
    pub fn tick(&mut self, optional_input: OptionalInput)
        requires
            old(self).wf(),
        ensures
            final(self).wf(),
            exists|now: Timestamp| tick_result(old(self)@, optional_input, now, final(self)@),
    {
        let now = Clock::now();
        self.tick_at(optional_input, now);
    }

    /// Handles one tick's input, made at time `now`.
    pub fn tick_at(&mut self, optional_input: OptionalInput, now: Timestamp)
        requires
            old(self).wf(),
        ensures
            final(self).wf(),
            tick_result(old(self)@, optional_input, now, final(self)@),
    {
        match optional_input {
            OptionalInput::InputKey(key) => self.handle_input(key, now),
            OptionalInput::NoInput => {},
        }
    }

    fn handle_input(&mut self, input_key: KeyPress, now: Timestamp)
        requires
            old(self).wf(),
        ensures
            final(self).wf(),
            tick_result(old(self)@, OptionalInput::InputKey(input_key), now, final(self)@),
    {
        match self.state {
            AppState::Training => self.handle_training(input_key, now),
            AppState::LessonSelection => self.handle_lesson_selection(input_key),
            AppState::Terminated => {},
        }
    }

    fn handle_training(&mut self, input_key: KeyPress, now: Timestamp)
        requires
            old(self).wf(),
            old(self)@.state == AppState::Training,
        ensures
            final(self).wf(),
            training_result(old(self)@, input_key, now, final(self)@),
    {
        match input_key {
            KeyPress::Esc => {
                self.state = AppState::LessonSelection;
            },
            KeyPress::Char(c) => {
                self.lesson_progress.handle_key(c, now);
                if self.lesson_progress.is_finished() {
                    let record = self.lesson_progress.training_record(now);
                    self.lesson_list.add_record_to_current_session(record);
                    self.begin_session();
                }
            },
            _ => {},
        }
    }

    fn handle_lesson_selection(&mut self, input_key: KeyPress)
        requires
            old(self).wf(),
            old(self)@.state == AppState::LessonSelection,
        ensures
            final(self).wf(),
            selection_result(old(self)@, input_key, final(self)@),
    {
        match input_key {
            KeyPress::Esc => {
                self.state = AppState::Terminated;
            },
            KeyPress::Down => {
                self.lesson_list.select_next_lesson();
            },
            KeyPress::Up => {
                self.lesson_list.select_prev_lesson();
            },
            KeyPress::Char('\n') => {
                self.begin_session();
            },
            _ => {},
        }
    }

    /// Starts a session on the selected lesson, where one can be started.
    pub fn start_session(&mut self)
        requires
            old(self).wf(),
        ensures
            final(self).wf(),
            start_result(old(self)@, final(self)@),
    {
        self.begin_session();
    }

    /// Starts a session on the selected lesson, where one can be started; the
    /// current session may have finished.
    fn begin_session(&mut self)
        requires
            old(self).start_ready(),
        ensures
            final(self).wf(),
            start_result(old(self)@, final(self)@),
    {
        if let Some(lesson) = self.lesson_list.current_lesson() {
            if lesson.can_generate_content() {
                let content = lesson.generate_lesson_content();
                proof {
                    lemma_content_bounds(*lesson, content@);
                }
                let session = TrainingSession::new(content);

                if !session.is_finished() {
                    self.lesson_progress = session;
                    self.state = AppState::Training;
                }
            }
        }
    }
}

} // verus!

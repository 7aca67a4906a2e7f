use vstd::prelude::*;

use std::collections::HashMap;

use crate::lesson::Lesson;
use crate::stats::TrainingRecord;

verus! {

/// A lesson list as a mathematical value.
pub struct LessonListView {
    pub lessons: Seq<Lesson>,
    pub selected: Option<usize>,
    /// The history of each lesson, by index.
    pub records: Map<usize, Seq<TrainingRecord>>,
}

/// Why a lesson list could not be built from its parts.
#[derive(PartialEq, Eq, Structural, Debug, Clone, Copy)]
pub enum LessonListError {
    /// The selected index is not that of a lesson.
    SelectionOutOfRange,
}

/// The history of the lesson at `index`: empty where none was recorded.
pub open spec fn records_at(records: Map<usize, Seq<TrainingRecord>>, index: usize) -> Seq<
    TrainingRecord,
> {
    if records.contains_key(index) {
        records[index]
    } else {
        Seq::empty()
    }
}

/// The histories of `records`, each as a sequence.
pub open spec fn records_view(records: Map<usize, Vec<TrainingRecord>>) -> Map<
    usize,
    Seq<TrainingRecord>,
> {
    records.map_values(|v: Vec<TrainingRecord>| v@)
}

/// A selection is valid for a list of `len` lessons when it is absent or
/// names one of them.
pub open spec fn selection_valid(selected: Option<usize>, len: nat) -> bool {
    match selected {
        Some(i) => i < len,
        None => true,
    }
}

/// The selection after moving down a list of `len` lessons: the first lesson
/// when none was selected, the next one otherwise, and no move past the last.
pub open spec fn next_selection(selected: Option<usize>, len: nat) -> Option<usize> {
    match selected {
        None => if len > 0 {
            Some(0usize)
        } else {
            None
        },
        Some(i) => if i + 1 < len {
            Some((i + 1) as usize)
        } else {
            Some(i)
        },
    }
}

/// The selection after moving up a list of `len` lessons: the last lesson
/// when none was selected, the one before otherwise, and no move before the
/// first.
pub open spec fn prev_selection(selected: Option<usize>, len: nat) -> Option<usize> {
    match selected {
        None => if len > 0 {
            Some((len - 1) as usize)
        } else {
            None
        },
        Some(i) => if i == 0 {
            Some(i)
        } else {
            Some((i - 1) as usize)
        },
    }
}

/// An ordered list of lessons with an optional selection and the history of
/// each lesson's sessions.
pub struct SelectableLessonList {
    lessons: Vec<Lesson>,
    selected_index: Option<usize>,
    training_records: HashMap<usize, Vec<TrainingRecord>>,
}

impl View for SelectableLessonList {
    type V = LessonListView;

    closed spec fn view(&self) -> LessonListView {
        LessonListView {
            lessons: self.lessons@,
            selected: self.selected_index,
            records: records_view(self.training_records@),
        }
    }
}

impl SelectableLessonList {
    pub open spec fn wf(&self) -> bool {
        selection_valid(self@.selected, self@.lessons.len())
    }

    pub fn new(lessons: Vec<Lesson>) -> (r: Self)
        ensures
            r.wf(),
            r@.lessons == lessons@,
            r@.selected is None,
            r@.records == Map::<usize, Seq<TrainingRecord>>::empty(),
    {
        let r = Self { lessons, selected_index: None, training_records: HashMap::new() };
        assert(r@.records =~= Map::<usize, Seq<TrainingRecord>>::empty());
        r
    }

    /// Builds a list from its lessons, selection and history, as taken apart by
    /// `lessons`, `selected_index` and `training_records`.
    pub fn from_parts(
        lessons: Vec<Lesson>,
        selected_index: Option<usize>,
        training_records: HashMap<usize, Vec<TrainingRecord>>,
    ) -> (r: Result<Self, LessonListError>)
        ensures
            r is Ok <==> selection_valid(selected_index, lessons@.len()),
            r is Err ==> r == Err::<Self, LessonListError>(LessonListError::SelectionOutOfRange),
            r matches Ok(list) ==> {
                &&& list.wf()
                &&& list@ == LessonListView {
                    lessons: lessons@,
                    selected: selected_index,
                    records: records_view(training_records@),
                }
            },
    {
        match selected_index {
            Some(i) => {
                if i >= lessons.len() {
                    return Err(LessonListError::SelectionOutOfRange);
                }
            },
            None => {},
        }
        Ok(Self { lessons, selected_index, training_records })
    }

    pub fn lessons(&self) -> (r: &[Lesson])
        ensures
            r@ == self@.lessons,
    {
        self.lessons.as_slice()
    }

    pub fn selected_index(&self) -> (r: Option<usize>)
        ensures
            r == self@.selected,
    {
        self.selected_index
    }

    /// The history of every lesson, by index.
    pub fn training_records(&self) -> (r: &HashMap<usize, Vec<TrainingRecord>>)
        ensures
            records_view(r@) == self@.records,
    {
        &self.training_records
    }

    /// The selected lesson, if any.
    pub fn current_lesson(&self) -> (r: Option<&Lesson>)
        requires
            self.wf(),
        ensures
            match self@.selected {
                Some(i) => r == Some(&self@.lessons[i as int]),
                None => r is None,
            },
    {
        match self.selected_index {
            Some(i) => Some(&self.lessons[i]),
            None => None,
        }
    }

    /// The history of the selected lesson: empty where nothing is selected or
    /// nothing was recorded.
    pub fn current_lesson_records(&self) -> (r: &[TrainingRecord])
        ensures
            match self@.selected {
                Some(i) => r@ == records_at(self@.records, i),
                None => r@.len() == 0,
            },
    {
        match self.selected_index {
            Some(i) => match self.training_records.get(&i) {
                Some(records) => records.as_slice(),
                None => &[],
            },
            None => &[],
        }
    }

    pub fn select_next_lesson(&mut self)
        requires
            old(self).wf(),
        ensures
            final(self).wf(),
            final(self)@.lessons == old(self)@.lessons,
            final(self)@.records == old(self)@.records,
            final(self)@.selected == next_selection(old(self)@.selected, old(self)@.lessons.len()),
            old(self)@.lessons.len() == 0 ==> final(self)@.selected is None,
            old(self)@.selected == Some((old(self)@.lessons.len() - 1) as usize)
                ==> final(self)@.selected == old(self)@.selected,
    {
        match self.selected_index {
            None => {
                if self.lessons.len() > 0 {
                    self.selected_index = Some(0);
                }
            },
            Some(current) => {
                if self.lessons.len() > 0 && current < self.lessons.len() - 1 {
                    self.selected_index = Some(current + 1);
                }
            },
        }
    }

    pub fn select_prev_lesson(&mut self)
        requires
            old(self).wf(),
        ensures
            final(self).wf(),
            final(self)@.lessons == old(self)@.lessons,
            final(self)@.records == old(self)@.records,
            final(self)@.selected == prev_selection(old(self)@.selected, old(self)@.lessons.len()),
            old(self)@.lessons.len() == 0 ==> final(self)@.selected is None,
            old(self)@.selected == Some(0usize) ==> final(self)@.selected == old(self)@.selected,
    {
        match self.selected_index {
            None => {
                if self.lessons.len() > 0 {
                    self.selected_index = Some(self.lessons.len() - 1);
                }
            },
            Some(0) => {},
            Some(current) => {
                self.selected_index = Some(current - 1);
            },
        }
    }

    /// Appends `training_record` to the history of the selected lesson.
    pub fn add_record_to_current_session(&mut self, training_record: TrainingRecord)
        requires
            old(self).wf(),
            old(self)@.selected is Some,
        ensures
            final(self).wf(),
            final(self)@.lessons == old(self)@.lessons,
            final(self)@.selected == old(self)@.selected,
            final(self)@.records == old(self)@.records.insert(
                old(self)@.selected->0,
                records_at(old(self)@.records, old(self)@.selected->0).push(training_record),
            ),
    {
        let index = match self.selected_index {
            Some(i) => i,
            None => 0,
        };
        let mut records = match self.training_records.remove(&index) {
            Some(records) => records,
            None => Vec::new(),
        };
        records.push(training_record);
        self.training_records.insert(index, records);
        assert(self@.records =~= old(self)@.records.insert(
            index,
            records_at(old(self)@.records, index).push(training_record),
        ));
    }
}

/// Taking a well-formed list apart into its lessons, selection and history
/// gives parts that `from_parts` accepts and that describe the same list.
pub proof fn lemma_parts_round_trip(list: SelectableLessonList)
    requires
        list.wf(),
    ensures
        selection_valid(list@.selected, list@.lessons.len()),
        (LessonListView {
            lessons: list@.lessons,
            selected: list@.selected,
            records: list@.records,
        }) == list@,
{
}

} // verus!

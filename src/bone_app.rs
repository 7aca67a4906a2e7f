use vstd::prelude::*;
use vstd::string::StringExecFns;

use crate::enums::AppState;
use crate::lesson::{to_characters, Lesson};
use crate::trainer::TrainerApp;
use crate::weighting_strategy::WeightingStrategy;

verus! {

/// The home row of the Bone layout, in the order the lessons add its keys.
pub open spec fn bone_home_row() -> Seq<char> {
    seq!['i', 'e', 'n', 'r', 't', 's', 'c', 'g', 'o', 'b', 'q']
}

/// How many home-row keys each of the five lessons practises.
pub open spec fn bone_lesson_key_count(lesson: int) -> int {
    if lesson < 4 {
        4 + 2 * lesson
    } else {
        11
    }
}

/// `lesson` is lesson `n` (counting from 0) of the Bone home-row course: the
/// first keys of the home row, equally weighted, in texts of at least 8
/// characters made of 4-character words.
pub open spec fn is_bone_lesson(lesson: Lesson, n: int) -> bool {
    &&& lesson.keys_view() == to_characters(bone_home_row().take(bone_lesson_key_count(n)))
    &&& lesson.strategy() == WeightingStrategy::EqualWeight
    &&& lesson.target_length() == 8
    &&& lesson.word_len() == 4
}

fn create_bone_home_row_lessons() -> (r: Vec<Lesson>)
    ensures
        r@.len() == 5,
        forall|n: int| 0 <= n < 5 ==> is_bone_lesson(#[trigger] r@[n], n),
        r@[0].name_view() == "Lesson 1"@,
        r@[1].name_view() == "Lesson 2"@,
        r@[2].name_view() == "Lesson 3"@,
        r@[3].name_view() == "Lesson 4"@,
        r@[4].name_view() == "Lesson 5"@,
{
    let lesson_length: u32 = 8;
    let word_length: u8 = 4;

    let mut lessons: Vec<Lesson> = Vec::new();
    // home row "ctie ob nrsg q"
    let lesson_1 = Lesson::from_chars(
        String::from_str("Lesson 1"),
        &['i', 'e', 'n', 'r'],
        lesson_length,
        word_length,
        WeightingStrategy::EqualWeight,
    );
    let lesson_2 = lesson_1.add_chars(
        String::from_str("Lesson 2"),
        &['t', 's'],
        WeightingStrategy::EqualWeight,
    );
    let lesson_3 = lesson_2.add_chars(
        String::from_str("Lesson 3"),
        &['c', 'g'],
        WeightingStrategy::EqualWeight,
    );
    let lesson_4 = lesson_3.add_chars(
        String::from_str("Lesson 4"),
        &['o', 'b'],
        WeightingStrategy::EqualWeight,
    );
    let lesson_5 = lesson_4.add_chars(
        String::from_str("Lesson 5"),
        &['q'],
        WeightingStrategy::EqualWeight,
    );
    proof {
        let home = bone_home_row();
        assert(lesson_1.keys_view() =~= to_characters(home.take(4)));
        assert(lesson_2.keys_view() =~= to_characters(home.take(6)));
        assert(lesson_3.keys_view() =~= to_characters(home.take(8)));
        assert(lesson_4.keys_view() =~= to_characters(home.take(10)));
        assert(lesson_5.keys_view() =~= to_characters(home.take(11)));
    }
    lessons.push(lesson_1);
    lessons.push(lesson_2);
    lessons.push(lesson_3);
    lessons.push(lesson_4);
    lessons.push(lesson_5);
    lessons
}

/// A trainer over the Bone home-row course, with nothing selected.
pub fn create_bone_trainer() -> (r: TrainerApp)
    ensures
        r.wf(),
        r@.list.lessons.len() == 5,
        forall|n: int| 0 <= n < 5 ==> is_bone_lesson(#[trigger] r@.list.lessons[n], n),
        r@.list.selected is None,
        r@.state == AppState::LessonSelection,
{
    let home_row_lessons = create_bone_home_row_lessons();
    TrainerApp::new(home_row_lessons)
}

} // verus!

use std::collections::HashMap;

use keyboard_layout_lessons_r::clock::Timestamp;
use keyboard_layout_lessons_r::lesson::Lesson;
use keyboard_layout_lessons_r::selectable_session_list::{LessonListError, SelectableLessonList};
use keyboard_layout_lessons_r::stats::{TrainingRecord, TrainingStatistics};
use keyboard_layout_lessons_r::typing_errors::TypingErrors;
use keyboard_layout_lessons_r::typing_speed::TypingSpeed;
use keyboard_layout_lessons_r::weighting_strategy::WeightingStrategy;

fn get_sample_lessons() -> Vec<Lesson> {
    let lesson_1 = Lesson::from_chars(
        String::from("Lesson 1"),
        &['1'],
        10,
        4,
        WeightingStrategy::EqualWeight,
    );
    let lesson_2 = lesson_1.add_chars(
        String::from("Lesson 2"),
        &['2'],
        WeightingStrategy::EqualWeight,
    );
    vec![lesson_1, lesson_2]
}

fn unit_with(selected_index: Option<usize>) -> SelectableLessonList {
    SelectableLessonList::from_parts(get_sample_lessons(), selected_index, HashMap::new()).unwrap()
}

fn record(millis: i64, errors: u16, cpm: u16) -> TrainingRecord {
    TrainingRecord {
        timestamp: Timestamp::from_millis(millis),
        stats: TrainingStatistics {
            errors: TypingErrors { total_error_count: errors },
            typing_speed: TypingSpeed::CharactersPerMinute(cpm),
        },
    }
}

#[test]
fn test_select_next_lesson() {
    let mut unit = unit_with(Some(0));
    unit.select_next_lesson();
    assert_eq!(unit.selected_index(), Some(1))
}

#[test]
fn test_select_next_lesson_when_last_index_is_selected() {
    let mut unit = unit_with(Some(1));
    unit.select_next_lesson();
    assert_eq!(unit.selected_index(), Some(1))
}

#[test]
fn test_select_next_lesson_when_none_is_selected() {
    let mut unit = unit_with(None);
    unit.select_next_lesson();
    assert_eq!(unit.selected_index(), Some(0))
}

#[test]
fn test_select_prev_lesson() {
    let mut unit = unit_with(Some(1));
    unit.select_prev_lesson();
    assert_eq!(unit.selected_index(), Some(0))
}

#[test]
fn test_select_prev_lesson_when_first_index_is_selected() {
    let mut unit = unit_with(Some(0));
    unit.select_prev_lesson();
    assert_eq!(unit.selected_index(), Some(0))
}

#[test]
fn test_select_prev_lesson_when_none_is_selected() {
    let mut unit = unit_with(None);
    unit.select_prev_lesson();
    assert_eq!(unit.selected_index(), Some(1))
}

#[test]
fn test_get_current_lesson() {
    let unit = unit_with(Some(0));
    assert_eq!(unit.current_lesson(), unit.lessons().get(0))
}

#[test]
fn test_get_current_lesson_when_none_is_selected() {
    let unit = unit_with(None);
    assert_eq!(unit.current_lesson(), None)
}

#[test]
fn selection_on_empty_list_stays_none() {
    let mut unit = SelectableLessonList::new(Vec::new());
    unit.select_next_lesson();
    assert_eq!(unit.selected_index(), None);
    unit.select_prev_lesson();
    assert_eq!(unit.selected_index(), None);
    assert_eq!(unit.current_lesson(), None);
    assert!(unit.current_lesson_records().is_empty());
}

#[test]
fn new_list_has_nothing_selected_and_no_history() {
    let unit = SelectableLessonList::new(get_sample_lessons());
    assert_eq!(unit.selected_index(), None);
    assert!(unit.training_records().is_empty());
    assert_eq!(unit.lessons().len(), 2);
}

#[test]
fn records_go_to_the_selected_lesson_in_order() {
    let mut unit = unit_with(Some(1));
    assert!(unit.current_lesson_records().is_empty());
    unit.add_record_to_current_session(record(1, 2, 30));
    unit.add_record_to_current_session(record(2, 0, 45));
    assert_eq!(unit.current_lesson_records(), &[record(1, 2, 30), record(2, 0, 45)]);
    unit.select_prev_lesson();
    assert!(unit.current_lesson_records().is_empty());
    unit.add_record_to_current_session(record(3, 1, 20));
    assert_eq!(unit.current_lesson_records(), &[record(3, 1, 20)]);
    assert_eq!(unit.training_records().len(), 2);
}

#[test]
fn from_parts_rejects_selection_out_of_range() {
    let result = SelectableLessonList::from_parts(get_sample_lessons(), Some(2), HashMap::new());
    assert_eq!(result.err(), Some(LessonListError::SelectionOutOfRange));
}

#[test]
fn parts_round_trip_keeps_lessons_selection_and_history() {
    let mut unit = unit_with(Some(1));
    unit.add_record_to_current_session(record(10, 3, 50));
    unit.add_record_to_current_session(record(20, 1, 60));
    let rebuilt = SelectableLessonList::from_parts(
        unit.lessons().to_vec(),
        unit.selected_index(),
        unit.training_records().clone(),
    )
    .unwrap();
    assert_eq!(rebuilt.lessons(), unit.lessons());
    assert_eq!(rebuilt.selected_index(), unit.selected_index());
    assert_eq!(rebuilt.training_records(), unit.training_records());
    assert_eq!(rebuilt.current_lesson_records(), unit.current_lesson_records());
}

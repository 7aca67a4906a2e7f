use keyboard_layout_lessons_r::clock::{FakeClock, Timestamp};
use keyboard_layout_lessons_r::training_session::{InputResult, TrainingSession};
use keyboard_layout_lessons_r::typing_speed::TypingSpeed;

const MINUTE_MILLIS: i64 = 60_000;

fn start_clock() -> FakeClock {
    FakeClock::new(Timestamp::from_millis(946_728_000_000))
}

#[test]
fn test_characters_per_minute_also_counts_spaces() {
    let mut clock = start_clock();
    let content_with_15_chars = "abcde fghijklmn";
    let mut unit = TrainingSession::new(content_with_15_chars.to_string());
    let mut chars = content_with_15_chars.chars();
    unit.handle_key(chars.next().unwrap(), clock.now());
    clock.advance(MINUTE_MILLIS);
    for c in chars {
        unit.handle_key(c, clock.now());
    }
    assert!(unit.is_finished());
    // the session has ended: later readings do not change the speed
    clock.advance(MINUTE_MILLIS);
    assert_eq!(unit.typing_speed(clock.now()), TypingSpeed::CharactersPerMinute(15))
}

#[test]
fn test_characters_per_minute_is_undefined_if_not_started() {
    let mut clock = start_clock();
    let content_with_15_chars = "abcde fghijklmn";
    let unit = TrainingSession::new(content_with_15_chars.to_string());
    clock.advance(MINUTE_MILLIS);
    assert_eq!(unit.typing_speed(clock.now()), TypingSpeed::CharactersPerMinute(0))
}

#[test]
fn test_characters_per_minute_during_session() {
    let mut clock = start_clock();
    let content_with_15_chars = "abcde fghijklmn";
    let mut unit = TrainingSession::new(content_with_15_chars.to_string());
    for c in "abcde".chars() {
        unit.handle_key(c, clock.now());
    }
    clock.advance(MINUTE_MILLIS);
    assert_eq!(unit.remaining_text(), "fghijklmn");
    assert_eq!(unit.current_char(), Some(' '));
    assert_eq!(unit.typing_speed(clock.now()), TypingSpeed::CharactersPerMinute(5))
}

#[test]
fn fifteen_characters_in_one_minute_without_finishing() {
    let mut clock = start_clock();
    let mut unit = TrainingSession::new(String::from("abcdefghijklmnopqrst"));
    for c in "abcdefghijklmno".chars() {
        unit.handle_key(c, clock.now());
    }
    clock.advance(MINUTE_MILLIS);
    assert!(!unit.is_finished());
    assert_eq!(unit.typing_speed(clock.now()), TypingSpeed::CharactersPerMinute(15));
}

#[test]
fn typing_the_content_exactly_finishes_on_the_last_key() {
    let clock = start_clock();
    let content = "ab cd";
    let mut unit = TrainingSession::new(content.to_string());
    let n = content.chars().count();
    for (i, c) in content.chars().enumerate() {
        assert!(!unit.is_finished());
        unit.handle_key(c, clock.now());
        assert_eq!(unit.is_finished(), i + 1 == n);
    }
    assert_eq!(unit.errors().total_error_count, 0);
    assert_eq!(unit.finished_len(), unit.content_len());
    assert_eq!(unit.finished_text(), content);
    assert_eq!(unit.current_char(), None);
    assert_eq!(unit.remaining_text(), "");
}

#[test]
fn wrong_key_counts_an_error_and_does_not_advance() {
    let clock = start_clock();
    let mut unit = TrainingSession::new(String::from("xy"));
    unit.handle_key('q', clock.now());
    assert_eq!(unit.errors().total_error_count, 1);
    assert_eq!(unit.finished_len(), 0);
    assert_eq!(unit.current_char(), Some('x'));
    assert_eq!(unit.last_input_result(), InputResult::Wrong);
    unit.handle_key('x', clock.now());
    assert_eq!(unit.errors().total_error_count, 1);
    assert_eq!(unit.finished_len(), 1);
    assert_eq!(unit.current_char(), Some('y'));
    assert_eq!(unit.last_input_result(), InputResult::Correct);
}

#[test]
fn speed_under_one_second_is_zero() {
    let mut clock = start_clock();
    let mut unit = TrainingSession::new(String::from("abc"));
    unit.handle_key('a', clock.now());
    clock.advance(999);
    unit.handle_key('b', clock.now());
    assert_eq!(unit.typing_speed(clock.now()), TypingSpeed::CharactersPerMinute(0));
    clock.advance(1);
    assert_eq!(unit.typing_speed(clock.now()), TypingSpeed::CharactersPerMinute(120));
}

#[test]
fn speed_rounds_down_to_whole_seconds() {
    let mut clock = start_clock();
    let mut unit = TrainingSession::new(String::from("abcdefg"));
    for c in "abcdefg".chars() {
        unit.handle_key(c, clock.now());
        clock.advance(1_500);
    }
    // started at 0 s, ended at 9 s: 7 characters in 9 whole seconds
    assert_eq!(unit.typing_speed(clock.now()), TypingSpeed::CharactersPerMinute(46));
}

#[test]
fn completed_session_words_per_minute_times_five() {
    let mut clock = start_clock();
    let mut unit = TrainingSession::new(String::from("abcdefghij"));
    unit.handle_key('a', clock.now());
    clock.advance(MINUTE_MILLIS);
    for c in "bcdefghij".chars() {
        unit.handle_key(c, clock.now());
    }
    let speed = unit.typing_speed(clock.now());
    assert_eq!(speed, TypingSpeed::CharactersPerMinute(10));
    assert_eq!(speed.words_per_minute() as u32 * 5, speed.characters_per_minute());
}

#[test]
fn training_record_uses_start_time() {
    let mut clock = start_clock();
    let started = clock.now();
    let mut unit = TrainingSession::new(String::from("ab"));
    unit.handle_key('a', clock.now());
    clock.advance(MINUTE_MILLIS);
    unit.handle_key('z', clock.now());
    unit.handle_key('b', clock.now());
    let record = unit.training_record(clock.now());
    assert_eq!(record.timestamp, started);
    assert_eq!(record.stats.errors.total_error_count, 1);
    assert_eq!(record.stats.typing_speed, TypingSpeed::CharactersPerMinute(2));
}

#[test]
fn training_record_of_unstarted_session_uses_now() {
    let clock = start_clock();
    let unit = TrainingSession::new(String::from("ab"));
    assert_eq!(unit.training_record(clock.now()).timestamp, clock.now());
}

#[test]
fn empty_session_is_finished_from_the_start() {
    let unit = TrainingSession::new(String::new());
    assert!(unit.is_finished());
    assert_eq!(unit.current_char(), None);
}

#[test]
fn default_session_is_one_space() {
    let unit = TrainingSession::default();
    assert_eq!(unit.lesson_content(), " ");
    assert_eq!(unit.current_char(), Some(' '));
    assert_eq!(unit.last_input_result(), InputResult::Waiting);
}

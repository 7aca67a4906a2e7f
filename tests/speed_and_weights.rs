use keyboard_layout_lessons_r::character::Character;
use keyboard_layout_lessons_r::clock::{Clock, FakeClock, Timestamp};
use keyboard_layout_lessons_r::key::Key;
use keyboard_layout_lessons_r::typing_speed::TypingSpeed;
use keyboard_layout_lessons_r::weighting_strategy::{FocusKey, ProvideKeyWeight, WeightingStrategy};

#[test]
fn test_words_per_minute_uses_5_char_per_word_convention() {
    assert_eq!(TypingSpeed::CharactersPerMinute(15).words_per_minute(), 3)
}

#[test]
fn words_per_minute_truncates() {
    assert_eq!(TypingSpeed::CharactersPerMinute(14).words_per_minute(), 2);
    assert_eq!(TypingSpeed::WordsPerMinute(7).words_per_minute(), 7);
    assert_eq!(TypingSpeed::WordsPerMinute(7).characters_per_minute(), 35);
    assert_eq!(TypingSpeed::CharactersPerMinute(60).words_per_minute() * 5, 60);
}

#[test]
fn always_eq_weight_always_returns_1() {
    let strategy = WeightingStrategy::EqualWeight;
    let current_key = Character { value: 'a' };
    assert_eq!(strategy.get_key_weight(current_key) as f64, 1.0)
}

#[test]
fn focus_key_always_returns_1_for_non_focused_key() {
    let strategy = WeightingStrategy::FocusKey(FocusKey {
        focused_keys: vec![Character { value: 'a' }],
        weight: 10,
    });
    let current_key = Character { value: 'b' };
    assert_eq!(strategy.get_key_weight(current_key) as f64, 1.0)
}

#[test]
fn focus_key_always_returns_weight_for_focused_key() {
    let strategy = WeightingStrategy::FocusKey(FocusKey {
        focused_keys: vec![Character { value: 'a' }],
        weight: 10,
    });
    let current_key = Character { value: 'a' };
    assert_eq!(strategy.get_key_weight(current_key) as f64, 10.0)
}

#[test]
fn fake_clock_does_not_advance_by_itself() {
    let clock = FakeClock::new(Clock::now());
    let time1 = clock.now();
    let _busy: u64 = (0..100_000u64).sum();
    let time2 = clock.now();
    assert_eq!(time1, time2)
}

#[test]
fn fake_clock_returns_set_time() {
    let expected_datetime = chrono::DateTime::parse_from_rfc3339("2000-01-01T12:00:00Z")
        .unwrap()
        .with_timezone(&chrono::Utc);
    let expected = Timestamp::from_millis(expected_datetime.timestamp_millis());
    let mut clock = FakeClock::new(Clock::now());
    clock.set(expected);
    assert_eq!(expected, clock.now())
}

#[test]
fn fake_advances() {
    let mut clock = FakeClock::new(Clock::now());
    let time1 = clock.now();
    let expected_duration = chrono::Duration::days(1);
    clock.advance(expected_duration.num_milliseconds());
    let expected = chrono::DateTime::from_timestamp_millis(time1.millis).unwrap() + expected_duration;
    assert_eq!(expected.timestamp_millis(), clock.now().millis)
}

#[test]
fn system_clock_is_near_chrono_now() {
    let before = chrono::Utc::now().timestamp_millis();
    let now = Clock::now().millis;
    let after = chrono::Utc::now().timestamp_millis();
    assert!(before <= now && now <= after);
}

#[test]
fn key_and_character_keep_their_value() {
    assert_eq!(Key::new('k').value, 'k');
    assert_eq!(Character::new('c').value, 'c');
}

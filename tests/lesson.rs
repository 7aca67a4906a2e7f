use keyboard_layout_lessons_r::character::Character;
use keyboard_layout_lessons_r::lesson::Lesson;
use keyboard_layout_lessons_r::weighting_strategy::{FocusKey, WeightingStrategy};

fn single_key_lesson() -> Lesson {
    Lesson::from_chars(String::new(), &['a'], 10, 2, WeightingStrategy::EqualWeight)
}

#[test]
fn has_roughly_specified_length() {
    let lesson = single_key_lesson();
    let lesson_length = lesson.generate_lesson_content().len() as u32;
    assert!(
        lesson.lesson_length() <= lesson_length
            && lesson_length <= lesson.lesson_length() + lesson.word_length() as u32
    )
}

#[test]
fn content_does_not_start_or_end_with_whitespace() {
    let lesson = single_key_lesson();
    let lesson_content = lesson.generate_lesson_content();
    assert_eq!(lesson_content, lesson_content.trim());
}

#[test]
fn append_key_to_lesson() {
    let original_key = Character { value: 'a' };
    let original_lesson = Lesson::from_chars(
        String::from("original_lesson"),
        &[original_key.value],
        10,
        2,
        WeightingStrategy::EqualWeight,
    );
    let extra_key = Character { value: 'b' };

    let expected_lesson = Lesson::from_chars(
        String::from("lesson name"),
        &[original_key.value, extra_key.value],
        10,
        2,
        WeightingStrategy::EqualWeight,
    );
    let extended_lesson = original_lesson.add_key(
        String::from("lesson name"),
        extra_key,
        WeightingStrategy::EqualWeight,
    );

    assert_eq!(extended_lesson, expected_lesson)
}

#[test]
fn single_key_content_is_that_key_in_words() {
    let lesson = single_key_lesson();
    // words of 2 joined by spaces until at least 10 characters: 4 words
    assert_eq!(lesson.generate_lesson_content(), "aa aa aa aa");
}

#[test]
fn zero_target_length_gives_one_word() {
    let lesson = Lesson::from_chars(String::new(), &['x'], 0, 3, WeightingStrategy::EqualWeight);
    assert_eq!(lesson.generate_lesson_content(), "xxx");
}

#[test]
fn exact_word_boundary_gives_no_extra_word() {
    // two words of 4 and a space make exactly 9 characters
    let lesson = Lesson::from_chars(String::new(), &['q'], 9, 4, WeightingStrategy::EqualWeight);
    assert_eq!(lesson.generate_lesson_content(), "qqqq qqqq");
}

#[test]
fn content_length_stays_within_one_word_of_target() {
    let lesson = Lesson::from_chars(
        String::from("mixed"),
        &['i', 'e', 'n', 'r'],
        50,
        4,
        WeightingStrategy::EqualWeight,
    );
    for _ in 0..20 {
        let content = lesson.generate_lesson_content();
        let len = content.chars().count();
        assert!(50 <= len && len <= 54);
        assert_eq!((len + 1) % 5, 0);
        for (i, c) in content.chars().enumerate() {
            if (i + 1) % 5 == 0 {
                assert_eq!(c, ' ');
            } else {
                assert!("iern".contains(c));
            }
        }
    }
}

#[test]
fn zero_weight_keys_are_never_drawn() {
    let strategy = WeightingStrategy::FocusKey(FocusKey {
        focused_keys: vec![Character { value: 'b' }],
        weight: 0,
    });
    let lesson = Lesson::from_chars(String::from("only a"), &['a', 'b'], 40, 5, strategy);
    assert!(lesson.can_generate_content());
    for _ in 0..10 {
        let content = lesson.generate_lesson_content();
        assert!(content.chars().all(|c| c == 'a' || c == ' '));
        assert!(content.contains('a'));
    }
}

#[test]
fn total_key_weight_sums_the_strategy_weights() {
    let strategy = WeightingStrategy::FocusKey(FocusKey {
        focused_keys: vec![Character { value: 'a' }],
        weight: 10,
    });
    let lesson = Lesson::from_chars(String::new(), &['a', 'b', 'c'], 10, 2, strategy);
    assert_eq!(lesson.total_key_weight(), Some(12));
}

#[test]
fn total_key_weight_overflow_is_none() {
    let strategy = WeightingStrategy::FocusKey(FocusKey {
        focused_keys: vec![Character { value: 'a' }, Character { value: 'b' }],
        weight: u32::MAX,
    });
    let lesson = Lesson::from_chars(String::new(), &['a', 'b'], 10, 2, strategy);
    assert_eq!(lesson.total_key_weight(), None);
    assert!(!lesson.can_generate_content());
}

#[test]
fn empty_character_set_cannot_generate() {
    let lesson = Lesson::from_chars(String::new(), &[], 10, 2, WeightingStrategy::EqualWeight);
    assert!(!lesson.can_generate_content());
}

#[test]
fn add_chars_appends_in_order() {
    let base = Lesson::from_chars(String::from("one"), &['a'], 7, 3, WeightingStrategy::EqualWeight);
    let extended = base.add_chars(String::from("two"), &['b', 'c'], WeightingStrategy::EqualWeight);
    assert_eq!(extended.name(), "two");
    assert_eq!(
        extended.keys(),
        &[Character::new('a'), Character::new('b'), Character::new('c')]
    );
    assert_eq!(extended.lesson_length(), 7);
    assert_eq!(extended.word_length(), 3);
    assert_eq!(base.keys().len(), 1);
}

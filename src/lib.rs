pub mod bone;
pub mod bone_app;
pub mod character;
pub mod chart;
pub mod clock;
pub mod content;
pub mod enums;
pub mod key;
pub mod lesson;
pub mod sampling;
pub mod selectable_session_list;
pub mod stats;
pub mod trainer;
pub mod training_session;
pub mod typing_app;
pub mod typing_errors;
pub mod typing_speed;
pub mod weighted_key;
pub mod weighted_lesson;
pub mod weighting_strategy;

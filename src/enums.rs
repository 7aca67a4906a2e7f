use vstd::prelude::*;

verus! {

/// A key press as the application sees it.
#[derive(PartialEq, Eq, Structural, Debug, Clone, Copy)]
pub enum KeyPress {
    Char(char),
    Up,
    Down,
    Esc,
    /// Any other key, which the application ignores.
    Other,
}

/// One tick's input: a key press, or nothing within the tick.
#[derive(PartialEq, Eq, Structural, Debug, Clone, Copy)]
pub enum OptionalInput {
    InputKey(KeyPress),
    NoInput,
}

#[derive(PartialEq, Eq, Structural, Debug, Clone, Copy)]
pub enum AppState {
    LessonSelection,
    Training,
    Terminated,
}

} // verus!

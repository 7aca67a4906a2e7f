use vstd::prelude::*;

verus! {

/// The number of wrong keystrokes made in a training session.
#[derive(PartialEq, Eq, Structural, Debug, Clone, Copy)]
pub struct TypingErrors {
    pub total_error_count: u16,
}

} // verus!

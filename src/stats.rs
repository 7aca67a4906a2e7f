use vstd::prelude::*;

use crate::clock::Timestamp;
use crate::typing_errors::TypingErrors;
use crate::typing_speed::TypingSpeed;

verus! {

/// The figures of one training session.
#[derive(PartialEq, Eq, Structural, Debug, Clone, Copy)]
pub struct TrainingStatistics {
    pub errors: TypingErrors,
    pub typing_speed: TypingSpeed,
}

/// The figures of one training session, with the time it started.
#[derive(PartialEq, Eq, Structural, Debug, Clone, Copy)]
pub struct TrainingRecord {
    pub timestamp: Timestamp,
    pub stats: TrainingStatistics,
}

} // verus!

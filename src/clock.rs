use vstd::prelude::*;

verus! {

/// A point in time, in milliseconds since the Unix epoch (UTC).
#[derive(PartialEq, Eq, Structural, Debug, Clone, Copy)]
pub struct Timestamp {
    pub millis: i64,
}

impl Timestamp {
    pub fn from_millis(millis: i64) -> (r: Timestamp)
        ensures
            r.millis == millis,
    {
        Timestamp { millis }
    }
}

/// The system clock.
pub struct Clock {}

impl Clock {
    /// The current time of the system clock.
    /// Relies on chrono's `Utc::now` and `DateTime::timestamp_millis`; nothing
    /// is known of the value, which depends on the moment of the call.
    #[verifier::external_body]
    pub fn now() -> (r: Timestamp) {
        Timestamp { millis: chrono::Utc::now().timestamp_millis() }
    }
}

/// A clock that stands still until it is set or advanced, for deterministic
/// timing.
pub struct FakeClock {
    current_time: Timestamp,
}

impl FakeClock {
    pub closed spec fn time(&self) -> Timestamp {
        self.current_time
    }

    pub fn new(start: Timestamp) -> (r: FakeClock)
        ensures
            r.time() == start,
    {
        FakeClock { current_time: start }
    }

    pub fn now(&self) -> (r: Timestamp)
        ensures
            r == self.time(),
    {
        self.current_time
    }

    pub fn set(&mut self, time: Timestamp)
        ensures
            final(self).time() == time,
    {
        self.current_time = time;
    }

    /// Moves the clock forward (or back, for a negative amount) by `millis`
    /// milliseconds.
    pub fn advance(&mut self, millis: i64)
        requires
            i64::MIN <= old(self).time().millis + millis <= i64::MAX,
        ensures
            final(self).time().millis == old(self).time().millis + millis,
    {
        self.current_time = Timestamp { millis: self.current_time.millis + millis };
    }
}

} // verus!

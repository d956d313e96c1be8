use vstd::prelude::*;

use crate::duration::Duration;

verus! {

/// Declares `std::time::Instant` so a reset point can be stored in a field;
/// the type itself stays opaque to the verifier.
#[verifier::external_type_specification]
#[verifier::external_body]
pub struct ExInstant(std::time::Instant);

/// Relies on `std::time::Instant::now` for a reading of the host's
/// monotonic clock. Nothing is promised of the value: the clock's contracts
/// speak only of elapsed readings.
#[verifier::external_body]
fn instant_now() -> (t: std::time::Instant) {
    std::time::Instant::now()
}

/// Keeps track of the passing of time from a recorded reset point.
///
/// The model of a clock is the last elapsed reading it handed out, in
/// nanoseconds: the host's monotonic time source never moves backward, so
/// readings taken from one reset point never decrease.
pub struct Clock {
    reset_time: std::time::Instant,
    reading: Ghost<nat>,
}

impl Clock {
    /// The last elapsed reading handed out since the reset point, in
    /// nanoseconds.
    pub closed spec fn last_reading(&self) -> nat {
        self.reading@
    }

    /// A clock measuring from the moment it is created.
    pub fn new() -> (c: Clock)
        ensures
            c.last_reading() == 0,
    {
        Clock { reset_time: instant_now(), reading: Ghost(0nat) }
    }

    /// Move the reset point to now: elapsed time starts over from zero.
    pub fn reset(&mut self)
        ensures
            final(self).last_reading() == 0,
    {
        self.reset_time = instant_now();
        self.reading = Ghost(0nat);
    }

    /// The time elapsed since the reset point.
    ///
    /// Relies on `std::time::Instant::now` and
    /// `Instant::saturating_duration_since`: the host's monotonic clock never
    /// moves backward, so a reading taken from one reset point is at least as
    /// large as any earlier reading from the same reset point, and the
    /// difference is never negative.
    #[verifier::external_body]
    pub fn elapsed(&mut self) -> (d: Duration)
        ensures
            old(self).last_reading() <= d@,
            final(self).last_reading() == d@,
    {
        let span = std::time::Instant::now().saturating_duration_since(self.reset_time);
        Duration::from_nanos(u64::try_from(span.as_nanos()).unwrap_or(u64::MAX))
    }
}

} // verus!

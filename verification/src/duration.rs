use vstd::prelude::*;

verus! {

/// A non-negative span of time, counted in whole nanoseconds.
///
/// Subtraction saturates at zero and addition saturates at the largest
/// representable span, so no operation ever produces a negative duration
/// or panics.
#[derive(Clone, Copy, PartialEq, Eq, Structural, Debug)]
pub struct Duration {
    nanos: u64,
}

/// Addition on nanosecond counts that stops at the largest representable span.
pub open spec fn sat_add(a: nat, b: nat) -> nat {
    if a + b > u64::MAX {
        u64::MAX as nat
    } else {
        a + b
    }
}

impl View for Duration {
    type V = nat;

    closed spec fn view(&self) -> nat {
        self.nanos as nat
    }
}

impl Duration {
    /// The zero-length span.
    pub fn zero() -> (d: Duration)
        ensures
            d@ == 0,
    {
        Duration { nanos: 0 }
    }

    /// Build a span from a whole number of nanoseconds.
    pub fn from_nanos(nanos: u64) -> (d: Duration)
        ensures
            d@ == nanos,
    {
        Duration { nanos }
    }

    /// The span as a whole number of nanoseconds.
    pub fn as_nanos(&self) -> (n: u64)
        ensures
            n == self@,
    {
        self.nanos
    }

    /// Subtraction that never goes below zero.
    pub fn saturating_sub(self, other: Duration) -> (d: Duration)
        ensures
            self@ >= other@ ==> d@ == self@ - other@,
            self@ < other@ ==> d@ == 0,
    {
        if self.nanos >= other.nanos {
            Duration { nanos: self.nanos - other.nanos }
        } else {
            Duration { nanos: 0 }
        }
    }

    /// Addition that never overflows; stops at the largest representable span.
    pub fn saturating_add(self, other: Duration) -> (d: Duration)
        ensures
            d@ == sat_add(self@, other@),
    {
        if self.nanos <= u64::MAX - other.nanos {
            Duration { nanos: self.nanos + other.nanos }
        } else {
            Duration { nanos: u64::MAX }
        }
    }
}

} // verus!

use vstd::prelude::*;

use crate::clock::Clock;
use crate::duration::Duration;
use crate::duration::sat_add;

verus! {

/// The wait before the next iteration, in nanoseconds, given the time the
/// iteration's work took, the target interval, and the accumulated lag.
///
/// An iteration that used its whole budget (or more) gets no wait; otherwise
/// the slack left in the budget is spent, less whatever is owed to lag.
pub open spec fn wait_nanos(elapsed: nat, interval: nat, lag: nat) -> nat {
    if elapsed >= interval {
        0
    } else if lag > interval - elapsed {
        0
    } else {
        (interval - elapsed - lag) as nat
    }
}

/// The lag left after an iteration, in nanoseconds, given the wait that was
/// just computed, the target interval, and the lag owed before.
///
/// With catchup disabled the lag is simply dropped. With catchup enabled,
/// a wait at or above the interval adds the excess to the lag (reachable only
/// with a degenerate, near-zero interval), and a shorter wait repays the lag
/// by the time gained, down to zero.
pub open spec fn lag_nanos(wait: nat, interval: nat, lag: nat, catchup: bool) -> nat {
    if !catchup {
        0
    } else if wait >= interval {
        sat_add(lag, (wait - interval) as nat)
    } else if lag > interval - wait {
        (lag - (interval - wait)) as nat
    } else {
        0
    }
}

/// Governs the rate at which a loop is run: hands out per-iteration delta
/// time from `begin` and a per-iteration wait from `next`, tracking lag.
pub struct RateLimiter {
    /// Whether each iteration advances by the same interval despite jitter
    /// (deterministic loops).
    pub lockstep_enabled: bool,
    /// Whether the loop should attempt to catch up after incurring lag.
    pub catchup_enabled: bool,
    /// The target duration between each iteration of the loop.
    pub interval: Duration,
    /// A clock keeping track of time elapsed since the last iteration.
    pub clock: Clock,
    /// The duration of lag incurred behind the real-world elapsed time.
    pub lag: Duration,
}

impl RateLimiter {
    /// A limiter with the given target interval, no lag, and a clock that
    /// starts measuring at creation.
    pub fn new(
        lockstep_enabled: bool,
        catchup_enabled: bool,
        interval: Duration,
    ) -> (r: RateLimiter)
        ensures
            r.lockstep_enabled == lockstep_enabled,
            r.catchup_enabled == catchup_enabled,
            r.interval == interval,
            r.lag@ == 0,
            r.clock.last_reading() == 0,
    {
        RateLimiter {
            lockstep_enabled,
            catchup_enabled,
            interval,
            clock: Clock::new(),
            lag: Duration::zero(),
        }
    }

    /// A limiter built from a frequency in iterations per second instead of
    /// an interval: the interval is the whole number of nanoseconds in
    /// `1 / per_second` seconds. A frequency of zero, which has no finite
    /// interval, is clamped to the largest representable interval.
    pub fn new_from_frequency(
        lockstep_enabled: bool,
        catchup_enabled: bool,
        per_second: u32,
    ) -> (r: RateLimiter)
        ensures
            r.lockstep_enabled == lockstep_enabled,
            r.catchup_enabled == catchup_enabled,
            per_second > 0 ==> r.interval@ == 1_000_000_000 as nat / per_second as nat,
            per_second == 0 ==> r.interval@ == u64::MAX,
            r.lag@ == 0,
            r.clock.last_reading() == 0,
    {
        Self::new(lockstep_enabled, catchup_enabled, Self::interval_of_frequency(per_second))
    }

    /// The target interval for a frequency in iterations per second: the
    /// whole number of nanoseconds in `1 / per_second` seconds, clamped to
    /// the largest representable interval when the frequency is zero.
    pub fn interval_of_frequency(per_second: u32) -> (d: Duration)
        ensures
            per_second > 0 ==> d@ == 1_000_000_000 as nat / per_second as nat,
            per_second == 0 ==> d@ == u64::MAX,
    {
        if per_second == 0 {
            Duration::from_nanos(u64::MAX)
        } else {
            Duration::from_nanos(1_000_000_000u64 / (per_second as u64))
        }
    }

    /// The delta time an iteration should advance by: the fixed interval in
    /// lockstep mode, the actually elapsed time otherwise.
    fn get_delta(&self, current_elapsed: Duration) -> (d: Duration)
        ensures
            self.lockstep_enabled ==> d@ == self.interval@,
            !self.lockstep_enabled ==> d@ == current_elapsed@,
    {
        if self.lockstep_enabled {
            self.interval
        } else {
            current_elapsed
        }
    }

    /// The wait before the next iteration, given the time this iteration's
    /// work took, the target interval, and the accumulated lag.
    pub fn calculate_wait(
        current_elapsed: Duration,
        target_interval: Duration,
        current_lag: Duration,
    ) -> (w: Duration)
        ensures
            w@ == wait_nanos(current_elapsed@, target_interval@, current_lag@),
    {
        if current_elapsed.as_nanos() >= target_interval.as_nanos() {
            Duration::zero()
        } else {
            let slack = target_interval.saturating_sub(current_elapsed);
            if current_lag.as_nanos() > slack.as_nanos() {
                Duration::zero()
            } else {
                slack.saturating_sub(current_lag)
            }
        }
    }

    /// The wait for this limiter's interval and lag.
    fn get_wait(&self, current_elapsed: Duration) -> (w: Duration)
        ensures
            w@ == wait_nanos(current_elapsed@, self.interval@, self.lag@),
    {
        Self::calculate_wait(current_elapsed, self.interval, self.lag)
    }

    /// The lag left after an iteration, given the wait that was just
    /// computed, the target interval, and the lag owed before.
    pub fn calculate_lag(
        last_wait: Duration,
        target_interval: Duration,
        current_lag: Duration,
        catchup_enabled: bool,
    ) -> (l: Duration)
        ensures
            l@ == lag_nanos(last_wait@, target_interval@, current_lag@, catchup_enabled),
    {
        if catchup_enabled {
            if last_wait.as_nanos() >= target_interval.as_nanos() {
                let lost_time = last_wait.saturating_sub(target_interval);
                current_lag.saturating_add(lost_time)
            } else {
                let gained_time = target_interval.saturating_sub(last_wait);
                if current_lag.as_nanos() > gained_time.as_nanos() {
                    current_lag.saturating_sub(gained_time)
                } else {
                    Duration::zero()
                }
            }
        } else {
            Duration::zero()
        }
    }

    /// Store the lag left after an iteration whose wait was just computed.
    fn update_lag(&mut self, current_wait: Duration)
        ensures
            final(self).lag@ == lag_nanos(
                current_wait@,
                old(self).interval@,
                old(self).lag@,
                old(self).catchup_enabled,
            ),
            final(self).lockstep_enabled == old(self).lockstep_enabled,
            final(self).catchup_enabled == old(self).catchup_enabled,
            final(self).interval == old(self).interval,
            final(self).clock == old(self).clock,
    {
        self.lag = Self::calculate_lag(
            current_wait,
            self.interval,
            self.lag,
            self.catchup_enabled,
        );
    }

    /// Signal that an iteration's work is starting: returns the delta time to
    /// advance the simulation by, and restarts the clock so that it measures
    /// only this iteration's work.
    ///
    /// In lockstep mode the delta is exactly the target interval, independent
    /// of how much real time passed.
    pub fn begin(&mut self) -> (delta: Duration)
        ensures
            old(self).lockstep_enabled ==> delta@ == old(self).interval@,
            !old(self).lockstep_enabled ==> delta@ >= old(self).clock.last_reading(),
            final(self).clock.last_reading() == 0,
            final(self).lockstep_enabled == old(self).lockstep_enabled,
            final(self).catchup_enabled == old(self).catchup_enabled,
            final(self).interval == old(self).interval,
            final(self).lag == old(self).lag,
    {
        let current_elapsed = self.clock.elapsed();
        let delta = self.get_delta(current_elapsed);
        self.clock.reset();
        delta
    }

    /// Signal that an iteration's work is done: returns how long to pause
    /// before the next iteration, restarts the clock, and updates the lag.
    ///
    /// Whatever the clock read, the wait never exceeds the interval less the
    /// lag owed (and is zero when more than the whole interval is owed), the
    /// new lag is exactly the lag bookkeeping applied to the returned wait,
    /// and the lag never grows across a call.
    pub fn next(&mut self) -> (wait: Duration)
        ensures
            wait@ <= old(self).interval@,
            old(self).lag@ <= old(self).interval@ ==> wait@ + old(self).lag@ <= old(self).interval@,
            old(self).lag@ > old(self).interval@ ==> wait@ == 0,
            final(self).lag@ == lag_nanos(
                wait@,
                old(self).interval@,
                old(self).lag@,
                old(self).catchup_enabled,
            ),
            !old(self).catchup_enabled ==> final(self).lag@ == 0,
            final(self).lag@ <= old(self).lag@,
            final(self).clock.last_reading() == 0,
            final(self).lockstep_enabled == old(self).lockstep_enabled,
            final(self).catchup_enabled == old(self).catchup_enabled,
            final(self).interval == old(self).interval,
    {
        let current_elapsed = self.clock.elapsed();
        let wait = self.get_wait(current_elapsed);
        self.clock.reset();
        self.update_lag(wait);
        wait
    }

    /// Replace the target interval; lag, flags and the clock are untouched.
    pub fn set_interval(&mut self, interval: Duration)
        ensures
            final(self).interval == interval,
            final(self).lockstep_enabled == old(self).lockstep_enabled,
            final(self).catchup_enabled == old(self).catchup_enabled,
            final(self).lag == old(self).lag,
            final(self).clock == old(self).clock,
    {
        self.interval = interval;
    }

    /// Replace the target interval with the one for a frequency in
    /// iterations per second; lag, flags and the clock are untouched.
    pub fn set_frequency(&mut self, per_second: u32)
        ensures
            per_second > 0 ==> final(self).interval@ == 1_000_000_000 as nat / per_second as nat,
            per_second == 0 ==> final(self).interval@ == u64::MAX,
            final(self).lockstep_enabled == old(self).lockstep_enabled,
            final(self).catchup_enabled == old(self).catchup_enabled,
            final(self).lag == old(self).lag,
            final(self).clock == old(self).clock,
    {
        self.interval = Self::interval_of_frequency(per_second);
    }
}

/// Law: with no lag owed, the wait exactly fills the interval budget — an
/// iteration that finished early waits for the rest of its interval, and one
/// that used its whole budget (or more) gets no wait at all.
pub proof fn lemma_wait_fills_budget(elapsed: nat, interval: nat)
    ensures
        elapsed < interval ==> wait_nanos(elapsed, interval, 0) + elapsed == interval,
        elapsed >= interval ==> wait_nanos(elapsed, interval, 0) == 0,
{
}

} // verus!

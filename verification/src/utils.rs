//! Rate limiting of repeated actions.
use vstd::prelude::*;
use std::time::Instant;

use crate::clock::{duration_as_nanos, instant_duration_since, instant_now};

verus! {

/// The time from reading `last` to reading `now`, in nanoseconds; zero when
/// `now` is not later (as `Instant::duration_since` saturates).
pub open spec fn elapsed_nanos(last: u128, now: u128) -> int {
    if now >= last {
        now - last
    } else {
        0
    }
}

/// A throttle period of `period_millis` milliseconds, in nanoseconds.
pub open spec fn period_nanos(period_millis: u64) -> int {
    period_millis * 1_000_000
}

/// Whether a call made at reading `now` is let through: there was no earlier
/// execution, or at least the period has passed since it.
pub open spec fn throttle_passes(last: Option<u128>, now: u128, period_millis: u64) -> bool {
    match last {
        None => true,
        Some(l) => elapsed_nanos(l, now) >= period_nanos(period_millis),
    }
}

/// A simple throttle helper to limit the frequency of executions.
///
/// Clock readings are kept as nanoseconds since the throttle was made.
pub struct Throttle {
    /// The clock reading all times of this throttle are measured from.
    origin: Instant,
    /// The reading of the last execution that was let through (or, for the
    /// resetting check, of the last check), in nanoseconds since `origin`.
    last_execution: Option<u128>,
    /// The reading taken by the last check, if any.
    last_reading: Ghost<Option<u128>>,
}

/// What one check of a throttle does, with `before` and `after` the throttle
/// before and after it and `r` its answer: it takes a clock reading; the call
/// is let through exactly when the reading is at least the period after the
/// last execution (or there was none); the reading becomes the last
/// execution when the call is let through, and also when it is held back if
/// `restart_when_throttled`.
pub open spec fn throttle_check(
    before: Throttle,
    after: Throttle,
    period_millis: u64,
    restart_when_throttled: bool,
    r: bool,
) -> bool {
    &&& after.last_reading() is Some
    &&& r == throttle_passes(before.last_execution(), after.last_reading()->0, period_millis)
    &&& after.last_execution() == (if r || restart_when_throttled {
        after.last_reading()
    } else {
        before.last_execution()
    })
}

impl Throttle {
    /// The reading of the last execution that was let through (or, for the
    /// resetting check, of the last check), if any.
    pub closed spec fn last_execution(&self) -> Option<u128> {
        self.last_execution
    }

    /// The clock reading taken by the last check, if any.
    pub closed spec fn last_reading(&self) -> Option<u128> {
        self.last_reading@
    }

    pub fn new() -> (r: Self)
        ensures
            r.last_execution() is None,
            r.last_reading() is None,
    {
        Throttle { origin: instant_now(), last_execution: None, last_reading: Ghost(None) }
    }

    /// Applies one clock reading `now` (nanoseconds since the throttle was
    /// made) to the throttle (see `throttle_check`).
    pub fn apply_reading(&mut self, now: u128, period_millis: u64, restart_when_throttled: bool) -> (r:
        bool)
        ensures
            final(self).last_reading() == Some(now),
            throttle_check(*old(self), *final(self), period_millis, restart_when_throttled, r),
    {
        let within = match self.last_execution {
            Some(last) => {
                let elapsed: u128 = if now >= last {
                    now - last
                } else {
                    0
                };
                elapsed < (period_millis as u128) * 1_000_000
            },
            None => false,
        };
        self.last_reading = Ghost(Some(now));
        if within {
            if restart_when_throttled {
                self.last_execution = Some(now);
            }
            false
        } else {
            self.last_execution = Some(now);
            true
        }
    }

    /// The current clock reading, in nanoseconds since the throttle was made.
    fn reading(&self) -> u128 {
        let now = instant_now();
        let since = instant_duration_since(&now, &self.origin);
        duration_as_nanos(&since)
    }

    /// Checks if enough time (`period_millis` milliseconds) has passed since
    /// the last execution. If so, updates the last execution time and returns
    /// true; when throttled, the timestamp is updated as well, so that
    /// retrying does not get round the throttle.
    pub fn check_and_update(&mut self, period_millis: u64) -> (r: bool)
        ensures
            throttle_check(*old(self), *final(self), period_millis, true, r),
    {
        let now = self.reading();
        self.apply_reading(now, period_millis, true)
    }

    /// Like `check_and_update`, but a throttled call leaves the timestamp
    /// unchanged.
    pub fn check_and_update_no_reset(&mut self, period_millis: u64) -> (r: bool)
        ensures
            throttle_check(*old(self), *final(self), period_millis, false, r),
    {
        let now = self.reading();
        self.apply_reading(now, period_millis, false)
    }

    pub fn reset(&mut self)
        ensures
            final(self).last_execution() is None,
            final(self).last_reading() == old(self).last_reading(),
    {
        self.last_execution = None;
    }

    /// Runs `f` only if the throttle period has passed.
    pub fn run<F, R>(&mut self, period_millis: u64, f: F) -> (r: Option<R>) where F: FnOnce() -> R
        requires
            f.requires(()),
        ensures
            throttle_check(*old(self), *final(self), period_millis, true, r is Some),
            r matches Some(v) ==> f.ensures((), v),
    {
        if self.check_and_update(period_millis) {
            Some(f())
        } else {
            None
        }
    }

    /// Runs `f` only if the throttle period has passed, without restarting the
    /// period when throttled.
    pub fn run_no_reset<F, R>(&mut self, period_millis: u64, f: F) -> (r: Option<R>) where
        F: FnOnce() -> R,
        requires
            f.requires(()),
        ensures
            throttle_check(*old(self), *final(self), period_millis, false, r is Some),
            r matches Some(v) ==> f.ensures((), v),
    {
        if self.check_and_update_no_reset(period_millis) {
            Some(f())
        } else {
            None
        }
    }
}

impl Default for Throttle {
    fn default() -> (r: Self)
        ensures
            r.last_execution() is None,
            r.last_reading() is None,
    {
        Throttle::new()
    }
}

/// The first check of a throttle lets the call through, and a check with a
/// zero period always does.
pub proof fn law_first_check_passes(before: Throttle, after: Throttle, period_millis: u64, restart: bool, r: bool)
    requires
        throttle_check(before, after, period_millis, restart, r),
        before.last_execution() is None || period_millis == 0,
    ensures
        r,
{
}

/// A check made less than the period after a call that was let through is
/// held back; whether or not it is, the resetting check records its reading
/// (so retrying does not get round it), and the non-resetting check keeps
/// the time of the call that was let through.
pub proof fn law_throttle_holds_back_within_period(
    t0: Throttle,
    t1: Throttle,
    t2: Throttle,
    period_millis: u64,
    restart: bool,
    r1: bool,
    r2: bool,
)
    requires
        throttle_check(t0, t1, period_millis, restart, r1),
        throttle_check(t1, t2, period_millis, restart, r2),
        r1,
        elapsed_nanos(t1.last_reading()->0, t2.last_reading()->0) < period_nanos(period_millis),
    ensures
        !r2,
        restart ==> t2.last_execution() == t2.last_reading(),
        !restart ==> t2.last_execution() == t1.last_reading(),
{
}

} // verus!

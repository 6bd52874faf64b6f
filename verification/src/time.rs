//! Wall-clock time, counted in whole nanoseconds since the Unix epoch.

use vstd::prelude::*;

verus! {

/// Nanoseconds in one second.
pub const NANOS_PER_SEC: u64 = 1_000_000_000;

/// Nanoseconds in one millisecond.
pub const NANOS_PER_MILLI: u64 = 1_000_000;

/// Nanoseconds in one microsecond.
pub const NANOS_PER_MICRO: u64 = 1_000;

/// A span of time, counted in whole nanoseconds.
#[derive(Clone, Copy, PartialEq, Eq, Structural, Debug)]
pub struct Duration {
    pub nanos: u64,
}

impl Duration {
    /// A span of `nanos` nanoseconds.
    pub fn from_nanos(nanos: u64) -> (d: Duration)
        ensures
            d.nanos == nanos,
    {
        Duration { nanos }
    }

    /// A span of `micros` microseconds.
    pub fn from_micros(micros: u64) -> (d: Duration)
        requires
            micros * NANOS_PER_MICRO <= u64::MAX,
        ensures
            d.nanos == micros * NANOS_PER_MICRO,
    {
        Duration { nanos: micros * NANOS_PER_MICRO }
    }

    /// A span of `millis` milliseconds.
    pub fn from_millis(millis: u64) -> (d: Duration)
        requires
            millis * NANOS_PER_MILLI <= u64::MAX,
        ensures
            d.nanos == millis * NANOS_PER_MILLI,
    {
        Duration { nanos: millis * NANOS_PER_MILLI }
    }

    /// A span of `secs` seconds.
    pub fn from_secs(secs: u64) -> (d: Duration)
        requires
            secs * NANOS_PER_SEC <= u64::MAX,
        ensures
            d.nanos == secs * NANOS_PER_SEC,
    {
        Duration { nanos: secs * NANOS_PER_SEC }
    }

    /// The span in whole seconds, rounded down.
    pub fn as_secs(&self) -> (s: u64)
        ensures
            s == self.nanos / NANOS_PER_SEC,
    {
        self.nanos / NANOS_PER_SEC
    }

    /// The span in whole microseconds, rounded down.
    pub fn as_micros(&self) -> (m: u64)
        ensures
            m == self.nanos / NANOS_PER_MICRO,
    {
        self.nanos / NANOS_PER_MICRO
    }
}

/// A point in wall-clock time: the span since the Unix epoch.
#[derive(Clone, Copy, PartialEq, Eq, Structural, Debug)]
pub struct Time {
    pub time_since_epoch: Duration,
}

impl Time {
    /// The instant `time_since_epoch` after the Unix epoch.
    pub fn new(time_since_epoch: Duration) -> (t: Time)
        ensures
            t.time_since_epoch == time_since_epoch,
    {
        Time { time_since_epoch }
    }

    /// The instant as nanoseconds since the epoch.
    pub open spec fn nanos(self) -> int {
        self.time_since_epoch.nanos as int
    }

    /// The span from `earlier` up to `self`.  A negative span is a
    /// programming error, ruled out by `requires`.
    pub fn duration_since(self, earlier: Time) -> (d: Duration)
        requires
            earlier.nanos() <= self.nanos(),
        ensures
            d.nanos == self.nanos() - earlier.nanos(),
    {
        Duration { nanos: self.time_since_epoch.nanos - earlier.time_since_epoch.nanos }
    }

    /// The span from `earlier` up to `self`, or `None` when `earlier` lies
    /// after `self`.
    pub fn checked_duration_since(self, earlier: Time) -> (d: Option<Duration>)
        ensures
            d is Some <==> earlier.nanos() <= self.nanos(),
            d is Some ==> d->0.nanos == self.nanos() - earlier.nanos(),
    {
        if earlier.time_since_epoch.nanos <= self.time_since_epoch.nanos {
            Some(Duration { nanos: self.time_since_epoch.nanos - earlier.time_since_epoch.nanos })
        } else {
            None
        }
    }

    /// The instant `dur` after `self`.
    pub fn add_duration(self, dur: Duration) -> (t: Time)
        requires
            self.nanos() + dur.nanos <= u64::MAX,
        ensures
            t.nanos() == self.nanos() + dur.nanos,
    {
        Time { time_since_epoch: Duration { nanos: self.time_since_epoch.nanos + dur.nanos } }
    }

    /// The instant `dur` after `self`, clamped to the largest representable
    /// instant.
    pub fn saturating_add(self, dur: Duration) -> (t: Time)
        ensures
            self.nanos() + dur.nanos <= u64::MAX ==> t.nanos() == self.nanos() + dur.nanos,
            self.nanos() + dur.nanos > u64::MAX ==> t.nanos() == u64::MAX,
    {
        if self.time_since_epoch.nanos <= u64::MAX - dur.nanos {
            Time { time_since_epoch: Duration { nanos: self.time_since_epoch.nanos + dur.nanos } }
        } else {
            Time { time_since_epoch: Duration { nanos: u64::MAX } }
        }
    }

    /// Whether `self` lies at or before `other`.
    pub fn le(self, other: Time) -> (r: bool)
        ensures
            r == (self.nanos() <= other.nanos()),
    {
        self.time_since_epoch.nanos <= other.time_since_epoch.nanos
    }

    /// Whether `self` lies strictly after `other`.
    pub fn gt(self, other: Time) -> (r: bool)
        ensures
            r == (self.nanos() > other.nanos()),
    {
        self.time_since_epoch.nanos > other.time_since_epoch.nanos
    }
}

} // verus!

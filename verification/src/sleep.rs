//! The timed-suspension primitive: the one place where a task yields.
//!
//! A sleep resolves when a caller-supplied cancellation check fires or when
//! the wall clock passes its target; until then it stays pending and the
//! owning scheduler re-polls it.  No background timer exists: the scheduler
//! reads the clock and the cancellation check and hands both to `poll`.

use vstd::prelude::*;

use crate::time::{Duration, Time};

verus! {

/// A single-shot awaitable that becomes ready at its target time.
#[derive(Clone, Copy, Debug)]
pub struct Sleep {
    /// The instant the sleep resolves at, once the clock passes it.
    pub wait_for_time: Time,
}

/// What a resolved [`Sleep`] reports.
#[derive(Debug, PartialEq, Eq)]
pub enum Return<G> {
    /// The sleep finished normally: it is time to wake up.
    Completed,
    /// The sleep was cancelled, with the reason the check supplied.
    Cancelled(G),
}

impl Sleep {
    /// A sleep for `dur` past `now`, the target clamped to the largest
    /// representable instant.
    pub fn new(now: Time, dur: Duration) -> (s: Sleep)
        ensures
            now.nanos() + dur.nanos <= u64::MAX ==> s.wait_for_time.nanos() == now.nanos()
                + dur.nanos,
            now.nanos() + dur.nanos > u64::MAX ==> s.wait_for_time.nanos() == u64::MAX,
    {
        Sleep { wait_for_time: now.saturating_add(dur) }
    }

    /// One scheduler poll, given the cancellation check's answer and the
    /// current time: cancellation wins, then the clock is compared to the
    /// target; otherwise the sleep stays pending (`None`).
    pub fn poll<G>(&self, cancel: (bool, G), now: Time) -> (r: Option<Return<G>>)
        ensures
            cancel.0 ==> r == Some(Return::Cancelled(cancel.1)),
            !cancel.0 && now.nanos() > self.wait_for_time.nanos() ==> r == Some(
                Return::<G>::Completed,
            ),
            !cancel.0 && now.nanos() <= self.wait_for_time.nanos() ==> r is None,
    {
        let (c, reason) = cancel;
        if c {
            Some(Return::Cancelled(reason))
        } else if now.gt(self.wait_for_time) {
            Some(Return::Completed)
        } else {
            None
        }
    }
}

} // verus!

//! The liveness tracker: the time of the last heartbeat.

use vstd::prelude::*;
use crate::clock::{Moment, nanos_between, secs_between};

verus! {

/// The moment at which the monitored agent was last known to be alive.
///
/// It starts as the moment of its creation, and is overwritten by every
/// heartbeat and by every alert that was delivered.
#[derive(Clone, Copy, Debug, PartialEq, Eq, Structural)]
pub struct Tracker {
    last: Moment,
}

impl View for Tracker {
    type V = nat;

    /// The clock reading of the last heartbeat.
    closed spec fn view(&self) -> nat {
        self.last@
    }
}

impl Tracker {
    /// A tracker that counts from `now`, so that a fresh process does not look
    /// stale.
    pub fn new(now: Moment) -> (t: Tracker)
        ensures
            t@ == now@,
    {
        Tracker { last: now }
    }

    /// Records that the agent was alive at `now`.
    pub fn touch(&mut self, now: Moment)
        ensures
            final(self)@ == now@,
    {
        self.last = now;
    }

    /// The moment that was last recorded.
    pub fn last_heartbeat(&self) -> (m: Moment)
        ensures
            m@ == self@,
    {
        self.last
    }

    /// Nanoseconds from the last heartbeat to `now`.
    pub fn elapsed_since(&self, now: Moment) -> (n: u128)
        ensures
            n == nanos_between(self@, now@),
    {
        now.nanos_since(self.last)
    }

    /// Whole seconds from the last heartbeat to `now`, rounded down.
    pub fn elapsed_secs(&self, now: Moment) -> (s: u128)
        ensures
            s == secs_between(self@, now@),
    {
        now.secs_since(self.last)
    }
}

} // verus!

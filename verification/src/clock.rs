//! Readings of a monotonic clock, as plain numbers.
//!
//! The library never reads a clock itself. Whoever drives it samples a
//! monotonic clock and hands each sample in as a [`Moment`]; every measure of
//! elapsed time is then simple arithmetic on two such samples.

use vstd::prelude::*;

verus! {

/// Nanoseconds in one second.
pub const NANOS_PER_SEC: u128 = 1_000_000_000;

/// Nanoseconds that lie between the reading `earlier` and the reading `now`.
/// A reading taken before `earlier` counts as no time at all.
pub open spec fn nanos_between(earlier: nat, now: nat) -> nat {
    if now >= earlier {
        (now - earlier) as nat
    } else {
        0
    }
}

/// Whole seconds between two readings, rounded down.
pub open spec fn secs_between(earlier: nat, now: nat) -> nat {
    nanos_between(earlier, now) / (NANOS_PER_SEC as nat)
}

/// A reading of a monotonic clock: nanoseconds since an origin that is fixed
/// for the life of the process.
#[derive(Clone, Copy, Debug, PartialEq, Eq, Structural)]
pub struct Moment {
    nanos: u128,
}

impl View for Moment {
    type V = nat;

    closed spec fn view(&self) -> nat {
        self.nanos as nat
    }
}

impl Moment {
    /// The reading that lies `nanos` nanoseconds after the origin.
    pub fn from_nanos(nanos: u128) -> (m: Moment)
        ensures
            m@ == nanos,
    {
        Moment { nanos }
    }

    /// The reading that lies `secs` whole seconds after the origin.
    pub fn from_secs(secs: u64) -> (m: Moment)
        ensures
            m@ == secs * NANOS_PER_SEC,
    {
        Moment { nanos: (secs as u128) * NANOS_PER_SEC }
    }

    /// Nanoseconds since the origin.
    pub fn as_nanos(&self) -> (n: u128)
        ensures
            n == self@,
    {
        self.nanos
    }

    /// Nanoseconds from `earlier` to this reading, zero if this reading is the
    /// older of the two.
    pub fn nanos_since(&self, earlier: Moment) -> (n: u128)
        ensures
            n == nanos_between(earlier@, self@),
    {
        if self.nanos >= earlier.nanos {
            self.nanos - earlier.nanos
        } else {
            0
        }
    }

    /// Whole seconds from `earlier` to this reading, rounded down.
    pub fn secs_since(&self, earlier: Moment) -> (s: u128)
        ensures
            s == secs_between(earlier@, self@),
    {
        self.nanos_since(earlier) / NANOS_PER_SEC
    }
}

} // verus!

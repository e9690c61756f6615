//! The heartbeat receiver: what happens when a heartbeat arrives.

use vstd::prelude::*;
use crate::clock::{Moment, nanos_between};
use crate::tracker::Tracker;

verus! {

/// The path on which heartbeats are received, with the method `GET`.
pub const HEARTBEAT_PATH: &'static str = "/heartbeat/poop";

/// The address on which the receiver listens: every interface.
pub const LISTEN_ADDRESS: &'static str = "0.0.0.0";

/// The port on which the receiver listens.
pub const LISTEN_PORT: u16 = 3000;

/// The status of the answer to a heartbeat.
pub const REPLY_STATUS: u16 = 200;

/// The body of the answer to a heartbeat.
pub const REPLY_BODY: &'static str = "OK";

/// The answer to a heartbeat.
#[derive(Clone, Copy, Debug)]
pub struct Reply {
    /// The HTTP status.
    pub status: u16,
    /// The body.
    pub body: &'static str,
}

/// Takes a heartbeat that arrived at `now`: touches the tracker and answers
/// that all is well. Whoever sent the heartbeat is not examined, and the
/// answer is always the same.
pub fn on_heartbeat_signal(tracker: &mut Tracker, now: Moment) -> (reply: Reply)
    ensures
        final(tracker)@ == now@,
        nanos_between(final(tracker)@, now@) == 0,
        reply.status == REPLY_STATUS,
        reply.body@ == REPLY_BODY@,
{
    tracker.touch(now);
    Reply { status: REPLY_STATUS, body: REPLY_BODY }
}

} // verus!

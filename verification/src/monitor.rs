//! The staleness monitor: a two-state machine that is fed events and answers
//! each with the next thing to do.
//!
//! The machine performs nothing itself. Its driver sleeps and sends; after
//! each of these it reports back with an [`Event`], and [`step`] decides what
//! comes next.

use vstd::prelude::*;
use crate::clock::{Moment, secs_between};
use crate::config::Timing;
use crate::tracker::Tracker;

verus! {

/// Where the monitor stands between two checks.
#[derive(Clone, Copy, Debug, PartialEq, Eq, Structural)]
pub enum MonitorState {
    /// Checking at the normal cadence.
    Normal,
    /// An alert was just delivered; the next check waits out the debounce.
    Debouncing,
}

/// What the notifier reported of one attempt.
#[derive(Clone, Copy, Debug, PartialEq, Eq, Structural)]
pub enum NotifyResult {
    /// The alert was handed over.
    Sent,
    /// The alert could not be handed over.
    Failed,
}

/// What the driver reports to the machine.
#[derive(Clone, Copy, Debug, PartialEq, Eq, Structural)]
pub enum Event {
    /// The sleep that was asked for is over.
    Woke { now: Moment },
    /// The alert attempt that was asked for has ended.
    Notified { result: NotifyResult, now: Moment },
}

/// What the machine asks of its driver.
#[derive(Clone, Copy, Debug, PartialEq, Eq, Structural)]
pub enum Action {
    /// Sleep this long, then report `Woke`.
    Sleep { secs: u64 },
    /// Try to deliver the alert, then report `Notified`. The agent has been
    /// silent for `elapsed_secs` whole seconds.
    SendAlert { elapsed_secs: u128 },
}

/// The sleep that precedes a check in `state`.
pub open spec fn sleep_secs_in(state: MonitorState, timing: Timing) -> u64 {
    match state {
        MonitorState::Normal => timing.check_interval_secs,
        MonitorState::Debouncing => timing.debounce_secs,
    }
}

/// The agent counts as stale at `now` when more whole seconds than the
/// timeout have passed since `last_seen`.
pub open spec fn is_stale(last_seen: nat, now: nat, timing: Timing) -> bool {
    secs_between(last_seen, now) > timing.timeout_secs
}

/// The state after `event`. Waking always returns to `Normal`, a delivered
/// alert leads to `Debouncing`, and a failed attempt changes nothing.
pub open spec fn state_after(state: MonitorState, event: Event) -> MonitorState {
    match event {
        Event::Woke { .. } => MonitorState::Normal,
        Event::Notified { result: NotifyResult::Sent, .. } => MonitorState::Debouncing,
        Event::Notified { result: NotifyResult::Failed, .. } => state,
    }
}

/// The tracker's reading after `event`. Only a delivered alert resets it.
pub open spec fn last_seen_after(last_seen: nat, event: Event) -> nat {
    match event {
        Event::Notified { result: NotifyResult::Sent, now } => now@,
        _ => last_seen,
    }
}

/// The action that answers `event`: after waking, an alert if the agent is
/// stale and a normal sleep if it is not; after an attempt, the sleep of the
/// state that the attempt led to.
pub open spec fn action_after(
    state: MonitorState,
    last_seen: nat,
    event: Event,
    timing: Timing,
) -> Action {
    match event {
        Event::Woke { now } => if is_stale(last_seen, now@, timing) {
            Action::SendAlert { elapsed_secs: secs_between(last_seen, now@) as u128 }
        } else {
            Action::Sleep { secs: timing.check_interval_secs }
        },
        Event::Notified { .. } => Action::Sleep {
            secs: sleep_secs_in(state_after(state, event), timing),
        },
    }
}

/// The first thing a monitor does: it starts in `Normal` with one normal
/// sleep.
pub fn start(timing: &Timing) -> (begin: (MonitorState, Action))
    ensures
        begin.0 == MonitorState::Normal,
        begin.1 == (Action::Sleep { secs: timing.check_interval_secs }),
{
    let state = MonitorState::Normal;
    (state, Action::Sleep { secs: state.sleep_secs(timing) })
}

impl MonitorState {
    /// The sleep that precedes the next check.
    pub fn sleep_secs(self, timing: &Timing) -> (secs: u64)
        ensures
            secs == sleep_secs_in(self, *timing),
    {
        match self {
            MonitorState::Normal => timing.check_interval_secs,
            MonitorState::Debouncing => timing.debounce_secs,
        }
    }

    /// The check that follows a sleep. The monitor returns to `Normal`
    /// whatever state it slept in; it asks for an alert exactly when the agent
    /// is stale at `now`, and for a normal sleep otherwise. The tracker is
    /// only read.
    pub fn on_wake(self, tracker: &Tracker, now: Moment, timing: &Timing) -> (next: (
        MonitorState,
        Action,
    ))
        ensures
            next.0 == MonitorState::Normal,
            next.1 == action_after(self, tracker@, Event::Woke { now }, *timing),
            next.1 is SendAlert <==> is_stale(tracker@, now@, *timing),
    {
        let elapsed_secs = tracker.elapsed_secs(now);
        if elapsed_secs > timing.timeout_secs as u128 {
            (MonitorState::Normal, Action::SendAlert { elapsed_secs })
        } else {
            (MonitorState::Normal, Action::Sleep { secs: timing.check_interval_secs })
        }
    }

    /// The end of an alert attempt. A delivered alert resets the tracker to
    /// `now` and starts the debounce. A failed one changes neither the tracker
    /// nor the state, so the next check measures from the same heartbeat.
    pub fn on_notified(
        self,
        tracker: &mut Tracker,
        result: NotifyResult,
        now: Moment,
        timing: &Timing,
    ) -> (next: (MonitorState, Action))
        ensures
            next.0 == state_after(self, Event::Notified { result, now }),
            next.1 == action_after(self, old(tracker)@, Event::Notified { result, now }, *timing),
            final(tracker)@ == last_seen_after(old(tracker)@, Event::Notified { result, now }),
            result == NotifyResult::Sent ==> next.0 == MonitorState::Debouncing && final(tracker)@
                == now@,
            result == NotifyResult::Failed ==> next.0 == self && *final(tracker) == *old(tracker),
    {
        match result {
            NotifyResult::Sent => {
                tracker.touch(now);
                (MonitorState::Debouncing, Action::Sleep { secs: timing.debounce_secs })
            },
            NotifyResult::Failed => { (self, Action::Sleep { secs: self.sleep_secs(timing) }) },
        }
    }

    /// One step of the machine: takes what the driver reports and answers with
    /// the state to continue in and the next thing to do.
    pub fn step(self, tracker: &mut Tracker, event: Event, timing: &Timing) -> (next: (
        MonitorState,
        Action,
    ))
        ensures
            next.0 == state_after(self, event),
            next.1 == action_after(self, old(tracker)@, event, *timing),
            final(tracker)@ == last_seen_after(old(tracker)@, event),
    {
        match event {
            Event::Woke { now } => self.on_wake(tracker, now, timing),
            Event::Notified { result, now } => self.on_notified(tracker, result, now, timing),
        }
    }
}

} // verus!

//! A run of the whole system, told as the sequence of things that happen to
//! it, and what holds of every such run.
//!
//! Nothing here is executable. The model is built from the same functions
//! that the contracts of the tracker and of the monitor are written in, so
//! each theorem speaks of what the executable code does.

use vstd::prelude::*;
use crate::clock::{Moment, NANOS_PER_SEC, nanos_between, secs_between};
use crate::config::Timing;
use crate::monitor::{
    Action,
    Event,
    MonitorState,
    NotifyResult,
    action_after,
    is_stale,
    last_seen_after,
    sleep_secs_in,
    state_after,
};

verus! {

/// One thing that happens to the system.
pub enum Signal {
    /// A heartbeat arrived and the tracker was touched.
    Heartbeat { now: Moment },
    /// The monitor's driver reported back and the monitor took a step.
    Report { event: Event },
}

/// The clock reading that a signal carries.
pub open spec fn reading_of(signal: Signal) -> nat {
    match signal {
        Signal::Heartbeat { now } => now@,
        Signal::Report { event: Event::Woke { now } } => now@,
        Signal::Report { event: Event::Notified { now, .. } } => now@,
    }
}

/// The signal reports that an alert was delivered.
pub open spec fn is_delivery(signal: Signal) -> bool {
    signal matches Signal::Report { event: Event::Notified { result: NotifyResult::Sent, .. } }
}

/// The signal reports that a sleep is over, which is when the monitor checks.
pub open spec fn is_check(signal: Signal) -> bool {
    signal matches Signal::Report { event: Event::Woke { .. } }
}

/// The system between two signals.
pub struct Snapshot {
    /// The monitor's state.
    pub state: MonitorState,
    /// The tracker's reading.
    pub last_seen: nat,
    /// The reading of the latest signal.
    pub clock: nat,
    /// What the monitor last asked of its driver.
    pub asked: Action,
    /// The reading at which it asked.
    pub asked_at: nat,
}

/// The system as it starts at `now`: a fresh tracker, and a monitor that has
/// asked for its first sleep.
pub open spec fn at_start(now: nat, timing: Timing) -> Snapshot {
    Snapshot {
        state: MonitorState::Normal,
        last_seen: now,
        clock: now,
        asked: Action::Sleep { secs: timing.check_interval_secs },
        asked_at: now,
    }
}

/// What an honest clock and an honest driver allow to happen next. The clock
/// never runs backwards; a sleep lasts at least as long as was asked; and the
/// driver reports the end of what it was asked to do, nothing else.
pub open spec fn may_follow(before: Snapshot, signal: Signal) -> bool {
    &&& reading_of(signal) >= before.clock
    &&& match signal {
        Signal::Heartbeat { .. } => true,
        Signal::Report { event: Event::Woke { now } } => {
            &&& before.asked matches Action::Sleep { secs }
            &&& now@ >= before.asked_at + secs * NANOS_PER_SEC
        },
        Signal::Report { event: Event::Notified { .. } } => before.asked is SendAlert,
    }
}

/// The system after one signal.
pub open spec fn after_signal(before: Snapshot, signal: Signal, timing: Timing) -> Snapshot {
    match signal {
        Signal::Heartbeat { now } => Snapshot { last_seen: now@, clock: now@, ..before },
        Signal::Report { event } => Snapshot {
            state: state_after(before.state, event),
            last_seen: last_seen_after(before.last_seen, event),
            clock: reading_of(signal),
            asked: action_after(before.state, before.last_seen, event, timing),
            asked_at: reading_of(signal),
        },
    }
}

/// The system after a sequence of signals.
pub open spec fn after_signals(before: Snapshot, signals: Seq<Signal>, timing: Timing) -> Snapshot
    decreases signals.len(),
{
    if signals.len() == 0 {
        before
    } else {
        after_signals(after_signal(before, signals[0], timing), signals.drop_first(), timing)
    }
}

/// Every signal of the sequence may follow what came before it.
pub open spec fn well_timed(before: Snapshot, signals: Seq<Signal>, timing: Timing) -> bool
    decreases signals.len(),
{
    signals.len() > 0 ==> {
        &&& may_follow(before, signals[0])
        &&& well_timed(after_signal(before, signals[0], timing), signals.drop_first(), timing)
    }
}

/// The earliest reading at which the monitor can check next.
pub open spec fn next_check_not_before(snapshot: Snapshot) -> nat {
    match snapshot.asked {
        Action::Sleep { secs } => if snapshot.asked_at + secs * NANOS_PER_SEC >= snapshot.clock {
            snapshot.asked_at + (secs * NANOS_PER_SEC) as nat
        } else {
            snapshot.clock
        },
        Action::SendAlert { .. } => snapshot.clock,
    }
}

/// A heartbeat restarts the count: right after a heartbeat, whatever came
/// before it, no time has elapsed since the last heartbeat, and until the next
/// signal the elapsed time only grows, by exactly the time that passes.
pub proof fn heartbeat_restarts_the_count(
    before: Snapshot,
    signals: Seq<Signal>,
    timing: Timing,
    earlier: nat,
    later: nat,
)
    requires
        signals.len() > 0,
        signals.last() is Heartbeat,
        reading_of(signals.last()) <= earlier <= later,
    ensures
        ({
            let beat = reading_of(signals.last());
            let last_seen = after_signals(before, signals, timing).last_seen;
            &&& last_seen == beat
            &&& nanos_between(last_seen, beat) == 0
            &&& secs_between(last_seen, beat) == 0
            &&& nanos_between(last_seen, earlier) == earlier - beat
            &&& nanos_between(last_seen, earlier) <= nanos_between(last_seen, later)
            &&& secs_between(last_seen, earlier) <= secs_between(last_seen, later)
        }),
    decreases signals.len(),
{
    if signals.len() > 1 {
        let rest = signals.drop_first();
        assert(rest.last() == signals.last());
        heartbeat_restarts_the_count(
            after_signal(before, signals[0], timing),
            rest,
            timing,
            earlier,
            later,
        );
    } else {
        let after_first = after_signal(before, signals[0], timing);
        assert(after_signals(after_first, signals.drop_first(), timing) == after_first);
    }
}

/// The monitor asks for an alert only in answer to a check.
pub proof fn alerts_answer_checks(
    state: MonitorState,
    last_seen: nat,
    event: Event,
    timing: Timing,
)
    requires
        action_after(state, last_seen, event, timing) is SendAlert,
    ensures
        event is Woke,
        is_stale(last_seen, reading_of(Signal::Report { event }), timing),
{
}

/// No signal moves the earliest next check backwards, and a check itself
/// happens no earlier than that.
proof fn next_check_only_moves_on(before: Snapshot, signal: Signal, timing: Timing)
    requires
        may_follow(before, signal),
    ensures
        next_check_not_before(after_signal(before, signal, timing)) >= next_check_not_before(
            before,
        ),
        is_check(signal) ==> reading_of(signal) >= next_check_not_before(before),
{
}

/// In a well-timed run, no check happens before the earliest next check of
/// the snapshot that the run starts from.
proof fn checks_wait_their_turn(
    before: Snapshot,
    signals: Seq<Signal>,
    timing: Timing,
    j: int,
)
    requires
        well_timed(before, signals, timing),
        0 <= j < signals.len(),
        is_check(signals[j]),
    ensures
        reading_of(signals[j]) >= next_check_not_before(before),
    decreases signals.len(),
{
    next_check_only_moves_on(before, signals[0], timing);
    if j > 0 {
        checks_wait_their_turn(
            after_signal(before, signals[0], timing),
            signals.drop_first(),
            timing,
            j - 1,
        );
    }
}

/// Once an alert was delivered, the monitor does not check again, and so
/// attempts no further alert, until the debounce has passed: in every
/// well-timed run, a check that comes after a delivery comes at least
/// `debounce_secs` later, whatever heartbeats arrive in between.
pub proof fn debounce_separates_delivery_and_check(
    before: Snapshot,
    signals: Seq<Signal>,
    timing: Timing,
    i: int,
    j: int,
)
    requires
        well_timed(before, signals, timing),
        0 <= i < j < signals.len(),
        is_delivery(signals[i]),
        is_check(signals[j]),
    ensures
        reading_of(signals[j]) >= reading_of(signals[i]) + timing.debounce_secs * NANOS_PER_SEC,
    decreases signals.len(),
{
    let after_first = after_signal(before, signals[0], timing);
    if i == 0 {
        assert(next_check_not_before(after_first) >= reading_of(signals[0]) + timing.debounce_secs
            * NANOS_PER_SEC);
        checks_wait_their_turn(after_first, signals.drop_first(), timing, j - 1);
    } else {
        debounce_separates_delivery_and_check(
            after_first,
            signals.drop_first(),
            timing,
            i - 1,
            j - 1,
        );
    }
}

/// An agent that stays silent through a debounce longer than the timeout is
/// stale when the debounce ends: the check at the end of the debounce, however
/// late it comes, asks for exactly one more alert.
pub proof fn silence_through_debounce_alerts_again(
    state: MonitorState,
    last_seen: nat,
    sent_at: Moment,
    woke_at: Moment,
    timing: Timing,
)
    requires
        timing.debounce_secs > timing.timeout_secs,
        woke_at@ >= sent_at@ + timing.debounce_secs * NANOS_PER_SEC,
    ensures
        ({
            let delivered = Event::Notified { result: NotifyResult::Sent, now: sent_at };
            action_after(
                state_after(state, delivered),
                last_seen_after(last_seen, delivered),
                Event::Woke { now: woke_at },
                timing,
            ) is SendAlert
        }),
{
    assert(secs_between(sent_at@, woke_at@) >= timing.debounce_secs) by {
        assert(nanos_between(sent_at@, woke_at@) >= timing.debounce_secs * NANOS_PER_SEC);
    }
}

/// A delivered alert restarts the count. Measured at the moment of delivery
/// the elapsed time is zero; from then on it is the time since the delivery,
/// so a check within `check_interval_secs` of the delivery measures no more
/// than that; and no check within `timeout_secs` of the delivery finds the
/// agent stale.
pub proof fn delivery_restarts_the_count(
    state: MonitorState,
    last_seen: nat,
    sent_at: Moment,
    later: Moment,
    timing: Timing,
)
    requires
        later@ >= sent_at@,
    ensures
        ({
            let delivered = Event::Notified { result: NotifyResult::Sent, now: sent_at };
            let reset = last_seen_after(last_seen, delivered);
            &&& nanos_between(reset, sent_at@) == 0
            &&& secs_between(reset, sent_at@) == 0
            &&& nanos_between(reset, later@) == later@ - sent_at@
            &&& later@ - sent_at@ <= timing.check_interval_secs * NANOS_PER_SEC ==> secs_between(
                reset,
                later@,
            ) <= timing.check_interval_secs
            &&& later@ - sent_at@ <= timing.timeout_secs * NANOS_PER_SEC ==> !is_stale(
                reset,
                later@,
                timing,
            )
            &&& later@ - sent_at@ <= timing.timeout_secs * NANOS_PER_SEC ==> action_after(
                state_after(state, delivered),
                reset,
                Event::Woke { now: later },
                timing,
            ) == (Action::Sleep { secs: timing.check_interval_secs })
        }),
{
}

/// A failed attempt is tried again. It leaves the state and the tracker as
/// they were and asks for a normal sleep; and since the tracker still holds
/// the heartbeat that was found stale, any later check finds the agent stale
/// again and asks for another alert.
pub proof fn failed_attempt_is_retried(
    last_seen: nat,
    checked_at: Moment,
    failed_at: Moment,
    next_check: Moment,
    timing: Timing,
)
    requires
        is_stale(last_seen, checked_at@, timing),
        next_check@ >= checked_at@,
    ensures
        ({
            let woke = Event::Woke { now: checked_at };
            let failed = Event::Notified { result: NotifyResult::Failed, now: failed_at };
            let state = state_after(state_after(MonitorState::Normal, woke), failed);
            let kept = last_seen_after(last_seen_after(last_seen, woke), failed);
            &&& state == MonitorState::Normal
            &&& kept == last_seen
            &&& action_after(MonitorState::Normal, last_seen, failed, timing) == (Action::Sleep {
                secs: timing.check_interval_secs,
            })
            &&& action_after(state, kept, Event::Woke { now: next_check }, timing) is SendAlert
        }),
{
    assert(secs_between(last_seen, next_check@) >= secs_between(last_seen, checked_at@)) by {
        assert(nanos_between(last_seen, next_check@) >= nanos_between(last_seen, checked_at@));
    }
}

/// What holds of the system between any two signals of a well-timed run: no
/// reading that it keeps lies ahead of the clock, the sleep that was asked
/// for is the sleep of the state, and an alert is only ever asked for in
/// `Normal`.
pub open spec fn coherent(snapshot: Snapshot, timing: Timing) -> bool {
    &&& snapshot.last_seen <= snapshot.clock
    &&& snapshot.asked_at <= snapshot.clock
    &&& match snapshot.asked {
        Action::Sleep { secs } => secs == sleep_secs_in(snapshot.state, timing),
        Action::SendAlert { .. } => snapshot.state == MonitorState::Normal,
    }
}

/// The system is coherent when it starts.
pub proof fn the_start_is_coherent(now: nat, timing: Timing)
    ensures
        coherent(at_start(now, timing), timing),
{
}

/// A signal that may follow a coherent system leaves it coherent.
pub proof fn a_signal_keeps_coherence(before: Snapshot, signal: Signal, timing: Timing)
    requires
        coherent(before, timing),
        may_follow(before, signal),
    ensures
        coherent(after_signal(before, signal, timing), timing),
{
}

/// A well-timed run leaves a coherent system coherent.
pub proof fn a_run_keeps_coherence(before: Snapshot, signals: Seq<Signal>, timing: Timing)
    requires
        coherent(before, timing),
        well_timed(before, signals, timing),
    ensures
        coherent(after_signals(before, signals, timing), timing),
    decreases signals.len(),
{
    if signals.len() > 0 {
        a_signal_keeps_coherence(before, signals[0], timing);
        a_run_keeps_coherence(
            after_signal(before, signals[0], timing),
            signals.drop_first(),
            timing,
        );
    }
}

/// In a coherent system a failed attempt changes nothing but what the monitor
/// asks for: the state stays `Normal`, the tracker keeps its reading, and the
/// next sleep is a normal one.
pub proof fn failure_leaves_a_coherent_system_normal(
    before: Snapshot,
    failed_at: Moment,
    timing: Timing,
)
    requires
        coherent(before, timing),
        may_follow(
            before,
            Signal::Report {
                event: Event::Notified { result: NotifyResult::Failed, now: failed_at },
            },
        ),
    ensures
        ({
            let after = after_signal(
                before,
                Signal::Report {
                    event: Event::Notified { result: NotifyResult::Failed, now: failed_at },
                },
                timing,
            );
            &&& before.state == MonitorState::Normal
            &&& after.state == before.state
            &&& after.last_seen == before.last_seen
            &&& after.asked == (Action::Sleep { secs: timing.check_interval_secs })
        }),
{
}

/// In a well-timed run no signal carries a reading behind the clock that the
/// run starts with.
proof fn no_reading_behind_the_clock(
    before: Snapshot,
    signals: Seq<Signal>,
    timing: Timing,
    k: int,
)
    requires
        well_timed(before, signals, timing),
        0 <= k < signals.len(),
    ensures
        reading_of(signals[k]) >= before.clock,
    decreases signals.len(),
{
    if k > 0 {
        no_reading_behind_the_clock(
            after_signal(before, signals[0], timing),
            signals.drop_first(),
            timing,
            k - 1,
        );
    }
}

/// In a well-timed run the readings never decrease from one signal to a
/// later one.
pub proof fn readings_never_decrease(
    before: Snapshot,
    signals: Seq<Signal>,
    timing: Timing,
    a: int,
    b: int,
)
    requires
        well_timed(before, signals, timing),
        0 <= a <= b < signals.len(),
    ensures
        reading_of(signals[a]) <= reading_of(signals[b]),
    decreases signals.len(),
{
    let after_first = after_signal(before, signals[0], timing);
    if a == 0 {
        if b > 0 {
            no_reading_behind_the_clock(after_first, signals.drop_first(), timing, b - 1);
        }
    } else {
        readings_never_decrease(after_first, signals.drop_first(), timing, a - 1, b - 1);
    }
}

/// Alerts that follow a delivered alert keep the debounce: in every
/// well-timed run, two checks with a delivery between them lie at least
/// `debounce_secs` apart, and so do the alert attempts that they may ask for.
pub proof fn debounce_separates_checks(
    before: Snapshot,
    signals: Seq<Signal>,
    timing: Timing,
    first: int,
    delivery: int,
    second: int,
)
    requires
        well_timed(before, signals, timing),
        0 <= first < delivery < second < signals.len(),
        is_check(signals[first]),
        is_delivery(signals[delivery]),
        is_check(signals[second]),
    ensures
        reading_of(signals[second]) >= reading_of(signals[first]) + timing.debounce_secs
            * NANOS_PER_SEC,
{
    readings_never_decrease(before, signals, timing, first, delivery);
    debounce_separates_delivery_and_check(before, signals, timing, delivery, second);
}

/// The signal overwrites the tracker: it is a heartbeat or the report of a
/// delivered alert.
pub open spec fn resets_tracker(signal: Signal) -> bool {
    signal is Heartbeat || is_delivery(signal)
}

/// A run without a heartbeat and without a delivered alert leaves the tracker
/// as it was.
pub proof fn tracker_keeps_its_reading(before: Snapshot, signals: Seq<Signal>, timing: Timing)
    requires
        forall|k: int| 0 <= k < signals.len() ==> !resets_tracker(#[trigger] signals[k]),
    ensures
        after_signals(before, signals, timing).last_seen == before.last_seen,
    decreases signals.len(),
{
    if signals.len() > 0 {
        let rest = signals.drop_first();
        assert(!resets_tracker(signals[0]));
        assert forall|k: int| 0 <= k < rest.len() implies !resets_tracker(#[trigger] rest[k]) by {
            assert(rest[k] == signals[k + 1]);
        }
        tracker_keeps_its_reading(after_signal(before, signals[0], timing), rest, timing);
    }
}

/// The tracker always holds the reading of the latest heartbeat or delivered
/// alert: after any run, well-timed or not, in which signal `latest` is the
/// last to overwrite the tracker, the tracker's reading is that signal's.
pub proof fn tracker_holds_the_latest_reset(
    before: Snapshot,
    signals: Seq<Signal>,
    timing: Timing,
    latest: int,
)
    requires
        0 <= latest < signals.len(),
        resets_tracker(signals[latest]),
        forall|k: int| latest < k < signals.len() ==> !resets_tracker(#[trigger] signals[k]),
    ensures
        after_signals(before, signals, timing).last_seen == reading_of(signals[latest]),
    decreases signals.len(),
{
    let after_first = after_signal(before, signals[0], timing);
    let rest = signals.drop_first();
    assert forall|k: int| latest <= k < rest.len() implies !resets_tracker(#[trigger] rest[k]) by {
        assert(rest[k] == signals[k + 1]);
    }
    if latest == 0 {
        tracker_keeps_its_reading(after_first, rest, timing);
    } else {
        tracker_holds_the_latest_reset(after_first, rest, timing, latest - 1);
    }
}

} // verus!

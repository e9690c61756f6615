use heartbeat_monitor::clock::{Moment, NANOS_PER_SEC};
use heartbeat_monitor::receiver::{
    on_heartbeat_signal, HEARTBEAT_PATH, LISTEN_ADDRESS, LISTEN_PORT, REPLY_BODY, REPLY_STATUS,
};
use heartbeat_monitor::tracker::Tracker;

#[test]
fn a_second_is_a_thousand_million_nanoseconds() {
    assert_eq!(NANOS_PER_SEC, 1_000_000_000);
    assert_eq!(Moment::from_secs(1).as_nanos(), 1_000_000_000);
    assert_eq!(Moment::from_secs(90).as_nanos(), 90_000_000_000);
    assert_eq!(Moment::from_secs(0), Moment::from_nanos(0));
}

#[test]
fn the_largest_second_count_fits() {
    let m = Moment::from_secs(u64::MAX);
    assert_eq!(m.as_nanos(), (u64::MAX as u128) * 1_000_000_000);
}

#[test]
fn nanos_since_is_the_difference() {
    let a = Moment::from_nanos(1_500);
    let b = Moment::from_nanos(4_000);
    assert_eq!(b.nanos_since(a), 2_500);
    assert_eq!(a.nanos_since(a), 0);
}

#[test]
fn nanos_since_an_older_reading_is_zero() {
    let a = Moment::from_nanos(1_500);
    let b = Moment::from_nanos(4_000);
    assert_eq!(a.nanos_since(b), 0);
    assert_eq!(a.secs_since(b), 0);
    assert_eq!(Moment::from_nanos(0).nanos_since(Moment::from_nanos(u128::MAX)), 0);
}

#[test]
fn secs_since_rounds_down() {
    let origin = Moment::from_nanos(0);
    assert_eq!(Moment::from_nanos(999_999_999).secs_since(origin), 0);
    assert_eq!(Moment::from_nanos(1_000_000_000).secs_since(origin), 1);
    assert_eq!(Moment::from_nanos(1_999_999_999).secs_since(origin), 1);
    assert_eq!(Moment::from_nanos(90_999_999_999).secs_since(origin), 90);
    let late = Moment::from_nanos(500_000_000);
    assert_eq!(Moment::from_nanos(2_400_000_000).secs_since(late), 1);
    assert_eq!(Moment::from_nanos(2_500_000_000).secs_since(late), 2);
}

#[test]
fn secs_since_spans_the_whole_range() {
    let last = Moment::from_nanos(u128::MAX);
    assert_eq!(last.secs_since(Moment::from_nanos(0)), u128::MAX / 1_000_000_000);
}

#[test]
fn a_new_tracker_counts_from_its_creation() {
    let born = Moment::from_secs(7);
    let tracker = Tracker::new(born);
    assert_eq!(tracker.last_heartbeat(), born);
    assert_eq!(tracker.elapsed_since(born), 0);
    assert_eq!(tracker.elapsed_secs(Moment::from_secs(12)), 5);
}

#[test]
fn touch_overwrites_the_last_heartbeat() {
    let mut tracker = Tracker::new(Moment::from_secs(0));
    tracker.touch(Moment::from_secs(40));
    assert_eq!(tracker.last_heartbeat(), Moment::from_secs(40));
    tracker.touch(Moment::from_secs(45));
    assert_eq!(tracker.last_heartbeat(), Moment::from_secs(45));
    assert_eq!(tracker, Tracker::new(Moment::from_secs(45)));
}

#[test]
fn elapsed_is_zero_right_after_each_heartbeat_and_then_grows() {
    let mut tracker = Tracker::new(Moment::from_nanos(0));
    let beats: [u128; 4] = [3_000_000_000, 3_000_000_001, 17_250_000_000, 600_000_000_000];
    for beat in beats {
        let at = Moment::from_nanos(beat);
        tracker.touch(at);
        assert_eq!(tracker.elapsed_since(at), 0);
        assert_eq!(tracker.elapsed_secs(at), 0);
        let mut previous = 0;
        for step in 0..50u128 {
            let later = Moment::from_nanos(beat + step * 123_456_789);
            let elapsed = tracker.elapsed_since(later);
            assert_eq!(elapsed, step * 123_456_789);
            assert!(elapsed >= previous);
            assert_eq!(tracker.elapsed_secs(later), elapsed / 1_000_000_000);
            previous = elapsed;
        }
    }
}

#[test]
fn elapsed_measured_before_the_heartbeat_is_zero() {
    let tracker = Tracker::new(Moment::from_secs(100));
    assert_eq!(tracker.elapsed_since(Moment::from_secs(99)), 0);
    assert_eq!(tracker.elapsed_secs(Moment::from_secs(99)), 0);
}

#[test]
fn a_heartbeat_touches_the_tracker_and_is_answered_with_ok() {
    let mut tracker = Tracker::new(Moment::from_secs(0));
    let at = Moment::from_nanos(12_345_678_901);
    let reply = on_heartbeat_signal(&mut tracker, at);
    assert_eq!(reply.status, 200);
    assert_eq!(reply.body, "OK");
    assert_eq!(tracker.last_heartbeat(), at);
    assert_eq!(tracker.elapsed_since(at), 0);
}

#[test]
fn every_heartbeat_gets_the_same_answer() {
    let mut tracker = Tracker::new(Moment::from_secs(50));
    for secs in [60u64, 55, 55, 1_000_000] {
        let reply = on_heartbeat_signal(&mut tracker, Moment::from_secs(secs));
        assert_eq!(reply.status, REPLY_STATUS);
        assert_eq!(reply.body, REPLY_BODY);
        assert_eq!(tracker.last_heartbeat(), Moment::from_secs(secs));
    }
}

#[test]
fn the_receiver_listens_where_it_should() {
    assert_eq!(HEARTBEAT_PATH, "/heartbeat/poop");
    assert_eq!(LISTEN_ADDRESS, "0.0.0.0");
    assert_eq!(LISTEN_PORT, 3000);
    assert_eq!(REPLY_STATUS, 200);
    assert_eq!(REPLY_BODY, "OK");
}

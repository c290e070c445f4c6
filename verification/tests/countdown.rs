use pomodorro_rust::countdown::{Countdown, Progress, MILLIS_PER_SECOND, TICK_MILLIS};

#[test]
fn the_tick_is_a_tenth_of_a_second() {
    assert_eq!(TICK_MILLIS, 100);
    assert_eq!(MILLIS_PER_SECOND, 1000);
}

#[test]
fn a_new_countdown_has_counted_nothing() {
    let c = Countdown::new(5);
    assert_eq!(c, Countdown { total_secs: 5, counted_millis: 0, shown_secs: 0 });
    assert_eq!(c.elapsed_secs(), 0);
    assert!(!c.is_complete());
    assert!(Countdown::new(0).is_complete());
}

#[test]
fn record_reports_whole_seconds_once() {
    let mut c = Countdown::new(3);
    assert_eq!(c.record(999), Progress::Pending { advance: 0 });
    assert_eq!(c.record(1), Progress::Pending { advance: 1 });
    assert_eq!(c.record(1999), Progress::Pending { advance: 1 });
    assert_eq!(c.elapsed_secs(), 2);
    assert_eq!(c.shown_secs, 2);
    assert_eq!(c.record(0), Progress::Pending { advance: 0 });
    assert_eq!(c.record(1), Progress::Complete);
    assert_eq!(c, Countdown { total_secs: 3, counted_millis: 3000, shown_secs: 2 });
    assert!(c.is_complete());
}

#[test]
fn fifty_ticks_make_five_seconds() {
    let mut c = Countdown::new(5);
    for tick in 1..50u64 {
        let advance = if tick % 10 == 0 { 1 } else { 0 };
        assert_eq!(c.record(TICK_MILLIS), Progress::Pending { advance });
        assert_eq!(c.counted_millis, tick * TICK_MILLIS);
    }
    assert_eq!(c.record(TICK_MILLIS), Progress::Complete);
    assert_eq!(c.counted_millis, 5000);
}

#[test]
fn the_counted_time_stops_at_the_largest_value() {
    let mut c = Countdown::new(u64::MAX);
    assert_eq!(c.record(u64::MAX - 5), Progress::Pending { advance: (u64::MAX - 5) / 1000 });
    assert_eq!(c.record(100), Progress::Pending { advance: 0 });
    assert_eq!(c.counted_millis, u64::MAX);
    assert_eq!(c.elapsed_secs(), u64::MAX / 1000);
    assert!(!c.is_complete());
}

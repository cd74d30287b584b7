use keyboard_firmware::config::{HEARTBEAT_PERIOD_MS, KEY_EMIT_PERIOD_MS, SCAN_PERIOD_MS};
use keyboard_firmware::timer::{SoftTimer, TimerError};

fn started(period: u64, now: u64) -> SoftTimer {
    match SoftTimer::start(period, now) {
        Ok(timer) => timer,
        Err(_) => panic!("a positive period starts a timer"),
    }
}

#[test]
fn configured_periods() {
    assert_eq!(KEY_EMIT_PERIOD_MS, 1000);
    assert_eq!(SCAN_PERIOD_MS, 1);
    assert_eq!(HEARTBEAT_PERIOD_MS, 1000);
}

#[test]
fn zero_period_is_refused() {
    assert!(matches!(SoftTimer::start(0, 0), Err(TimerError::ZeroPeriod)));
    assert!(matches!(SoftTimer::start(0, 77), Err(TimerError::ZeroPeriod)));
}

#[test]
fn period_is_kept() {
    assert_eq!(started(1000, 0).period(), 1000);
    assert_eq!(started(1, u64::MAX).period(), 1);
}

#[test]
fn not_due_before_the_first_boundary() {
    let mut timer = started(1000, 0);
    assert!(!timer.poll(0));
    assert!(!timer.poll(1));
    assert!(!timer.poll(999));
}

#[test]
fn due_at_the_boundary_and_once_only() {
    let mut timer = started(1000, 0);
    assert!(!timer.poll(999));
    assert!(timer.poll(1000));
    assert!(!timer.poll(1000));
    assert!(!timer.poll(1001));
    assert!(!timer.poll(1999));
    assert!(timer.poll(2000));
    assert!(!timer.poll(2000));
}

#[test]
fn boundaries_are_counted_from_the_start_tick() {
    let mut timer = started(10, 5);
    assert!(!timer.poll(10));
    assert!(!timer.poll(14));
    assert!(timer.poll(15));
    assert!(!timer.poll(24));
    assert!(timer.poll(25));
}

#[test]
fn a_late_poll_does_not_shift_the_boundaries() {
    let mut timer = started(1000, 0);
    assert!(timer.poll(1700));
    assert!(!timer.poll(1999));
    assert!(timer.poll(2000));
}

#[test]
fn boundaries_that_passed_together_are_reported_once() {
    let mut timer = started(1000, 0);
    assert!(timer.poll(3500));
    assert!(!timer.poll(3500));
    assert!(!timer.poll(3999));
    assert!(timer.poll(4000));
}

#[test]
fn a_tick_before_the_start_is_never_due() {
    let mut timer = started(10, 100);
    assert!(!timer.poll(0));
    assert!(!timer.poll(50));
    assert!(!timer.poll(109));
    assert!(timer.poll(110));
}

#[test]
fn a_clock_that_steps_back_does_not_rearm_a_boundary() {
    let mut timer = started(10, 0);
    assert!(timer.poll(10));
    assert!(!timer.poll(5));
    assert!(!timer.poll(10));
    assert!(!timer.poll(19));
    assert!(timer.poll(20));
}

#[test]
fn no_overflow_at_the_end_of_the_tick_range() {
    let mut timer = started(u64::MAX, 0);
    assert!(!timer.poll(u64::MAX - 1));
    assert!(timer.poll(u64::MAX));
    assert!(!timer.poll(u64::MAX));
    let mut late = started(3, u64::MAX - 1);
    assert!(!late.poll(u64::MAX));
}

#[test]
fn polled_every_tick_is_due_at_multiples_of_the_period() {
    let mut timer = started(7, 3);
    for i in 1..=100u64 {
        assert_eq!(timer.poll(3 + i), i % 7 == 0);
    }
}

#[test]
fn jitter_within_one_period_loses_no_boundary() {
    let mut timer = started(10, 0);
    let times = [3u64, 3, 11, 19, 20, 29, 39, 40, 41, 50, 60, 60, 69, 79, 89, 99, 100];
    let mut due = 0;
    for now in times {
        if timer.poll(now) {
            due += 1;
        }
    }
    assert_eq!(due, 10);
}

#[test]
fn long_gaps_never_yield_more_than_one_report_per_boundary() {
    let mut timer = started(10, 0);
    let times = [35u64, 36, 90, 200, 201];
    let mut due = 0;
    for now in times {
        if timer.poll(now) {
            due += 1;
        }
    }
    assert_eq!(due, 3);
    assert!(due <= 201 / 10);
}

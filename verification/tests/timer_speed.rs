use plotter_motion::speed_calc::PulseContedSpeedCalc;
use plotter_motion::stop_timer::StopTimer;

#[test]
fn timer_runs_until_deadline_and_fires_once() {
    let mut t = StopTimer::new();
    t.start_timer(10, 0);
    assert!(t.is_running(0));
    assert!(t.is_running(9_999));
    // the clock has advanced past 10 ms
    assert!(!t.is_running(10_000));
    // a second immediate call does not trigger again
    assert!(!t.is_running(10_000));
    assert!(!t.status());
}

#[test]
fn timer_expiry_check_consumes_armed_state() {
    let mut t = StopTimer::new();
    t.start_timer(5, 100);
    assert!(!t.has_expired(4_999));
    assert!(t.status());
    assert!(t.has_expired_no_rst(5_100));
    assert!(t.status());
    assert!(t.has_expired(5_100));
    assert!(!t.status());
    assert!(!t.has_expired(5_100));
}

#[test]
fn timer_reset_disarms_immediately() {
    let mut t = StopTimer::new();
    t.start_timer(1000, 0);
    assert!(t.is_running(10));
    t.reset_timer();
    assert!(!t.is_running(11));
    assert!(!t.status());
}

#[test]
fn speed_is_delta_over_elapsed_time() {
    let mut sc = PulseContedSpeedCalc::new(0);
    assert_eq!(sc.speed(), 0);
    // 5 pulses in 1000 microseconds: 5000 pulses per second
    sc.tick(50, 5, 1_000);
    assert_eq!(sc.speed(), 5_000_000);
    assert_eq!(sc.pos(), 5);
    assert_eq!(sc.last_sample_time(), 1_000);
    // backwards motion gives a negative speed
    sc.tick(50, 3, 2_000);
    assert_eq!(sc.speed(), -2_000_000);
}

#[test]
fn stall_detected_after_200_ms_at_any_duty() {
    let mut sc = PulseContedSpeedCalc::new(0);
    sc.tick(100, 5, 1_000);
    assert_eq!(sc.speed(), 5_000_000);
    // unchanged position, 199 ms later: not yet a stall at full duty
    sc.tick(100, 5, 200_000);
    assert_eq!(sc.speed(), 5_000_000);
    // unchanged position, over 200 ms later: stalled
    sc.tick(100, 5, 202_001);
    assert_eq!(sc.speed(), 0);
}

#[test]
fn stall_detected_after_100_ms_at_low_duty() {
    let mut sc = PulseContedSpeedCalc::new(0);
    sc.tick(5, 3, 1_000);
    assert_eq!(sc.speed(), 3_000_000);
    sc.tick(5, 3, 102_001);
    assert_eq!(sc.speed(), 0);
}

#[test]
fn low_duty_window_uses_duty_magnitude() {
    let mut sc = PulseContedSpeedCalc::new(0);
    sc.tick(-5, 3, 1_000);
    assert_eq!(sc.speed(), 3_000_000);
    // negative duty of small magnitude still counts as the low-duty case
    sc.tick(-5, 3, 102_001);
    assert_eq!(sc.speed(), 0);
}

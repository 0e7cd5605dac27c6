use player_core::rate_limit::{Debouncer, RateLimiter, SendDecision};

#[test]
fn first_value_passes_at_once() {
    let mut r: RateLimiter<u32> = RateLimiter::new(60);
    match r.send(1_000, 7) {
        SendDecision::Fire { value, cancel_timer } => {
            assert_eq!(value, 7);
            assert!(!cancel_timer);
        }
        _ => panic!("expected the value to pass"),
    }
    assert_eq!(r.last_fire_ms, Some(1_000));
    assert!(r.pending.is_none());
}

#[test]
fn values_inside_the_interval_wait_for_the_timer_and_the_latest_wins() {
    let mut r: RateLimiter<u32> = RateLimiter::new(60);
    let _ = r.send(1_000, 1);
    match r.send(1_020, 2) {
        SendDecision::Schedule { wait_ms } => assert_eq!(wait_ms, 40),
        _ => panic!("expected a timer"),
    }
    assert!(matches!(r.send(1_030, 3), SendDecision::Hold));
    assert_eq!(r.pending, Some(3));
    assert!(r.timer_armed);
    assert_eq!(r.fire_pending(1_060), Some(3));
    assert_eq!(r.last_fire_ms, Some(1_060));
    assert!(!r.timer_armed);
    assert_eq!(r.fire_pending(1_070), None);
    assert_eq!(r.last_fire_ms, Some(1_060));
}

#[test]
fn a_value_after_the_interval_cancels_the_timer() {
    let mut r: RateLimiter<u32> = RateLimiter::new(60);
    let _ = r.send(1_000, 1);
    let _ = r.send(1_010, 2);
    match r.send(1_060, 3) {
        SendDecision::Fire { value, cancel_timer } => {
            assert_eq!(value, 3);
            assert!(cancel_timer);
        }
        _ => panic!("expected the value to pass"),
    }
    assert!(r.pending.is_none());
    assert!(!r.timer_armed);
}

#[test]
fn clock_going_back_holds_the_value() {
    let mut r: RateLimiter<u32> = RateLimiter::new(60);
    let _ = r.send(1_000, 1);
    match r.send(990, 2) {
        SendDecision::Schedule { wait_ms } => assert_eq!(wait_ms, 70),
        _ => panic!("expected a timer"),
    }
}

#[test]
fn flush_passes_now_and_drops_what_waits() {
    let mut r: RateLimiter<u32> = RateLimiter::new(60);
    let _ = r.send(1_000, 1);
    let _ = r.send(1_010, 2);
    assert!(r.flush(1_015));
    assert!(r.pending.is_none());
    assert_eq!(r.last_fire_ms, Some(1_015));
    assert!(!r.flush(1_016));
}

#[test]
fn debouncer_replaces_its_timer() {
    let mut d = Debouncer::new(50);
    let first = d.send();
    assert!(!first.cancel_previous);
    assert_eq!(first.delay_ms, 50);
    let second = d.send();
    assert!(second.cancel_previous);
    d.fire();
    assert!(!d.timer_armed);
    assert!(!d.send().cancel_previous);
}

#[test]
fn callbacks_through_the_timer_stay_an_interval_apart() {
    let mut r: RateLimiter<u32> = RateLimiter::new(60);
    let mut calls: Vec<(u64, u32)> = Vec::new();
    let mut deadline = 0u64;
    for (now, v) in [(0u64, 1u32), (10, 2), (20, 3), (30, 4)] {
        match r.send(now, v) {
            SendDecision::Fire { value, .. } => calls.push((now, value)),
            SendDecision::Schedule { wait_ms } => deadline = now + wait_ms,
            SendDecision::Hold => {}
        }
    }
    if let Some(v) = r.fire_pending(deadline) {
        calls.push((deadline, v));
    }
    match r.send(100, 5) {
        SendDecision::Schedule { wait_ms } => deadline = 100 + wait_ms,
        _ => panic!("expected a timer"),
    }
    if let Some(v) = r.fire_pending(deadline) {
        calls.push((deadline, v));
    }
    assert_eq!(calls, vec![(0, 1), (60, 4), (120, 5)]);
    for w in calls.windows(2) {
        assert!(w[1].0 >= w[0].0 + 60);
    }
}

use redeemer::timer::{nanos_from_millis, Timer, TimerMode};

#[test]
fn fresh_timer_is_not_finished_even_with_no_duration() {
    let t = Timer::once(0);
    assert!(!t.finished());
    assert!(!t.just_finished());
    assert_eq!(t.elapsed, 0);
}

#[test]
fn zero_duration_timer_finishes_on_first_tick() {
    let mut t = Timer::once(0);
    t.tick(0);
    assert!(t.finished());
    assert!(t.just_finished());
}

#[test]
fn once_timer_finishes_exactly_at_its_duration() {
    let mut t = Timer::once(500);
    t.tick(499);
    assert!(!t.finished());
    assert_eq!(t.elapsed, 499);
    t.tick(1);
    assert!(t.finished());
    assert!(t.just_finished());
    assert_eq!(t.elapsed, 500);
}

#[test]
fn once_timer_stops_at_its_duration_and_stays_finished() {
    let mut t = Timer::once(100);
    t.tick(1_000);
    assert_eq!(t.elapsed, 100);
    assert!(t.finished());
    t.tick(1_000);
    assert_eq!(t.elapsed, 100);
    assert!(t.finished());
    assert!(!t.just_finished());
}

#[test]
fn reset_keeps_duration_and_clears_the_rest() {
    let mut t = Timer::once(100);
    t.tick(100);
    t.reset();
    assert_eq!(t, Timer::once(100));
}

#[test]
fn set_duration_changes_only_the_duration() {
    let mut t = Timer::once(100);
    t.tick(40);
    t.set_duration(10);
    assert_eq!(t.duration, 10);
    assert_eq!(t.elapsed, 40);
    assert!(!t.finished());
    t.tick(0);
    assert!(t.finished());
    assert_eq!(t.elapsed, 10);
}

#[test]
fn repeating_timer_wraps_and_counts_laps() {
    let mut t = Timer::new(100, TimerMode::Repeating);
    t.tick(250);
    assert!(t.finished());
    assert!(t.just_finished());
    assert_eq!(t.times_finished_this_tick, 2);
    assert_eq!(t.elapsed, 50);
    t.tick(10);
    assert!(!t.finished());
    assert!(!t.just_finished());
    assert_eq!(t.elapsed, 60);
}

#[test]
fn repeating_timer_of_no_duration_finishes_every_tick() {
    let mut t = Timer::new(0, TimerMode::Repeating);
    t.tick(5);
    assert!(t.just_finished());
    assert_eq!(t.times_finished_this_tick, u32::MAX);
    assert_eq!(t.elapsed, 0);
}

#[test]
fn tick_saturates_instead_of_overflowing() {
    let mut t = Timer::once(u64::MAX);
    t.tick(u64::MAX - 1);
    assert!(!t.finished());
    t.tick(u64::MAX);
    assert!(t.finished());
    assert_eq!(t.elapsed, u64::MAX);
}

#[test]
fn milliseconds_convert_to_nanoseconds() {
    assert_eq!(nanos_from_millis(150), 150_000_000);
    assert_eq!(nanos_from_millis(0), 0);
    assert_eq!(nanos_from_millis(u64::MAX), u64::MAX);
    assert_eq!(Timer::from_millis(500, TimerMode::Once), Timer::once(500_000_000));
}

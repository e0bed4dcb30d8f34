use redeemer::timer::{Timer, TimerMode};
use std::time::Duration;

fn engine_mode(mode: TimerMode) -> bevy::time::TimerMode {
    match mode {
        TimerMode::Once => bevy::time::TimerMode::Once,
        TimerMode::Repeating => bevy::time::TimerMode::Repeating,
    }
}

fn assert_same(ours: &Timer, theirs: &bevy::time::Timer) {
    assert_eq!(Duration::from_nanos(ours.duration), theirs.duration());
    assert_eq!(Duration::from_nanos(ours.elapsed), theirs.elapsed());
    assert_eq!(ours.finished(), theirs.finished());
    assert_eq!(ours.just_finished(), theirs.just_finished());
    assert_eq!(ours.times_finished_this_tick, theirs.times_finished_this_tick());
}

fn run_both(duration: u64, mode: TimerMode, deltas: &[u64]) {
    let mut ours = Timer::new(duration, mode);
    let mut theirs = bevy::time::Timer::new(Duration::from_nanos(duration), engine_mode(mode));
    assert_same(&ours, &theirs);
    for delta in deltas {
        ours.tick(*delta);
        theirs.tick(Duration::from_nanos(*delta));
        assert_same(&ours, &theirs);
    }
    ours.set_duration(duration / 2 + 1);
    theirs.set_duration(Duration::from_nanos(duration / 2 + 1));
    assert_same(&ours, &theirs);
    ours.tick(3);
    theirs.tick(Duration::from_nanos(3));
    assert_same(&ours, &theirs);
    ours.reset();
    theirs.reset();
    assert_same(&ours, &theirs);
    for delta in deltas {
        ours.tick(*delta);
        theirs.tick(Duration::from_nanos(*delta));
        assert_same(&ours, &theirs);
    }
}

#[test]
fn one_shot_timer_ticks_like_the_engines() {
    let deltas = [0, 1, 16_000_000, 16_666_667, 0, 100_000_000, 500_000_000, 1, 0, 7];
    for duration in [0, 1, 150_000_000, 350_000_000, 500_000_000, 600_000_000, 1_200_000_000] {
        run_both(duration, TimerMode::Once, &deltas);
    }
}

#[test]
fn repeating_timer_ticks_like_the_engines() {
    let deltas = [0, 1, 16_000_000, 4_999_999_999, 1, 12_000_000_000, 0, 5_000_000_000, 3];
    for duration in [0, 1, 7, 1_000_000, 5_000_000_000] {
        run_both(duration, TimerMode::Repeating, &deltas);
    }
}

use std::time::Duration;

use gunplay::timer::Timer;

const SECOND: u64 = 1_000_000_000;

#[test]
fn new_timer_has_its_full_duration_left() {
    let t = Timer::new(2 * SECOND);
    assert_eq!(t.duration, 2 * SECOND);
    assert_eq!(t.remaining, 2 * SECOND);
    assert!(!t.finished);
}

#[test]
fn tick_runs_the_countdown_down() {
    let mut t = Timer::new(SECOND);
    assert!(!t.tick(400_000_000));
    assert_eq!(t.remaining, 600_000_000);
    assert!(!t.finished);
    assert_eq!(t.duration, SECOND);
}

#[test]
fn tick_reports_the_end_on_the_exact_tick() {
    let mut t = Timer::new(SECOND);
    assert!(!t.tick(999_999_999));
    assert_eq!(t.remaining, 1);
    assert!(t.tick(1));
    assert_eq!(t.remaining, 0);
    assert!(t.finished);
}

#[test]
fn tick_past_the_end_stops_at_zero() {
    let mut t = Timer::new(SECOND);
    assert!(t.tick(5 * SECOND));
    assert_eq!(t.remaining, 0);
    assert!(t.finished);
}

#[test]
fn finished_timer_never_reports_again() {
    let mut t = Timer::new(SECOND);
    assert!(t.tick(SECOND));
    for _ in 0..10 {
        assert!(!t.tick(SECOND));
        assert_eq!(t.remaining, 0);
        assert!(t.finished);
    }
}

#[test]
fn zero_timer_ends_on_its_first_tick() {
    let mut t = Timer::new(0);
    assert!(!t.finished);
    assert!(t.tick(0));
    assert!(t.finished);
    assert!(!t.tick(0));
}

#[test]
fn tick_of_nothing_changes_nothing() {
    let mut t = Timer::new(SECOND);
    assert!(!t.tick(0));
    assert_eq!(t, Timer::new(SECOND));
}

#[test]
fn reset_starts_over() {
    let mut t = Timer::new(SECOND);
    assert!(t.tick(SECOND));
    t.reset();
    assert_eq!(t, Timer::new(SECOND));
    assert!(!t.tick(SECOND - 1));
    assert!(t.tick(1));
}

#[test]
fn steps_that_add_up_to_the_duration_end_it_exactly_once() {
    let steps = [250_000_000u64, 250_000_000, 250_000_000, 250_000_000, 250_000_000, 250_000_000];
    let mut t = Timer::new(SECOND);
    let mut ends = 0;
    for (i, d) in steps.iter().enumerate() {
        if t.tick(*d) {
            ends += 1;
            assert_eq!(i, 3);
        }
    }
    assert_eq!(ends, 1);
}

#[test]
fn steps_that_fall_short_never_end_it() {
    let mut t = Timer::new(SECOND);
    let mut ends = 0;
    for _ in 0..9 {
        if t.tick(100_000_000) {
            ends += 1;
        }
    }
    assert_eq!(ends, 0);
    assert_eq!(t.remaining, 100_000_000);
}

#[test]
fn tick_near_the_largest_time_does_not_overflow() {
    let mut t = Timer::new(u64::MAX);
    assert!(!t.tick(u64::MAX - 1));
    assert_eq!(t.remaining, 1);
    assert!(t.tick(u64::MAX));
    assert_eq!(t.remaining, 0);
}

#[test]
fn countdown_agrees_with_a_one_shot_timer_of_the_engine() {
    let runs: [(u64, &[u64]); 6] = [
        (SECOND, &[250_000_000, 250_000_000, 250_000_000, 250_000_000, 250_000_000]),
        (SECOND, &[999_999_999, 1, 1, 0]),
        (SECOND, &[0, 0, 3 * SECOND, SECOND]),
        (0, &[0, 5, 0]),
        (7, &[1, 2, 3, 4, 5]),
        (2 * SECOND, &[16_666_667; 130]),
    ];
    for (duration, deltas) in runs {
        let mut ours = Timer::new(duration);
        let mut theirs = bevy::prelude::Timer::new(Duration::from_nanos(duration), false);
        for delta in deltas {
            let done = ours.tick(*delta);
            theirs.tick(Duration::from_nanos(*delta));
            assert_eq!(done, theirs.just_finished());
            assert_eq!(ours.finished, theirs.finished());
            assert_eq!(
                Duration::from_nanos(ours.duration - ours.remaining),
                theirs.elapsed()
            );
        }
    }
}

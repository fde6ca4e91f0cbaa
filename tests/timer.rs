use laughing_barnacle::error::LifecycleError;
use laughing_barnacle::timer::Timer;

const SECOND: u64 = 1_000_000_000;

fn timer(duration: u64, repeating: bool) -> Timer {
    Timer::new(duration, repeating).expect("positive duration")
}

#[test]
fn timer_with_zero_duration_is_refused() {
    assert_eq!(Timer::new(0, true), Err(LifecycleError::InvalidDuration));
    assert_eq!(Timer::new(0, false), Err(LifecycleError::InvalidDuration));
}

#[test]
fn new_timer_starts_empty() {
    let t = timer(SECOND, true);
    assert_eq!(t.duration, SECOND);
    assert_eq!(t.elapsed, 0);
    assert!(t.repeating);
    assert!(!t.just_finished);
    assert_eq!(t.times_finished, 0);
}

#[test]
fn repeating_timer_fires_on_crossing_multiples() {
    let mut t = timer(SECOND, true);
    let delta = SECOND / 4;
    let mut fired = Vec::new();
    for tick in 1..=10u64 {
        t.tick(delta);
        if t.just_finished {
            fired.push(tick);
        }
        assert_eq!(t.times_finished, tick * delta / SECOND);
    }
    assert_eq!(fired, vec![4, 8]);
    assert_eq!(t.elapsed, SECOND / 2);
}

#[test]
fn repeating_timer_with_uneven_delta() {
    let mut t = timer(1000, true);
    let mut fired = Vec::new();
    for tick in 1..=10u64 {
        t.tick(300);
        if t.just_finished {
            fired.push(tick);
        }
        assert_eq!(t.times_finished, tick * 300 / 1000);
    }
    assert_eq!(fired, vec![4, 7, 10]);
    assert_eq!(t.elapsed, 0);
}

#[test]
fn repeating_timer_fires_at_most_once_per_tick() {
    let mut t = timer(SECOND, true);
    t.tick(3 * SECOND);
    assert!(t.just_finished);
    assert_eq!(t.times_finished, 1);
    assert_eq!(t.elapsed, 2 * SECOND);
    t.tick(0);
    assert!(t.just_finished);
    assert_eq!(t.times_finished, 2);
    assert_eq!(t.elapsed, SECOND);
}

#[test]
fn one_shot_timer_fires_exactly_once() {
    let mut t = timer(5 * SECOND, false);
    let mut fired = Vec::new();
    for tick in 1..=8u64 {
        t.tick(2 * SECOND);
        if t.just_finished {
            fired.push(tick);
        }
    }
    assert_eq!(fired, vec![3]);
    assert_eq!(t.times_finished, 1);
    assert_eq!(t.elapsed, 5 * SECOND);
}

#[test]
fn one_shot_timer_fires_when_reaching_duration_exactly() {
    let mut t = timer(SECOND, false);
    t.tick(SECOND / 2);
    assert!(!t.just_finished);
    assert_eq!(t.elapsed, SECOND / 2);
    t.tick(SECOND / 2);
    assert!(t.just_finished);
    assert_eq!(t.elapsed, SECOND);
    t.tick(SECOND);
    assert!(!t.just_finished);
    assert_eq!(t.times_finished, 1);
    assert_eq!(t.elapsed, SECOND);
}

#[test]
fn zero_delta_does_not_fire_a_fresh_timer() {
    let mut t = timer(SECOND, true);
    t.tick(0);
    assert!(!t.just_finished);
    assert_eq!(t.elapsed, 0);
    assert_eq!(t.times_finished, 0);
}

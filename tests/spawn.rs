use laughing_barnacle::error::LifecycleError;
use laughing_barnacle::spawn::{random_position, BarnacleSpawnTimer, SPAWN_INTERVAL};

const SECOND: u64 = 1_000_000_000;

#[test]
fn spawner_with_zero_interval_is_refused() {
    assert_eq!(BarnacleSpawnTimer::new(0), Err(LifecycleError::InvalidDuration));
}

#[test]
fn spawner_fires_every_tick_at_one_second() {
    let mut spawner = BarnacleSpawnTimer::new(SPAWN_INTERVAL).unwrap();
    for _ in 0..6 {
        assert!(spawner.tick(SECOND));
    }
    assert_eq!(spawner.0.times_finished, 6);
    assert_eq!(spawner.0.elapsed, 0);
}

#[test]
fn spawner_fires_every_second_tick_at_half_second() {
    let mut spawner = BarnacleSpawnTimer::new(SPAWN_INTERVAL).unwrap();
    let fired: Vec<bool> = (0..6).map(|_| spawner.tick(SECOND / 2)).collect();
    assert_eq!(fired, vec![false, true, false, true, false, true]);
    assert_eq!(spawner.0.times_finished, 3);
}

#[test]
fn spawner_reports_its_firing_in_the_timer() {
    let mut spawner = BarnacleSpawnTimer::new(3).unwrap();
    assert!(!spawner.tick(2));
    assert!(!spawner.0.just_finished);
    assert!(spawner.tick(2));
    assert!(spawner.0.just_finished);
    assert_eq!(spawner.0.elapsed, 1);
}

#[test]
fn random_positions_vary() {
    let positions: Vec<_> = (0..16).map(|_| random_position()).collect();
    assert!(positions.iter().any(|p| *p != positions[0]));
}

use laughing_barnacle::barnacle::{
    Barnacle, BarnacleEntity, BarnacleStatus, SpawnPosition, ATTACHED_DURATION, ATTACHING_PERIOD,
};
use laughing_barnacle::error::EntityId;

const SECOND: u64 = 1_000_000_000;

fn origin() -> SpawnPosition {
    SpawnPosition { x: 0, y: 0, z: 0 }
}

#[test]
fn new_barnacle_is_attaching() {
    assert_eq!(Barnacle::new().status, BarnacleStatus::Attaching);
    let e = BarnacleEntity::new(EntityId(3), origin());
    assert_eq!(e.id, EntityId(3));
    assert_eq!(e.barnacle.status, BarnacleStatus::Attaching);
    assert_eq!(e.attaching_timer.0.duration, ATTACHING_PERIOD);
    assert!(e.attaching_timer.0.repeating);
    assert_eq!(e.attached_timer.0.duration, ATTACHED_DURATION);
    assert!(!e.attached_timer.0.repeating);
    assert_eq!(e.material_index, 0);
}

#[test]
fn barnacle_attaches_at_tick_five() {
    let mut e = BarnacleEntity::new(EntityId(0), origin());
    let mut statuses = vec![e.barnacle.status];
    for _ in 0..8 {
        e.advance(SECOND);
        statuses.push(e.barnacle.status);
    }
    for (tick, status) in statuses.iter().enumerate() {
        if tick < 5 {
            assert_eq!(*status, BarnacleStatus::Attaching, "tick {}", tick);
        } else {
            assert_eq!(*status, BarnacleStatus::Attached, "tick {}", tick);
        }
    }
}

#[test]
fn material_cycles_through_three() {
    let mut e = BarnacleEntity::new(EntityId(0), origin());
    let mut indices = vec![e.material_index];
    for _ in 0..6 {
        e.advance(ATTACHING_PERIOD);
        indices.push(e.material_index);
        assert_eq!(e.material_index, e.attaching_timer.0.times_finished % 3);
    }
    assert_eq!(indices, vec![0, 1, 2, 0, 1, 2, 0]);
}

#[test]
fn material_keeps_cycling_once_attached() {
    let mut e = BarnacleEntity::new(EntityId(0), origin());
    e.advance(ATTACHED_DURATION);
    assert_eq!(e.barnacle.status, BarnacleStatus::Attached);
    assert_eq!(e.material_index, 1);
    e.advance(ATTACHING_PERIOD);
    assert_eq!(e.material_index, 2);
}

#[test]
fn removed_barnacle_ignores_ticks() {
    let mut e = BarnacleEntity::new(EntityId(0), origin());
    e.advance(ATTACHING_PERIOD);
    e.remove();
    assert_eq!(e.barnacle.status, BarnacleStatus::Gone);
    let frozen = e;
    for _ in 0..10 {
        e.advance(SECOND);
    }
    assert_eq!(e, frozen);
    assert_eq!(e.barnacle.status, BarnacleStatus::Gone);
}

#[test]
fn attached_barnacle_can_be_removed() {
    let mut e = BarnacleEntity::new(EntityId(0), origin());
    e.advance(ATTACHED_DURATION);
    assert_eq!(e.barnacle.status, BarnacleStatus::Attached);
    e.remove();
    assert_eq!(e.barnacle.status, BarnacleStatus::Gone);
    e.remove();
    assert_eq!(e.barnacle.status, BarnacleStatus::Gone);
}

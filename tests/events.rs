use laughing_barnacle::barnacle::{BarnacleEntity, BarnacleStatus, SpawnPosition, ATTACHED_DURATION};
use laughing_barnacle::error::{EntityId, LifecycleError};
use laughing_barnacle::events::{print_events, PickingEvent};

fn store(n: usize) -> Vec<BarnacleEntity> {
    (0..n)
        .map(|i| BarnacleEntity::new(EntityId(i), SpawnPosition { x: 0, y: 0, z: 0 }))
        .collect()
}

fn statuses(barnacles: &[BarnacleEntity]) -> Vec<BarnacleStatus> {
    barnacles.iter().map(|b| b.barnacle.status).collect()
}

#[test]
fn click_makes_attaching_barnacle_gone() {
    let mut barnacles = store(2);
    let errors = print_events(&mut barnacles, &vec![PickingEvent::Clicked(EntityId(1))]);
    assert!(errors.is_empty());
    assert_eq!(statuses(&barnacles), vec![BarnacleStatus::Attaching, BarnacleStatus::Gone]);
}

#[test]
fn click_makes_attached_barnacle_gone_and_second_click_keeps_it() {
    let mut barnacles = store(1);
    barnacles[0].advance(ATTACHED_DURATION);
    assert_eq!(barnacles[0].barnacle.status, BarnacleStatus::Attached);
    let click = vec![PickingEvent::Clicked(EntityId(0))];
    assert!(print_events(&mut barnacles, &click).is_empty());
    assert_eq!(barnacles[0].barnacle.status, BarnacleStatus::Gone);
    let after_first = barnacles.clone();
    assert!(print_events(&mut barnacles, &click).is_empty());
    assert_eq!(barnacles, after_first);
}

#[test]
fn double_click_in_one_batch() {
    let mut barnacles = store(1);
    let events = vec![PickingEvent::Clicked(EntityId(0)), PickingEvent::Clicked(EntityId(0))];
    assert!(print_events(&mut barnacles, &events).is_empty());
    assert_eq!(statuses(&barnacles), vec![BarnacleStatus::Gone]);
}

#[test]
fn click_on_missing_barnacle_is_dropped() {
    let mut barnacles = store(2);
    let before = barnacles.clone();
    let errors = print_events(&mut barnacles, &vec![PickingEvent::Clicked(EntityId(2))]);
    assert_eq!(errors, vec![LifecycleError::StaleEntityReference(EntityId(2))]);
    assert_eq!(barnacles, before);
}

#[test]
fn batch_goes_on_after_a_stale_click() {
    let mut barnacles = store(3);
    let events = vec![
        PickingEvent::Clicked(EntityId(9)),
        PickingEvent::Clicked(EntityId(0)),
        PickingEvent::Clicked(EntityId(usize::MAX)),
        PickingEvent::Clicked(EntityId(2)),
    ];
    let errors = print_events(&mut barnacles, &events);
    assert_eq!(
        errors,
        vec![
            LifecycleError::StaleEntityReference(EntityId(9)),
            LifecycleError::StaleEntityReference(EntityId(usize::MAX)),
        ]
    );
    assert_eq!(
        statuses(&barnacles),
        vec![BarnacleStatus::Gone, BarnacleStatus::Attaching, BarnacleStatus::Gone]
    );
}

#[test]
fn selection_and_hover_change_nothing() {
    let mut barnacles = store(2);
    let before = barnacles.clone();
    let events = vec![
        PickingEvent::Selection(EntityId(0)),
        PickingEvent::Hover(EntityId(1)),
        PickingEvent::Hover(EntityId(5)),
        PickingEvent::Selection(EntityId(7)),
    ];
    assert!(print_events(&mut barnacles, &events).is_empty());
    assert_eq!(barnacles, before);
}

#[test]
fn empty_batch_on_empty_store() {
    let mut barnacles: Vec<BarnacleEntity> = Vec::new();
    assert!(print_events(&mut barnacles, &Vec::new()).is_empty());
    assert!(barnacles.is_empty());
}

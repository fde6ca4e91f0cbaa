use vstd::prelude::*;

use crate::barnacle::{BarnacleEntity, BarnacleStatus};
use crate::error::{EntityId, LifecycleError};

verus! {

/// A pointer interaction with one barnacle.
#[derive(Clone, Copy, Debug, PartialEq, Eq, Hash, Structural)]
pub enum PickingEvent {
    Selection(EntityId),
    Hover(EntityId),
    Clicked(EntityId),
}

/// The barnacles after one event: a click on a barnacle of the store makes
/// it `Gone`; anything else changes nothing.
pub open spec fn apply_event(barnacles: Seq<BarnacleEntity>, event: PickingEvent) -> Seq<
    BarnacleEntity,
> {
    match event {
        PickingEvent::Clicked(id) => if id.0 < barnacles.len() {
            barnacles.update(id.0 as int, barnacles[id.0 as int].gone())
        } else {
            barnacles
        },
        _ => barnacles,
    }
}

/// The barnacles after a batch of events, taken in order of arrival.
pub open spec fn apply_events(barnacles: Seq<BarnacleEntity>, events: Seq<PickingEvent>) -> Seq<
    BarnacleEntity,
>
    decreases events.len(),
{
    if events.len() == 0 {
        barnacles
    } else {
        apply_event(apply_events(barnacles, events.drop_last()), events.last())
    }
}

/// The clicks of a batch that name no barnacle of a store of `count`, in
/// order of arrival.
pub open spec fn stale_clicks(count: nat, events: Seq<PickingEvent>) -> Seq<LifecycleError>
    decreases events.len(),
{
    if events.len() == 0 {
        seq![]
    } else {
        let rest = stale_clicks(count, events.drop_last());
        match events.last() {
            PickingEvent::Clicked(id) => if id.0 >= count {
                rest.push(LifecycleError::StaleEntityReference(id))
            } else {
                rest
            },
            _ => rest,
        }
    }
}

/// Applies a batch of picking events to the barnacles, in order of arrival.
/// Selections and hovers change nothing; a click makes its barnacle `Gone`.
/// A click on a barnacle that is not in the store is dropped and reported,
/// and the rest of the batch is still applied.
pub fn print_events(barnacles: &mut Vec<BarnacleEntity>, events: &Vec<PickingEvent>) -> (r: Vec<
    LifecycleError,
>)
    ensures
        final(barnacles)@ == apply_events(old(barnacles)@, events@),
        r@ == stale_clicks(old(barnacles)@.len(), events@),
{
    let ghost start = barnacles@;
    let mut errors: Vec<LifecycleError> = Vec::new();
    let mut j: usize = 0;
    while j < events.len()
        invariant
            j <= events.len(),
            barnacles@.len() == start.len(),
            barnacles@ == apply_events(start, events@.take(j as int)),
            errors@ == stale_clicks(start.len(), events@.take(j as int)),
        decreases events.len() - j,
    {
        assert(events@.take(j + 1).drop_last() =~= events@.take(j as int));
        match events[j] {
            PickingEvent::Clicked(id) => {
                if id.0 < barnacles.len() {
                    let mut b = barnacles[id.0];
                    b.remove();
                    barnacles.set(id.0, b);
                } else {
                    errors.push(LifecycleError::StaleEntityReference(id));
                }
            },
            PickingEvent::Selection(_) => {},
            PickingEvent::Hover(_) => {},
        }
        j += 1;
    }
    assert(events@.take(j as int) =~= events@);
    errors
}

/// Events never add or remove barnacles.
pub proof fn events_keep_length(barnacles: Seq<BarnacleEntity>, events: Seq<PickingEvent>)
    ensures
        apply_events(barnacles, events).len() == barnacles.len(),
    decreases events.len(),
{
    if events.len() > 0 {
        events_keep_length(barnacles, events.drop_last());
    }
}

/// Applying two batches one after the other is applying the joined batch.
pub proof fn apply_events_append(
    barnacles: Seq<BarnacleEntity>,
    first: Seq<PickingEvent>,
    second: Seq<PickingEvent>,
)
    ensures
        apply_events(barnacles, first + second) == apply_events(
            apply_events(barnacles, first),
            second,
        ),
        stale_clicks(barnacles.len(), first + second) == stale_clicks(barnacles.len(), first)
            + stale_clicks(barnacles.len(), second),
    decreases second.len(),
{
    if second.len() == 0 {
        assert(first + second =~= first);
        assert(stale_clicks(barnacles.len(), first) + seq![] =~= stale_clicks(
            barnacles.len(),
            first,
        ));
    } else {
        apply_events_append(barnacles, first, second.drop_last());
        assert((first + second).drop_last() =~= first + second.drop_last());
        events_keep_length(barnacles, first);
        let s1 = stale_clicks(barnacles.len(), first);
        let s2 = stale_clicks(barnacles.len(), second.drop_last());
        match second.last() {
            PickingEvent::Clicked(id) => {
                if id.0 >= barnacles.len() {
                    assert(s1 + s2.push(LifecycleError::StaleEntityReference(id)) =~= (s1
                        + s2).push(LifecycleError::StaleEntityReference(id)));
                }
            },
            _ => {},
        }
    }
}

/// A click on a barnacle of the store leaves it `Gone` at the end of the
/// batch, whatever its status before and whatever else the batch holds.
pub proof fn clicked_barnacle_is_gone(
    barnacles: Seq<BarnacleEntity>,
    events: Seq<PickingEvent>,
    k: int,
)
    requires
        0 <= k < events.len(),
        events[k] matches PickingEvent::Clicked(id) && id.0 < barnacles.len(),
    ensures
        events[k] matches PickingEvent::Clicked(id) && apply_events(barnacles, events)[id.0 as int].status()
            == BarnacleStatus::Gone,
    decreases events.len(),
{
    events_keep_length(barnacles, events.drop_last());
    if k < events.len() - 1 {
        clicked_barnacle_is_gone(barnacles, events.drop_last(), k);
    }
}

/// A second click on the same barnacle changes nothing.
pub proof fn click_is_idempotent(barnacles: Seq<BarnacleEntity>, id: EntityId)
    ensures
        apply_event(apply_event(barnacles, PickingEvent::Clicked(id)), PickingEvent::Clicked(id))
            == apply_event(barnacles, PickingEvent::Clicked(id)),
{
    if id.0 < barnacles.len() {
        let once = apply_event(barnacles, PickingEvent::Clicked(id));
        assert(once[id.0 as int].gone() == once[id.0 as int]);
        assert(once.update(id.0 as int, once[id.0 as int].gone()) =~= once);
    }
}

/// A click that names no barnacle of the store changes no barnacle and is
/// reported in its place; the events around it are applied as if it were
/// not there.
pub proof fn stale_click_changes_nothing(
    barnacles: Seq<BarnacleEntity>,
    before: Seq<PickingEvent>,
    after: Seq<PickingEvent>,
    id: EntityId,
)
    requires
        id.0 >= barnacles.len(),
    ensures
        apply_events(barnacles, before.push(PickingEvent::Clicked(id)) + after) == apply_events(
            barnacles,
            before + after,
        ),
        stale_clicks(barnacles.len(), before.push(PickingEvent::Clicked(id)) + after)
            == stale_clicks(barnacles.len(), before).push(LifecycleError::StaleEntityReference(id))
            + stale_clicks(barnacles.len(), after),
{
    let with = before.push(PickingEvent::Clicked(id));
    apply_events_append(barnacles, with, after);
    apply_events_append(barnacles, before, after);
    events_keep_length(barnacles, before);
    assert(with.drop_last() =~= before);
}

} // verus!

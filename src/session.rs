use vstd::prelude::*;

use crate::barnacle::{BarnacleEntity, SpawnPosition};
use crate::count::{attached_count, attaching_spawn_keeps_count, barnacle_count, BarnacleCount};
use crate::error::{EntityId, LifecycleError};
use crate::events::{apply_event, apply_events, print_events, stale_clicks, PickingEvent};
use crate::spawn::{random_position, BarnacleSpawnTimer};
use crate::timer::Timer;

verus! {

/// A request, made by the spawner, to place a new barnacle.
#[derive(Clone, Copy, Debug, PartialEq, Eq, Structural)]
pub struct SpawnRequest {
    pub id: EntityId,
    pub position: SpawnPosition,
}

/// What one tick of a session gave back to its host.
#[derive(Debug)]
pub struct TickOutcome {
    /// The barnacle spawned in this tick, if the spawner fired.
    pub spawned: Option<SpawnRequest>,
    /// The clicks of this tick that named no barnacle, in order.
    pub errors: Vec<LifecycleError>,
}

/// One game: its clock, its spawner, its barnacles and their count.
pub struct GameSession {
    /// Time since the session began.
    pub elapsed: u64,
    /// Ticks since the session began.
    pub frames: u64,
    pub spawn_timer: BarnacleSpawnTimer,
    /// The store of barnacles; a barnacle's id is its index.
    pub barnacles: Vec<BarnacleEntity>,
    pub count: BarnacleCount,
}

/// Every barnacle after the timer step of a tick of `delta`.
pub open spec fn advance_all(barnacles: Seq<BarnacleEntity>, delta: u64) -> Seq<BarnacleEntity> {
    barnacles.map_values(|b: BarnacleEntity| b.advanced(delta))
}

/// The store after the spawn step: the spawned barnacle, if any, is added
/// fresh at the end.
pub open spec fn with_spawn(barnacles: Seq<BarnacleEntity>, spawned: Option<SpawnRequest>) -> Seq<
    BarnacleEntity,
> {
    match spawned {
        Some(req) => barnacles.push(BarnacleEntity::spawned(req.id, req.position)),
        None => barnacles,
    }
}

/// The spawn step of a tick leaves the number of attached barnacles as it
/// was: a spawned barnacle is still attaching.
pub proof fn spawn_keeps_count(barnacles: Seq<BarnacleEntity>, spawned: Option<SpawnRequest>)
    ensures
        attached_count(with_spawn(barnacles, spawned)) == attached_count(barnacles),
{
    if let Some(req) = spawned {
        attaching_spawn_keeps_count(barnacles, BarnacleEntity::spawned(req.id, req.position));
    }
}

/// A barnacle of a session that has run `elapsed` nanoseconds in `frames`
/// ticks, standing at index `i`.
pub open spec fn fits(b: BarnacleEntity, i: int, elapsed: u64, frames: u64) -> bool {
    &&& b.wf()
    &&& b.id.0 == i
    &&& b.attaching_timer.0.elapsed <= elapsed
    &&& b.attached_timer.0.elapsed <= elapsed
    &&& b.attaching_timer.0.times_finished <= frames
    &&& b.attached_timer.0.times_finished <= frames
}

/// A tick keeps a barnacle within the clock and the tick count that it
/// advances.
proof fn advanced_fits(b: BarnacleEntity, i: int, elapsed: u64, frames: u64, delta: u64)
    requires
        fits(b, i, elapsed, frames),
        elapsed + delta <= u64::MAX,
        frames < u64::MAX,
    ensures
        fits(b.advanced(delta), i, (elapsed + delta) as u64, (frames + 1) as u64),
{
}

/// Events change nothing of a barnacle but, perhaps, force it to `Gone`.
proof fn events_only_remove(barnacles: Seq<BarnacleEntity>, events: Seq<PickingEvent>)
    ensures
        apply_events(barnacles, events).len() == barnacles.len(),
        forall|i: int|
            0 <= i < barnacles.len() ==> #[trigger] apply_events(barnacles, events)[i]
                == barnacles[i] || apply_events(barnacles, events)[i] == barnacles[i].gone(),
    decreases events.len(),
{
    if events.len() > 0 {
        events_only_remove(barnacles, events.drop_last());
        let before = apply_events(barnacles, events.drop_last());
        assert forall|i: int| 0 <= i < barnacles.len() implies #[trigger] apply_event(
            before,
            events.last(),
        )[i] == barnacles[i] || apply_event(before, events.last())[i] == barnacles[i].gone() by {
            assert(before[i] == barnacles[i] || before[i] == barnacles[i].gone());
            assert(barnacles[i].gone().gone() == barnacles[i].gone());
        }
    }
}

impl GameSession {
    /// The clock bounds every timer, so that no timer can overflow while the
    /// clock does not; the count is that of the store.
    pub open spec fn wf(self) -> bool {
        &&& self.spawn_timer.wf()
        &&& self.spawn_timer.0.elapsed <= self.elapsed
        &&& self.spawn_timer.0.times_finished <= self.frames
        &&& forall|i: int|
            0 <= i < self.barnacles@.len() ==> fits(
                #[trigger] self.barnacles@[i],
                i,
                self.elapsed,
                self.frames,
            )
        &&& self.count.count == attached_count(self.barnacles@)
    }

    /// A session with no barnacle, whose spawner fires every
    /// `spawn_interval` nanoseconds; a zero interval is refused.
    pub fn new(spawn_interval: u64) -> (r: Result<GameSession, LifecycleError>)
        ensures
            spawn_interval == 0 <==> r is Err,
            r matches Err(e) ==> e == LifecycleError::InvalidDuration,
            r matches Ok(s) ==> {
                &&& s.wf()
                &&& s.elapsed == 0
                &&& s.frames == 0
                &&& s.spawn_timer.0 == Timer::initial(spawn_interval, true)
                &&& s.barnacles@.len() == 0
                &&& s.count.count == 0
            },
    {
        match BarnacleSpawnTimer::new(spawn_interval) {
            Ok(spawn_timer) => Ok(
                GameSession {
                    elapsed: 0,
                    frames: 0,
                    spawn_timer,
                    barnacles: Vec::new(),
                    count: BarnacleCount { count: 0 },
                },
            ),
            Err(e) => Err(e),
        }
    }

    /// The number of attached barnacles at the end of the last tick.
    pub fn population(&self) -> (r: usize)
        requires
            self.wf(),
        ensures
            r == attached_count(self.barnacles@),
    {
        self.count.count
    }

    /// One tick of `delta` nanoseconds, in this order: every timer advances
    /// and every barnacle takes its timed transition; the spawner, if it
    /// fired, adds a barnacle at `position`; the events are applied in
    /// order; the attached barnacles are counted.
    pub fn tick_with(&mut self, delta: u64, position: SpawnPosition, events: &Vec<PickingEvent>) -> (r:
        TickOutcome)
        requires
            old(self).wf(),
            old(self).elapsed + delta <= u64::MAX,
            old(self).frames < u64::MAX,
        ensures
            final(self).wf(),
            final(self).elapsed == old(self).elapsed + delta,
            final(self).frames == old(self).frames + 1,
            final(self).spawn_timer.0 == old(self).spawn_timer.0.ticked(delta),
            r.spawned == (if old(self).spawn_timer.0.fires(delta) {
                Some(SpawnRequest { id: EntityId(old(self).barnacles@.len() as usize), position })
            } else {
                None
            }),
            final(self).barnacles@ == apply_events(
                with_spawn(advance_all(old(self).barnacles@, delta), r.spawned),
                events@,
            ),
            r.errors@ == stale_clicks(
                with_spawn(advance_all(old(self).barnacles@, delta), r.spawned).len(),
                events@,
            ),
            final(self).count.count == attached_count(final(self).barnacles@),
    {
        let ghost start = self.barnacles@;
        let ghost elapsed = self.elapsed;
        let ghost frames = self.frames;
        let fired = self.spawn_timer.tick(delta);
        let ghost spawn_timer = self.spawn_timer;
        let mut i: usize = 0;
        while i < self.barnacles.len()
            invariant
                i <= self.barnacles@.len(),
                self.barnacles@.len() == start.len(),
                self.elapsed == elapsed,
                self.frames == frames,
                self.spawn_timer == spawn_timer,
                elapsed + delta <= u64::MAX,
                frames < u64::MAX,
                forall|k: int| 0 <= k < start.len() ==> fits(#[trigger] start[k], k, elapsed, frames),
                forall|k: int| 0 <= k < i ==> #[trigger] self.barnacles@[k] == start[k].advanced(delta),
                forall|k: int| i <= k < start.len() ==> #[trigger] self.barnacles@[k] == start[k],
            decreases start.len() - i,
        {
            let mut b = self.barnacles[i];
            assert(fits(start[i as int], i as int, elapsed, frames));
            b.advance(delta);
            self.barnacles.set(i, b);
            i = i + 1;
        }
        assert(self.barnacles@ =~= advance_all(start, delta));
        let ghost advanced = self.barnacles@;
        assert forall|k: int| 0 <= k < advanced.len() implies fits(
            #[trigger] advanced[k],
            k,
            (elapsed + delta) as u64,
            (frames + 1) as u64,
        ) by {
            advanced_fits(start[k], k, elapsed, frames, delta);
        }
        let spawned = if fired {
            let id = EntityId(self.barnacles.len());
            self.barnacles.push(BarnacleEntity::new(id, position));
            Some(SpawnRequest { id, position })
        } else {
            None
        };
        let ghost grown = self.barnacles@;
        assert(grown == with_spawn(advanced, spawned));
        let errors = print_events(&mut self.barnacles, events);
        self.elapsed = self.elapsed + delta;
        self.frames = self.frames + 1;
        proof {
            events_only_remove(grown, events@);
            assert forall|k: int| 0 <= k < self.barnacles@.len() implies fits(
                #[trigger] self.barnacles@[k],
                k,
                self.elapsed,
                self.frames,
            ) by {
                assert(fits(grown[k], k, self.elapsed, self.frames));
            }
        }
        barnacle_count(&mut self.count, &self.barnacles);
        TickOutcome { spawned, errors }
    }

    /// One tick of `delta` nanoseconds, as `tick_with`, with the position of
    /// a spawned barnacle drawn uniformly from the unit cube.
    pub fn tick(&mut self, delta: u64, events: &Vec<PickingEvent>) -> (r: TickOutcome)
        requires
            old(self).wf(),
            old(self).elapsed + delta <= u64::MAX,
            old(self).frames < u64::MAX,
        ensures
            final(self).wf(),
            final(self).elapsed == old(self).elapsed + delta,
            final(self).frames == old(self).frames + 1,
            final(self).spawn_timer.0 == old(self).spawn_timer.0.ticked(delta),
            r.spawned is Some <==> old(self).spawn_timer.0.fires(delta),
            r.spawned matches Some(req) ==> req.id == EntityId(old(self).barnacles@.len() as usize),
            final(self).barnacles@ == apply_events(
                with_spawn(advance_all(old(self).barnacles@, delta), r.spawned),
                events@,
            ),
            r.errors@ == stale_clicks(
                with_spawn(advance_all(old(self).barnacles@, delta), r.spawned).len(),
                events@,
            ),
            final(self).count.count == attached_count(final(self).barnacles@),
    {
        let position = random_position();
        self.tick_with(delta, position, events)
    }
}

} // verus!

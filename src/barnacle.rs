use vstd::prelude::*;

use crate::error::EntityId;
use crate::timer::{one_shot_timer_fires_once, repeating_timer_fires_on_multiples, total, Timer};
use vstd::arithmetic::div_mod::lemma_fundamental_div_mod_converse;

verus! {

/// Period of the cosmetic material cycle while a barnacle lives: 0.1 s.
pub const ATTACHING_PERIOD: u64 = 100_000_000;

/// Time a barnacle takes to attach: 5 s.
pub const ATTACHED_DURATION: u64 = 5_000_000_000;

/// Number of materials that the cosmetic cycle goes through.
pub const MATERIAL_COUNT: u64 = 3;

/// Where a barnacle stands in its life. `Gone` is final.
#[derive(Clone, Copy, Debug, PartialEq, Eq, Hash, Structural)]
pub enum BarnacleStatus {
    Attaching,
    Attached,
    Gone,
}

/// The status of one barnacle.
#[derive(Clone, Copy, Debug, PartialEq, Eq, Structural)]
pub struct Barnacle {
    pub status: BarnacleStatus,
}

impl Barnacle {
    /// A barnacle that has just been spawned.
    pub fn new() -> (r: Barnacle)
        ensures
            r.status == BarnacleStatus::Attaching,
    {
        Barnacle { status: BarnacleStatus::Attaching }
    }
}

/// The repeating timer that drives a barnacle's material cycle.
#[derive(Clone, Copy, Debug, PartialEq, Eq, Structural)]
pub struct BarnacleAttachingTimer(pub Timer);

/// The one-shot timer after which a barnacle is attached.
#[derive(Clone, Copy, Debug, PartialEq, Eq, Structural)]
pub struct BarnacleAttachedTimer(pub Timer);

/// A point of the unit cube `[0, 1)^3`: each coordinate is a fraction of
/// `2^32`, so `x` stands for `x / 2^32`.
#[derive(Clone, Copy, Debug, PartialEq, Eq, Hash, Structural)]
pub struct SpawnPosition {
    pub x: u32,
    pub y: u32,
    pub z: u32,
}

/// One barnacle of the scene with its timers, its place and its material.
#[derive(Clone, Copy, Debug, PartialEq, Eq, Structural)]
pub struct BarnacleEntity {
    pub id: EntityId,
    pub barnacle: Barnacle,
    pub attaching_timer: BarnacleAttachingTimer,
    pub attached_timer: BarnacleAttachedTimer,
    pub position: SpawnPosition,
    /// Which of the `MATERIAL_COUNT` materials the barnacle shows.
    pub material_index: u64,
}

impl BarnacleEntity {
    /// A barnacle as the spawner makes it.
    pub open spec fn spawned(id: EntityId, position: SpawnPosition) -> BarnacleEntity {
        BarnacleEntity {
            id,
            barnacle: Barnacle { status: BarnacleStatus::Attaching },
            attaching_timer: BarnacleAttachingTimer(Timer::initial(ATTACHING_PERIOD, true)),
            attached_timer: BarnacleAttachedTimer(Timer::initial(ATTACHED_DURATION, false)),
            position,
            material_index: 0,
        }
    }

    pub open spec fn status(self) -> BarnacleStatus {
        self.barnacle.status
    }

    /// The timers keep their configuration, and the material shown is the
    /// number of material-cycle firings modulo `MATERIAL_COUNT`.
    pub open spec fn wf(self) -> bool {
        let a = self.attaching_timer.0;
        let b = self.attached_timer.0;
        &&& a.wf()
        &&& a.repeating
        &&& a.duration == ATTACHING_PERIOD
        &&& b.wf()
        &&& !b.repeating
        &&& b.duration == ATTACHED_DURATION
        &&& self.material_index == a.times_finished % MATERIAL_COUNT
    }

    /// The barnacle after a tick of `delta`: a gone barnacle is left as it
    /// is; otherwise both timers advance, an attaching barnacle whose attach
    /// timer fired becomes attached, and a firing of the cycle timer selects
    /// the next material.
    pub open spec fn advanced(self, delta: u64) -> BarnacleEntity {
        if self.status() == BarnacleStatus::Gone {
            self
        } else {
            let a = self.attaching_timer.0.ticked(delta);
            let b = self.attached_timer.0.ticked(delta);
            BarnacleEntity {
                barnacle: Barnacle {
                    status: if self.status() == BarnacleStatus::Attaching && b.just_finished {
                        BarnacleStatus::Attached
                    } else {
                        self.status()
                    },
                },
                attaching_timer: BarnacleAttachingTimer(a),
                attached_timer: BarnacleAttachedTimer(b),
                material_index: if a.just_finished {
                    a.times_finished % MATERIAL_COUNT
                } else {
                    self.material_index
                },
                ..self
            }
        }
    }

    /// The barnacle after a tick of each delta of `deltas`, in order, with
    /// no click in between.
    pub open spec fn advanced_all(self, deltas: Seq<u64>) -> BarnacleEntity
        decreases deltas.len(),
    {
        if deltas.len() == 0 {
            self
        } else {
            self.advanced_all(deltas.drop_last()).advanced(deltas.last())
        }
    }

    /// The same barnacle, forced to `Gone`.
    pub open spec fn gone(self) -> BarnacleEntity {
        BarnacleEntity { barnacle: Barnacle { status: BarnacleStatus::Gone }, ..self }
    }

    /// Makes a barnacle at `position`, attaching, with fresh timers.
    pub fn new(id: EntityId, position: SpawnPosition) -> (r: BarnacleEntity)
        ensures
            r == BarnacleEntity::spawned(id, position),
            r.wf(),
    {
        let attaching = Timer {
            duration: ATTACHING_PERIOD,
            elapsed: 0,
            repeating: true,
            just_finished: false,
            times_finished: 0,
        };
        let attached = Timer {
            duration: ATTACHED_DURATION,
            elapsed: 0,
            repeating: false,
            just_finished: false,
            times_finished: 0,
        };
        BarnacleEntity {
            id,
            barnacle: Barnacle::new(),
            attaching_timer: BarnacleAttachingTimer(attaching),
            attached_timer: BarnacleAttachedTimer(attached),
            position,
            material_index: 0,
        }
    }

    /// Advances the barnacle by one tick of `delta` nanoseconds.
    pub fn advance(&mut self, delta: u64)
        requires
            old(self).wf(),
            old(self).attaching_timer.0.elapsed + delta <= u64::MAX,
            old(self).attached_timer.0.elapsed + delta <= u64::MAX,
            old(self).attaching_timer.0.times_finished < u64::MAX,
            old(self).attached_timer.0.times_finished < u64::MAX,
        ensures
            *final(self) == old(self).advanced(delta),
            final(self).wf(),
    {
        if self.barnacle.status == BarnacleStatus::Gone {
            return;
        }
        self.attaching_timer.0.tick(delta);
        self.attached_timer.0.tick(delta);
        if self.barnacle.status == BarnacleStatus::Attaching && self.attached_timer.0.just_finished {
            self.barnacle.status = BarnacleStatus::Attached;
        }
        if self.attaching_timer.0.just_finished {
            self.material_index = self.attaching_timer.0.times_finished % MATERIAL_COUNT;
        }
    }

    /// Forces the barnacle to `Gone`, whatever its status.
    pub fn remove(&mut self)
        ensures
            *final(self) == old(self).gone(),
    {
        self.barnacle.status = BarnacleStatus::Gone;
    }
}

/// A barnacle left alone runs its two timers from their start; it is
/// attached once its attach timer has fired, and shows the material that the
/// cycle timer's firings select.
proof fn untouched_run(id: EntityId, position: SpawnPosition, deltas: Seq<u64>)
    ensures
        ({
            let e = BarnacleEntity::spawned(id, position).advanced_all(deltas);
            &&& e.status() != BarnacleStatus::Gone
            &&& e.attaching_timer.0 == Timer::initial(ATTACHING_PERIOD, true).ticked_all(deltas)
            &&& e.attached_timer.0 == Timer::initial(ATTACHED_DURATION, false).ticked_all(deltas)
            &&& (e.status() == BarnacleStatus::Attached) == (e.attached_timer.0.times_finished > 0)
            &&& !e.attached_timer.0.repeating
            &&& e.attached_timer.0.times_finished <= 1
            &&& e.material_index == e.attaching_timer.0.times_finished % MATERIAL_COUNT
        }),
    decreases deltas.len(),
{
    if deltas.len() > 0 {
        untouched_run(id, position, deltas.drop_last());
    }
}

/// A barnacle that nobody clicks is attaching until the time run since its
/// spawn reaches `ATTACHED_DURATION`, and attached from then on.
pub proof fn barnacle_attaches_on_time(id: EntityId, position: SpawnPosition, deltas: Seq<u64>)
    requires
        total(deltas) <= u64::MAX,
    ensures
        BarnacleEntity::spawned(id, position).advanced_all(deltas).status() == if total(deltas)
            >= ATTACHED_DURATION {
            BarnacleStatus::Attached
        } else {
            BarnacleStatus::Attaching
        },
{
    untouched_run(id, position, deltas);
    one_shot_timer_fires_once(ATTACHED_DURATION, deltas);
}

/// Ticked once per material-cycle period, a barnacle that nobody clicks shows
/// material `k % MATERIAL_COUNT` after `k` ticks.
pub proof fn material_cycles_every_period(id: EntityId, position: SpawnPosition, deltas: Seq<u64>)
    requires
        deltas.len() <= u64::MAX,
        forall|i: int| 0 <= i < deltas.len() ==> deltas[i] == ATTACHING_PERIOD,
    ensures
        BarnacleEntity::spawned(id, position).advanced_all(deltas).material_index == (deltas.len() as int)
            % (MATERIAL_COUNT as int),
{
    let n = deltas.len() as int;
    untouched_run(id, position, deltas);
    repeating_timer_fires_on_multiples(ATTACHING_PERIOD, ATTACHING_PERIOD, deltas);
    assert(deltas.take(n) =~= deltas);
    lemma_fundamental_div_mod_converse(n * ATTACHING_PERIOD, ATTACHING_PERIOD as int, n, 0);
}

} // verus!

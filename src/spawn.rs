use vstd::prelude::*;

use crate::barnacle::SpawnPosition;
use crate::error::LifecycleError;
use crate::timer::Timer;

verus! {

/// The spawner's usual interval: one barnacle a second.
pub const SPAWN_INTERVAL: u64 = 1_000_000_000;

/// Relies on `rand::random`: a value drawn from the thread-local generator.
/// Nothing can be promised of a drawn value, so this states nothing of it.
pub assume_specification<T>[ rand::random::<T> ]() -> (r: T)
    where
        rand::distributions::Standard: rand::distributions::Distribution<T>,
;

/// The repeating timer that asks for a new barnacle each time it fires.
#[derive(Clone, Copy, Debug, PartialEq, Eq, Structural)]
pub struct BarnacleSpawnTimer(pub Timer);

impl BarnacleSpawnTimer {
    pub open spec fn wf(self) -> bool {
        self.0.wf() && self.0.repeating
    }

    /// A spawner that fires every `interval` nanoseconds; a zero interval is
    /// refused.
    pub fn new(interval: u64) -> (r: Result<BarnacleSpawnTimer, LifecycleError>)
        ensures
            interval == 0 ==> r == Err::<BarnacleSpawnTimer, LifecycleError>(
                LifecycleError::InvalidDuration,
            ),
            interval > 0 ==> r == Ok::<BarnacleSpawnTimer, LifecycleError>(
                BarnacleSpawnTimer(Timer::initial(interval, true)),
            ),
            r matches Ok(s) ==> s.wf(),
    {
        match Timer::new(interval, true) {
            Ok(t) => Ok(BarnacleSpawnTimer(t)),
            Err(e) => Err(e),
        }
    }

    /// Advances the spawner by `delta` nanoseconds and tells whether a
    /// barnacle is to be spawned.
    pub fn tick(&mut self, delta: u64) -> (fired: bool)
        requires
            old(self).wf(),
            old(self).0.elapsed + delta <= u64::MAX,
            old(self).0.times_finished < u64::MAX,
        ensures
            final(self).0 == old(self).0.ticked(delta),
            final(self).wf(),
            fired == old(self).0.fires(delta),
            fired == final(self).0.just_finished,
    {
        self.0.tick(delta);
        self.0.just_finished
    }
}

/// A point drawn uniformly from the unit cube, each coordinate on its own.
pub fn random_position() -> (r: SpawnPosition) {
    let x: u32 = rand::random::<u32>();
    let y: u32 = rand::random::<u32>();
    let z: u32 = rand::random::<u32>();
    SpawnPosition { x, y, z }
}

} // verus!

use vstd::prelude::*;

use crate::barnacle::{BarnacleEntity, BarnacleStatus};

verus! {

/// The number of attached barnacles, as the display shows it.
#[derive(Clone, Copy, Debug, PartialEq, Eq, Structural)]
pub struct BarnacleCount {
    pub count: usize,
}

/// The number of barnacles of `barnacles` that are attached.
pub open spec fn attached_count(barnacles: Seq<BarnacleEntity>) -> nat
    decreases barnacles.len(),
{
    if barnacles.len() == 0 {
        0
    } else {
        attached_count(barnacles.drop_last()) + if barnacles.last().status()
            == BarnacleStatus::Attached {
            1nat
        } else {
            0nat
        }
    }
}

/// No more barnacles are attached than there are barnacles.
pub proof fn attached_count_bound(barnacles: Seq<BarnacleEntity>)
    ensures
        attached_count(barnacles) <= barnacles.len(),
    decreases barnacles.len(),
{
    if barnacles.len() > 0 {
        attached_count_bound(barnacles.drop_last());
    }
}

/// Adding a barnacle that is still attaching leaves the count as it was.
pub proof fn attaching_spawn_keeps_count(barnacles: Seq<BarnacleEntity>, spawned: BarnacleEntity)
    requires
        spawned.status() == BarnacleStatus::Attaching,
    ensures
        attached_count(barnacles.push(spawned)) == attached_count(barnacles),
{
    assert(barnacles.push(spawned).drop_last() =~= barnacles);
}

/// Recounts the attached barnacles into `count`.
pub fn barnacle_count(count: &mut BarnacleCount, barnacles: &Vec<BarnacleEntity>)
    ensures
        final(count).count == attached_count(barnacles@),
{
    let mut n: usize = 0;
    let mut i: usize = 0;
    while i < barnacles.len()
        invariant
            i <= barnacles@.len(),
            n == attached_count(barnacles@.take(i as int)),
        decreases barnacles.len() - i,
    {
        assert(barnacles@.take(i + 1).drop_last() =~= barnacles@.take(i as int));
        proof {
            attached_count_bound(barnacles@.take(i as int));
        }
        if barnacles[i].barnacle.status == BarnacleStatus::Attached {
            n = n + 1;
        }
        i = i + 1;
    }
    assert(barnacles@.take(i as int) =~= barnacles@);
    count.count = n;
}

} // verus!

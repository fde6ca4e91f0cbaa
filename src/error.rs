use vstd::prelude::*;

verus! {

/// Names one barnacle: its index in the session's store of barnacles.
#[derive(Clone, Copy, Debug, PartialEq, Eq, Hash, Structural)]
pub struct EntityId(pub usize);

/// What can go wrong in the lifecycle.
#[derive(Clone, Copy, Debug, PartialEq, Eq, Hash, Structural)]
pub enum LifecycleError {
    /// A timer was configured with a duration of zero.
    InvalidDuration,
    /// A click named a barnacle that is not in the store; the click was dropped.
    StaleEntityReference(EntityId),
}

} // verus!

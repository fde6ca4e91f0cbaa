//! The barnacle lifecycle of a small whale scene: an edge-triggered timer, a
//! periodic spawner, a per-barnacle state machine, a click handler and the
//! population counter, driven one tick at a time by a game session.
//!
//! All time is measured in whole nanoseconds.

pub mod error;
pub mod timer;
pub mod barnacle;
pub mod events;
pub mod count;
pub mod spawn;
pub mod session;

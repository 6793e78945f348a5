//! Game-state and merge-resolution engine for a falling-fruit merge puzzle.
//!
//! The player drops fruit into a container; two colliding fruits of the same
//! tier merge into one fruit of the next tier and credit score; the round ends
//! when a fruit escapes the container sideways or rests above the maximum
//! height for longer than a grace period.
//!
//! All lengths are in tenths of a world unit, all velocities in tenths of a
//! unit per second, all times in milliseconds, so that the geometry is exact
//! integer arithmetic. Physics simulation, rendering and input polling are
//! collaborators outside this crate: they feed plain values (positions,
//! velocities, collision pairs, key states) into the round state and carry out
//! the spawn commands it records.

pub mod controls;
pub mod fruits;
pub mod geom;
mod rng;
pub mod round;
pub mod score;
pub mod state;
pub mod tiers;
pub mod timer;

use vstd::prelude::*;

verus! {

} // verus!

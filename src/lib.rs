//! Fixed-timestep physics and collision resolution for a 2D platformer: an
//! actor that runs, jumps and falls, obstacles that patrol between the walls,
//! axis-aligned overlap tests, collision-side classification, and resolution
//! with a grounded state that gates gravity and jumping.
//!
//! All quantities are integers. Lengths are in fixed-point units, `UNIT` of
//! them to one world unit; velocities are in length units per second,
//! gravity in length units per second squared, and the timestep in
//! microseconds. Distances covered in a tick are rounded down; the velocity
//! that gravity removes in a tick is rounded up, so that any positive pull
//! is felt.

use vstd::prelude::*;

pub mod components;
pub mod events;
pub mod geometry;
pub mod physics;
pub mod resources;
pub mod world;

verus! {

} // verus!

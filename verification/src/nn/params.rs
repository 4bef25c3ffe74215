//! Sizes and times that the trainer is built on.

use vstd::prelude::*;

verus! {

/// Range sensors on a car.
pub const SENSOR_COUNT: usize = 31;

/// Leading components of an observation: speed, velocity cosine, heading cosine.
pub const STATE_SIZE_BASE: usize = 3;

/// Components of an observation.
pub const STATE_SIZE: usize = STATE_SIZE_BASE + SENSOR_COUNT;

/// Discrete actions that the policy chooses among.
pub const ACTIONS: usize = 8;

/// The discount on the value of the next state, in fixed point.
pub const GAMMA: i64 = 990_000;

/// Microseconds between a crash and the respawn that it schedules.
pub const RESPAWN_DELAY: u64 = 500_000;

} // verus!

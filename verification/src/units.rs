//! Fixed-point units shared by the whole pipeline.
//!
//! Angles and angular rates are stored in micro-units: one radian (or one
//! radian per second) is `UNIT` steps.  Actuator commands are stored in the
//! same scale, so the full deflection range [-1, 1] is [-UNIT, UNIT].

use vstd::prelude::*;

verus! {

/// Fixed-point steps per unit (radian, radian/second, or full actuator
/// deflection).
pub const UNIT: u64 = 1_000_000;

/// Largest micro-radian count below pi; a uniformly drawn Euler angle lies
/// in [0, PI_MICRO).
pub const PI_MICRO: u64 = 3_141_592;

/// Upper bound of the sampled angular-velocity magnitude: 5.5 radians per
/// second, in micro-units.
pub const MAX_SPIN: u64 = 5_500_000;

/// Simulation ticks per second of the physics engine.
pub const TICK_RATE: u64 = 120;

/// Most ticks a scenario may run before it is abandoned as non-convergent:
/// 30 seconds of simulated time.
pub const STEP_CAP: u32 = 120 * 30;

/// Convergence threshold of the controller: 0.1 radians, in micro-radians.
pub const CONVERGENCE_MICRO: i64 = 100_000;

/// A three-component vector in micro-units.
#[derive(Clone, Copy, Debug, PartialEq, Eq, Structural)]
pub struct Vec3Micro {
    pub x: i64,
    pub y: i64,
    pub z: i64,
}

/// A pitch/yaw/roll triple in micro-radians.
#[derive(Clone, Copy, Debug, PartialEq, Eq, Structural)]
pub struct Angles {
    pub pitch: i64,
    pub yaw: i64,
    pub roll: i64,
}

/// Mathematical clamp of `v` into [lo, hi].
pub open spec fn clamp_i(v: int, lo: int, hi: int) -> int {
    if v < lo {
        lo
    } else if v > hi {
        hi
    } else {
        v
    }
}

/// Squared Euclidean magnitude of a vector given by its components.
pub open spec fn mag_sq(x: int, y: int, z: int) -> int {
    x * x + y * y + z * z
}

} // verus!

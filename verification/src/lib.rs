//! Verified core of a pipeline that generates labeled training data for a
//! vehicle attitude-recovery controller.
//!
//! The library owns the logic of the pipeline: sampling random scenarios,
//! the per-tick cubic proportional-derivative control law and its
//! convergence/termination policy, cross-thread round aggregation, and the
//! fixed-width binary record format with streaming compression.  All angles
//! and angular rates are carried as fixed-point integers in micro-units
//! (one unit = 1_000_000), so every rule is stated and proved exactly.
//!
//! The physics engine that integrates the vehicle's motion, the worker
//! threads, and the output files live outside this crate; they exchange
//! plain values with the functions here.

pub mod units;
pub mod controller;
pub mod sampler;
pub mod codec;
pub mod aggregator;
pub mod flush;

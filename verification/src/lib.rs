//! Deterministic per-tick simulation core of a small 2D game: movement from
//! key state, effect countdowns, the splash screen's fade sequence and the
//! cascade that spawns a level.
//!
//! All quantities are integers. Time is counted in nanoseconds, so that every
//! result is exact and every rule can be stated without rounding.

pub mod fade;
pub mod movement;
pub mod spawn;
pub mod splash;
pub mod timer;
pub mod world;

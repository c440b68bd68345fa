//! Per-tick physics and collision simulation for a small multi-agent 2D
//! platformer: gravity integration, vertical-velocity clamping, pairwise
//! agent collision response, platform collision, and screen-boundary
//! clamping with fractional overlap tolerances.
//!
//! Screen conventions: `x` grows rightward, `y` grows downward, and a
//! positive vertical velocity points upward (so vertical movement
//! subtracts the velocity from `y`).

pub mod entities;
pub mod geometry;
pub mod laws;
pub mod physics;

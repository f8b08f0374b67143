//! Core of a small 2D aquarium simulation: persistent primary entities
//! wander inside a rectangular domain under a stochastic steering policy,
//! short-lived ephemeral entities rise from them and are reaped once they
//! leave the domain, and every animated entity advances a cyclic sprite
//! frame on its own clock.
//!
//! All positions and velocities are fixed-point integers in milli-units
//! (1000 milli-units = 1 world unit), so the damping and restitution
//! factor of 9/10 is exact integer arithmetic.

pub mod anim;
pub mod boundary;
pub mod domain;
pub mod entity;
pub mod mobile;
pub mod reaper;
pub(crate) mod rng;
pub mod spawn;
pub mod steering;
pub mod tick;

use vstd::prelude::*;

verus! {

/// Largest magnitude a coordinate may take, in milli-units.
pub const COORD_LIMIT: i64 = 1_000_000_000;

/// Largest magnitude a velocity component may take, in milli-units per tick.
pub const VEL_LIMIT: i64 = 1_000_000_000;

} // verus!

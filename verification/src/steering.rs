//! The per-tick stochastic velocity model: a three-branch steering policy
//! for primary entities, and the upward-biased drift of ephemeral entities.
//!
//! A moving axis receives a random increment along its direction of motion
//! drawn from the positively biased range `[STEER_LO, STEER_HI)`, so motion
//! tends to persist; if the increment would carry the component across
//! zero, it stops at exactly zero. A stopped axis receives a small
//! symmetric nudge from `[-STEER_NUDGE, STEER_NUDGE]` and may start in
//! either direction. Components saturate at the velocity limit instead of
//! overflowing.

use crate::entity::{Ephemeral, Facing, Primary};
use crate::rng::rand_range_i64;
use vstd::prelude::*;

verus! {

/// Lower end of the increment range for a moving axis, milli-units.
pub const STEER_LO: i64 = -300;

/// Upper end (exclusive) of the increment range for a moving axis.
pub const STEER_HI: i64 = 500;

/// Magnitude of the symmetric nudge applied to a stopped axis.
pub const STEER_NUDGE: i64 = 200;

/// Magnitude of the lateral nudge applied to a drifting ephemeral entity.
pub const DRIFT_NUDGE: i64 = 50;

/// Upward bias added to an ephemeral entity's vertical velocity each tick.
pub const DRIFT_RISE: i64 = 100;

/// A velocity component saturated at the velocity limit.
pub open spec fn cap_vel(v: int) -> int {
    if v > crate::VEL_LIMIT {
        crate::VEL_LIMIT as int
    } else if v < -crate::VEL_LIMIT {
        -crate::VEL_LIMIT as int
    } else {
        v
    }
}

/// A coordinate saturated at the coordinate limit.
pub open spec fn sat_coord(c: int) -> int {
    if c > crate::COORD_LIMIT {
        crate::COORD_LIMIT as int
    } else if c < -crate::COORD_LIMIT {
        -crate::COORD_LIMIT as int
    } else {
        c
    }
}

/// The range the random steering draw `d` comes from, by branch: a small
/// symmetric nudge for a stopped axis, the positively biased increment
/// range for a moving one.
pub open spec fn steer_delta_ok(v: int, d: int) -> bool {
    if v == 0 {
        -STEER_NUDGE <= d <= STEER_NUDGE
    } else {
        STEER_LO <= d < STEER_HI
    }
}

/// The steering policy for one axis, given the random draw `d`. A positive
/// component gains `d`, a negative one loses `d` (the mirror image), and a
/// component that would cross zero stops at exactly zero. A stopped axis
/// simply takes the nudge. The result saturates at the velocity limit.
pub open spec fn steer_axis(v: int, d: int) -> int {
    if v > 0 {
        if v + d < 0 {
            0
        } else {
            cap_vel(v + d)
        }
    } else if v < 0 {
        if v - d > 0 {
            0
        } else {
            cap_vel(v - d)
        }
    } else {
        cap_vel(d)
    }
}

/// Saturates a velocity component at the velocity limit.
fn cap_vel_exec(v: i64) -> (r: i64)
    ensures
        r == cap_vel(v as int),
{
    if v > crate::VEL_LIMIT {
        crate::VEL_LIMIT
    } else if v < -crate::VEL_LIMIT {
        -crate::VEL_LIMIT
    } else {
        v
    }
}

/// Applies the steering policy to one axis.
fn steer_axis_exec(v: i64, d: i64) -> (r: i64)
    requires
        -crate::VEL_LIMIT <= v <= crate::VEL_LIMIT,
        -1000 <= d <= 1000,
    ensures
        r == steer_axis(v as int, d as int),
        -crate::VEL_LIMIT <= r <= crate::VEL_LIMIT,
{
    if v > 0 {
        if v + d < 0 {
            0
        } else {
            cap_vel_exec(v + d)
        }
    } else if v < 0 {
        if v - d > 0 {
            0
        } else {
            cap_vel_exec(v - d)
        }
    } else {
        cap_vel_exec(d)
    }
}

/// One steering step over a primary entity: each velocity axis takes an
/// independent random draw through the policy, and the facing is recomputed
/// from the sign of the horizontal component whenever that is nonzero.
pub fn step(e: &mut Primary)
    requires
        old(e).wf(),
    ensures
        final(e).wf(),
        final(e).id == old(e).id,
        final(e).px == old(e).px,
        final(e).py == old(e).py,
        final(e).sprite == old(e).sprite,
        final(e).anim == old(e).anim,
        exists|d: int|
            steer_delta_ok(old(e).vx as int, d) && final(e).vx == steer_axis(old(e).vx as int, d),
        exists|d: int|
            steer_delta_ok(old(e).vy as int, d) && final(e).vy == steer_axis(old(e).vy as int, d),
        final(e).vx > 0 ==> final(e).facing == Facing::Right,
        final(e).vx < 0 ==> final(e).facing == Facing::Left,
        final(e).vx == 0 ==> final(e).facing == old(e).facing,
{
    let dx: i64 = if e.vx == 0 {
        rand_range_i64(-STEER_NUDGE, STEER_NUDGE + 1)
    } else {
        rand_range_i64(STEER_LO, STEER_HI)
    };
    e.vx = steer_axis_exec(e.vx, dx);
    let dy: i64 = if e.vy == 0 {
        rand_range_i64(-STEER_NUDGE, STEER_NUDGE + 1)
    } else {
        rand_range_i64(STEER_LO, STEER_HI)
    };
    e.vy = steer_axis_exec(e.vy, dy);
    if e.vx > 0 {
        e.facing = Facing::Right;
    } else if e.vx < 0 {
        e.facing = Facing::Left;
    }
}

/// Saturates a coordinate at the coordinate limit.
fn sat_coord_exec(c: i64) -> (r: i64)
    ensures
        r == sat_coord(c as int),
{
    if c > crate::COORD_LIMIT {
        crate::COORD_LIMIT
    } else if c < -crate::COORD_LIMIT {
        -crate::COORD_LIMIT
    } else {
        c
    }
}

/// One drift step over an ephemeral entity: the position moves by the
/// current velocity (never clamped to the domain, so the entity can leave
/// it and be reaped), the horizontal velocity takes a small random lateral
/// nudge, and the vertical velocity gains the upward bias.
pub fn drift(e: &mut Ephemeral)
    requires
        old(e).wf(),
    ensures
        final(e).wf(),
        final(e).id == old(e).id,
        final(e).anim == old(e).anim,
        final(e).stage == old(e).stage,
        final(e).px == sat_coord(old(e).px + old(e).vx),
        final(e).py == sat_coord(old(e).py + old(e).vy),
        cap_vel(old(e).vx - DRIFT_NUDGE) <= final(e).vx <= cap_vel(old(e).vx + DRIFT_NUDGE),
        final(e).vy == cap_vel(old(e).vy + DRIFT_RISE),
{
    let d: i64 = rand_range_i64(-DRIFT_NUDGE, DRIFT_NUDGE + 1);
    e.px = sat_coord_exec(e.px + e.vx);
    e.py = sat_coord_exec(e.py + e.vy);
    e.vx = cap_vel_exec(e.vx + d);
    e.vy = cap_vel_exec(e.vy + DRIFT_RISE);
}

} // verus!

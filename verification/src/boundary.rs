//! Boundary reflection: moves an entity by its velocity, clamps the
//! position to the domain, and applies restitution (on a clamp) or damping
//! (strictly inside) to the velocity.
//!
//! Both the restitution and the damping factor are 9/10: a clamped axis has
//! its velocity reversed and scaled by 9/10, an unclamped axis keeps its
//! direction and is scaled by 9/10, so absent steering input speed decays
//! toward zero. The axis moves by the pre-damped velocity.

use crate::domain::Domain;
use crate::entity::Primary;
use vstd::arithmetic::div_mod::{lemma_fundamental_div_mod, lemma_mod_bound};
use vstd::prelude::*;

verus! {

/// Magnitude of an integer.
pub open spec fn magnitude(v: int) -> int {
    if v >= 0 {
        v
    } else {
        -v
    }
}

/// A velocity component scaled by the damping factor 9/10, rounded toward
/// zero so the magnitude never grows.
pub open spec fn damp(v: int) -> int {
    if v >= 0 {
        (v * 9) / 10
    } else {
        -(((-v) * 9) / 10)
    }
}

/// Law: damping and reflection lose speed. The damped magnitude is at most
/// 9/10 of the old one (stated multiplied out, `10 * |damp(v)| <= 9 * |v|`),
/// so in particular it never exceeds the old magnitude, and the sign of a
/// damped component is the sign of the old one or zero.
pub proof fn lemma_damp_bounds(v: int)
    ensures
        10 * magnitude(damp(v)) <= 9 * magnitude(v),
        magnitude(damp(v)) <= magnitude(v),
        v >= 0 ==> 0 <= damp(v) <= v,
        v < 0 ==> v <= damp(v) <= 0,
{
    let m = magnitude(v);
    lemma_fundamental_div_mod(m * 9, 10);
    lemma_mod_bound(m * 9, 10);
}

/// Law: whatever one boundary pass does to an axis — reflection off a wall
/// or plain damping inside — the velocity magnitude afterwards is at most
/// 9/10 of what it was (stated multiplied out).
pub proof fn lemma_pass_loses_speed(p: int, v: int, lo: int, hi: int)
    ensures
        10 * magnitude(bounce_vel(p, v, lo, hi)) <= 9 * magnitude(v),
{
    lemma_damp_bounds(v);
}

/// Where an axis lands after one boundary pass: the candidate `p + v`,
/// clamped to `[lo, hi]`.
pub open spec fn bounce_pos(p: int, v: int, lo: int, hi: int) -> int {
    let c = p + v;
    if c > hi {
        hi
    } else if c < lo {
        lo
    } else {
        c
    }
}

/// The axis velocity after one boundary pass: reversed restitution when the
/// candidate position left `[lo, hi]`, plain damping otherwise.
pub open spec fn bounce_vel(p: int, v: int, lo: int, hi: int) -> int {
    let c = p + v;
    if c > hi || c < lo {
        -damp(v)
    } else {
        damp(v)
    }
}

/// Scales a velocity component by the damping factor 9/10, toward zero.
fn damp_exec(v: i64) -> (r: i64)
    requires
        -crate::VEL_LIMIT <= v <= crate::VEL_LIMIT,
    ensures
        r == damp(v as int),
        -crate::VEL_LIMIT <= r <= crate::VEL_LIMIT,
{
    proof {
        lemma_damp_bounds(v as int);
    }
    if v >= 0 {
        (v * 9) / 10
    } else {
        -(((-v) * 9) / 10)
    }
}

/// One boundary pass over one axis: move by the pre-damped velocity, clamp
/// into `[lo, hi]`, and damp or reflect the velocity.
fn bounce_axis(p: i64, v: i64, lo: i64, hi: i64) -> (r: (i64, i64))
    requires
        -crate::COORD_LIMIT <= p <= crate::COORD_LIMIT,
        -crate::VEL_LIMIT <= v <= crate::VEL_LIMIT,
        -crate::COORD_LIMIT <= lo <= hi <= crate::COORD_LIMIT,
    ensures
        r.0 == bounce_pos(p as int, v as int, lo as int, hi as int),
        r.1 == bounce_vel(p as int, v as int, lo as int, hi as int),
        lo <= r.0 <= hi,
        -crate::VEL_LIMIT <= r.1 <= crate::VEL_LIMIT,
{
    let c: i64 = p + v;
    let dv = damp_exec(v);
    if c > hi {
        (hi, -dv)
    } else if c < lo {
        (lo, -dv)
    } else {
        (c, dv)
    }
}

/// One boundary-reflection pass over a primary entity. The x axis is
/// bounded by the side walls, the y axis by the effective floor and the
/// top; afterwards the position provably lies within the domain, whatever
/// it was before.
pub fn apply(e: &mut Primary, d: &Domain)
    requires
        old(e).wf(),
        d.wf(),
    ensures
        final(e).wf(),
        final(e).in_domain(*d),
        final(e).px == bounce_pos(old(e).px as int, old(e).vx as int, d.left as int, d.right as int),
        final(e).vx == bounce_vel(old(e).px as int, old(e).vx as int, d.left as int, d.right as int),
        final(e).py == bounce_pos(
            old(e).py as int,
            old(e).vy as int,
            d.floor_bottom as int,
            d.top as int,
        ),
        final(e).vy == bounce_vel(
            old(e).py as int,
            old(e).vy as int,
            d.floor_bottom as int,
            d.top as int,
        ),
        final(e).id == old(e).id,
        final(e).facing == old(e).facing,
        final(e).sprite == old(e).sprite,
        final(e).anim == old(e).anim,
{
    let (px, vx) = bounce_axis(e.px, e.vx, d.left, d.right);
    let (py, vy) = bounce_axis(e.py, e.vy, d.floor_bottom, d.top);
    e.px = px;
    e.vx = vx;
    e.py = py;
    e.vy = vy;
}

} // verus!

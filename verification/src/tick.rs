//! The per-frame passes the driver runs over the whole entity set: one
//! steering-plus-boundary pass over the primary entities and one
//! drift-plus-animation pass over the ephemeral ones. Spawning runs on its
//! own wall-clock channel (`spawn::fire`), and buffered creations and
//! removals are applied between ticks (`reaper::commit`).

use crate::anim::AnimState;
use crate::boundary;
use crate::domain::Domain;
use crate::entity::{Ephemeral, Primary};
use crate::steering;
use vstd::prelude::*;

verus! {

/// How one frame relates a primary entity to what it was: for each axis
/// some steering draw carried the velocity through the steering policy and
/// then through the boundary pass (which also moved the position and
/// confined it to the domain), the facing follows the sign of the steered
/// horizontal velocity, the animation clock took one tick, and identity
/// fields are untouched.
pub open spec fn primary_frame_rel(e0: Primary, e1: Primary, d: Domain, elapsed_ms: u64) -> bool {
    &&& e1.wf()
    &&& e1.in_domain(d)
    &&& e1.id == e0.id
    &&& e1.sprite == e0.sprite
    &&& e1.anim == match e0.anim {
        None => None::<AnimState>,
        Some(a) => Some(AnimState::spec_tick(a, elapsed_ms)),
    }
    &&& exists|dx: int|
        steering::steer_delta_ok(e0.vx as int, dx) && {
            let sv = steering::steer_axis(e0.vx as int, dx);
            &&& e1.px == boundary::bounce_pos(e0.px as int, sv, d.left as int, d.right as int)
            &&& e1.vx == boundary::bounce_vel(e0.px as int, sv, d.left as int, d.right as int)
            &&& (sv > 0 ==> e1.facing == crate::entity::Facing::Right)
            &&& (sv < 0 ==> e1.facing == crate::entity::Facing::Left)
            &&& (sv == 0 ==> e1.facing == e0.facing)
        }
    &&& exists|dy: int|
        steering::steer_delta_ok(e0.vy as int, dy) && {
            let sv = steering::steer_axis(e0.vy as int, dy);
            &&& e1.py == boundary::bounce_pos(
                e0.py as int,
                sv,
                d.floor_bottom as int,
                d.top as int,
            )
            &&& e1.vy == boundary::bounce_vel(
                e0.py as int,
                sv,
                d.floor_bottom as int,
                d.top as int,
            )
        }
}

/// One frame over the primary entities: steering, then boundary
/// reflection, then the animation clock of any entity that carries one.
/// Afterwards every primary entity provably lies within the domain,
/// whatever positions the tick started from.
pub fn tick_primaries(entities: &mut Vec<Primary>, d: &Domain, elapsed_ms: u64)
    requires
        d.wf(),
        forall|i: int|
            0 <= i < old(entities)@.len() ==> (#[trigger] old(entities)@[i]).wf(),
    ensures
        final(entities)@.len() == old(entities)@.len(),
        forall|i: int|
            0 <= i < old(entities)@.len() ==> primary_frame_rel(
                old(entities)@[i],
                #[trigger] final(entities)@[i],
                *d,
                elapsed_ms,
            ),
{
    let ghost s0 = entities@;
    let mut i: usize = 0;
    while i < entities.len()
        invariant
            d.wf(),
            i <= entities@.len(),
            entities@.len() == s0.len(),
            forall|j: int| 0 <= j < s0.len() ==> (#[trigger] s0[j]).wf(),
            forall|j: int| i <= j < s0.len() ==> entities@[j] == s0[j],
            forall|j: int|
                0 <= j < i ==> primary_frame_rel(s0[j], #[trigger] entities@[j], *d, elapsed_ms),
        decreases entities@.len() - i,
    {
        let ghost e0 = entities@[i as int];
        let mut e = entities[i];
        proof {
            assert(e0 == s0[i as int] && s0[i as int].wf());
        }
        steering::step(&mut e);
        boundary::apply(&mut e, d);
        match &mut e.anim {
            Some(a) => {
                a.tick(elapsed_ms);
            },
            None => {},
        }
        entities[i] = e;
        i = i + 1;
    }
}

/// One frame over the ephemeral entities: upward drift, then the animation
/// clock. Every entity takes the pass, alive or pending removal — an entity
/// the reaper has marked still drifts and animates until the commit at the
/// tick boundary destroys it.
pub fn tick_ephemerals(entities: &mut Vec<Ephemeral>, elapsed_ms: u64)
    requires
        forall|i: int|
            0 <= i < old(entities)@.len() ==> (#[trigger] old(entities)@[i]).wf(),
    ensures
        final(entities)@.len() == old(entities)@.len(),
        forall|i: int|
            0 <= i < old(entities)@.len() ==> {
                let e0 = old(entities)@[i];
                let e1 = #[trigger] final(entities)@[i];
                &&& e1.wf()
                &&& e1.id == e0.id
                &&& e1.stage == e0.stage
                &&& e1.px == steering::sat_coord(e0.px + e0.vx)
                &&& e1.py == steering::sat_coord(e0.py + e0.vy)
                &&& e1.vy == steering::cap_vel(e0.vy + steering::DRIFT_RISE)
                &&& steering::cap_vel(e0.vx - steering::DRIFT_NUDGE) <= e1.vx
                    <= steering::cap_vel(e0.vx + steering::DRIFT_NUDGE)
                &&& e1.anim == AnimState::spec_tick(e0.anim, elapsed_ms)
            },
{
    let ghost s0 = entities@;
    let mut i: usize = 0;
    while i < entities.len()
        invariant
            i <= entities@.len(),
            entities@.len() == s0.len(),
            forall|j: int| 0 <= j < s0.len() ==> (#[trigger] s0[j]).wf(),
            forall|j: int| i <= j < s0.len() ==> entities@[j] == s0[j],
            forall|j: int|
                0 <= j < i ==> {
                    let e0 = s0[j];
                    let e1 = #[trigger] entities@[j];
                    &&& e1.wf()
                    &&& e1.id == e0.id
                    &&& e1.stage == e0.stage
                    &&& e1.px == steering::sat_coord(e0.px + e0.vx)
                    &&& e1.py == steering::sat_coord(e0.py + e0.vy)
                    &&& e1.vy == steering::cap_vel(e0.vy + steering::DRIFT_RISE)
                    &&& steering::cap_vel(e0.vx - steering::DRIFT_NUDGE) <= e1.vx
                        <= steering::cap_vel(e0.vx + steering::DRIFT_NUDGE)
                    &&& e1.anim == AnimState::spec_tick(e0.anim, elapsed_ms)
                },
        decreases entities@.len() - i,
    {
        let mut e = entities[i];
        steering::drift(&mut e);
        e.anim.tick(elapsed_ms);
        entities[i] = e;
        i = i + 1;
    }
}

} // verus!

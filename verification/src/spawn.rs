//! Spawning: the initial population of primary entities, and the periodic
//! scheduler that anchors one fresh ephemeral entity to a randomly chosen
//! primary entity.

use crate::anim::AnimState;
use crate::domain::Domain;
use crate::entity::{Ephemeral, Facing, Lifecycle, Primary};
use crate::rng::{rand_index, rand_range_i64};
use vstd::prelude::*;

verus! {

/// Fewest primary entities a run starts with.
pub const MIN_PRIMARIES: i64 = 5;

/// Most primary entities a run starts with (exclusive).
pub const MAX_PRIMARIES: i64 = 20;

/// Magnitude bound of a primary entity's initial horizontal velocity.
pub const INIT_VEL_X: i64 = 50_000;

/// Magnitude bound of a primary entity's initial vertical velocity.
pub const INIT_VEL_Y: i64 = 25_000;

/// Initial upward velocity of a freshly spawned ephemeral entity.
pub const SPAWN_RISE: i64 = 2_000;

/// First sprite frame of an ephemeral entity's animation cycle. It is the
/// larger frame index of the two, so the cycle steps downward.
pub const EPHEMERAL_FIRST: u32 = 118;

/// Last sprite frame of an ephemeral entity's animation cycle.
pub const EPHEMERAL_LAST: u32 = 117;

/// Shortest animation period given to a spawned ephemeral entity, ms.
pub const PERIOD_LO: i64 = 1_000;

/// Longest animation period (exclusive) given to a spawned entity, ms.
pub const PERIOD_HI: i64 = 3_000;

/// The fixed atlas cell of the `i`-th primary entity, cycling through the
/// six available looks.
pub open spec fn spec_sprite_cell(i: int) -> int {
    let k = i % 6;
    if k == 0 {
        69
    } else if k == 1 {
        71
    } else if k == 2 {
        73
    } else if k == 3 {
        75
    } else if k == 4 {
        96
    } else {
        98
    }
}

/// Picks the atlas cell of the `i`-th primary entity.
pub fn sprite_cell(i: usize) -> (s: u32)
    ensures
        s == spec_sprite_cell(i as int),
{
    let k = i % 6;
    if k == 0 {
        69
    } else if k == 1 {
        71
    } else if k == 2 {
        73
    } else if k == 3 {
        75
    } else if k == 4 {
        96
    } else {
        98
    }
}

/// Draws how many primary entities a run starts with.
pub fn initial_count() -> (n: usize)
    ensures
        MIN_PRIMARIES <= n < MAX_PRIMARIES,
{
    let c = rand_range_i64(MIN_PRIMARIES, MAX_PRIMARIES);
    c as usize
}

/// Builds the `i`-th primary entity of a run: placed uniformly at random
/// inside the domain (above the effective floor), with a random initial
/// velocity, facing the way that velocity points.
pub fn initial_primary(i: usize, id: u64, d: &Domain) -> (p: Primary)
    requires
        d.wf(),
        d.floor_bottom < d.top,
    ensures
        p.wf(),
        p.in_domain(*d),
        p.id == id,
        p.sprite == spec_sprite_cell(i as int),
        d.left <= p.px < d.right,
        d.floor_bottom <= p.py < d.top,
        -INIT_VEL_X <= p.vx < INIT_VEL_X,
        -INIT_VEL_Y <= p.vy < INIT_VEL_Y,
        p.vx > 0 ==> p.facing == Facing::Right,
        p.vx < 0 ==> p.facing == Facing::Left,
        p.anim is None,
{
    let px = rand_range_i64(d.left, d.right);
    let py = rand_range_i64(d.floor_bottom, d.top);
    let vx = rand_range_i64(-INIT_VEL_X, INIT_VEL_X);
    let vy = rand_range_i64(-INIT_VEL_Y, INIT_VEL_Y);
    let facing = if vx < 0 {
        Facing::Left
    } else {
        Facing::Right
    };
    Primary { id, px, py, vx, vy, facing, sprite: sprite_cell(i), anim: None }
}

/// One firing of the spawn scheduler. With no primary entities this is a
/// no-op, not an error; otherwise one ephemeral entity is created at the
/// position of a uniformly chosen anchor, with a purely upward initial
/// velocity and a freshly randomized animation period. The new entity is
/// `Spawned`, a buffered creation: it joins the live set only when the
/// driver commits it at a tick boundary.
pub fn fire(primaries: &Vec<Primary>, next_id: u64) -> (r: Option<Ephemeral>)
    requires
        forall|i: int| 0 <= i < primaries@.len() ==> (#[trigger] primaries@[i]).wf(),
    ensures
        r is Some <==> primaries@.len() > 0,
        r matches Some(b) ==> {
            &&& b.wf()
            &&& exists|i: int|
                0 <= i < primaries@.len() && b.px == (#[trigger] primaries@[i]).px && b.py
                    == primaries@[i].py
            &&& b.id == next_id
            &&& b.vx == 0
            &&& b.vy == SPAWN_RISE
            &&& b.stage is Spawned
            &&& b.anim.first == EPHEMERAL_FIRST
            &&& b.anim.last == EPHEMERAL_LAST
            &&& b.anim.current == EPHEMERAL_FIRST
            &&& PERIOD_LO <= b.anim.period_ms < PERIOD_HI
            &&& b.anim.countdown_ms == b.anim.period_ms
        },
{
    if primaries.len() == 0 {
        return None;
    }
    let i = rand_index(primaries.len());
    let anchor = &primaries[i];
    let period = rand_range_i64(PERIOD_LO, PERIOD_HI);
    let anim = AnimState::new(EPHEMERAL_FIRST, EPHEMERAL_LAST, period as u64);
    let b = Ephemeral {
        id: next_id,
        px: anchor.px,
        py: anchor.py,
        vx: 0,
        vy: SPAWN_RISE,
        anim,
        stage: Lifecycle::Spawned,
    };
    Some(b)
}

} // verus!

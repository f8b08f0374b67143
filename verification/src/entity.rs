//! The two entity variants of the simulation: persistent primary entities
//! that wander the domain, and short-lived ephemeral entities that rise
//! out of it and are reaped.

use crate::anim::AnimState;
use crate::domain::Domain;
use vstd::prelude::*;

verus! {

/// Which way a primary entity's sprite is drawn, derived from the sign of
/// its horizontal velocity.
#[derive(Clone, Copy, Debug, PartialEq, Eq, Structural)]
pub enum Facing {
    Left,
    Right,
}

/// Lifecycle stage of an ephemeral entity. `Spawned` is a creation still
/// buffered and not yet committed at a tick boundary; `Despawned` is
/// terminal.
#[derive(Clone, Copy, Debug, PartialEq, Eq, Structural)]
pub enum Lifecycle {
    Spawned,
    Alive,
    Despawned,
}

/// A persistent wandering entity. Positions and velocities are in
/// milli-units; `sprite` is the fixed atlas cell its renderer uses.
#[derive(Clone, Copy, Debug, PartialEq, Eq, Structural)]
pub struct Primary {
    pub id: u64,
    pub px: i64,
    pub py: i64,
    pub vx: i64,
    pub vy: i64,
    pub facing: Facing,
    pub sprite: u32,
    pub anim: Option<AnimState>,
}

impl Primary {
    /// Well-formedness: coordinates and velocities within the fixed-point
    /// range, and any animation clock well formed.
    pub open spec fn wf(self) -> bool {
        &&& -crate::COORD_LIMIT <= self.px <= crate::COORD_LIMIT
        &&& -crate::COORD_LIMIT <= self.py <= crate::COORD_LIMIT
        &&& -crate::VEL_LIMIT <= self.vx <= crate::VEL_LIMIT
        &&& -crate::VEL_LIMIT <= self.vy <= crate::VEL_LIMIT
        &&& match self.anim {
            Some(a) => a.wf(),
            None => true,
        }
    }

    /// The position lies within the domain: `x` between the side walls and
    /// `y` between the effective floor and the top.
    pub open spec fn in_domain(self, d: Domain) -> bool {
        &&& d.left <= self.px <= d.right
        &&& d.floor_bottom <= self.py <= d.top
    }
}

/// A short-lived decorative entity, spawned anchored to a primary entity,
/// drifting upward until the reaper removes it.
#[derive(Clone, Copy, Debug, PartialEq, Eq, Structural)]
pub struct Ephemeral {
    pub id: u64,
    pub px: i64,
    pub py: i64,
    pub vx: i64,
    pub vy: i64,
    pub anim: AnimState,
    pub stage: Lifecycle,
}

impl Ephemeral {
    /// Well-formedness: coordinates and velocities within the fixed-point
    /// range, and the animation clock well formed.
    pub open spec fn wf(self) -> bool {
        &&& -crate::COORD_LIMIT <= self.px <= crate::COORD_LIMIT
        &&& -crate::COORD_LIMIT <= self.py <= crate::COORD_LIMIT
        &&& -crate::VEL_LIMIT <= self.vx <= crate::VEL_LIMIT
        &&& -crate::VEL_LIMIT <= self.vy <= crate::VEL_LIMIT
        &&& self.anim.wf()
    }
}

} // verus!

//! The rectangular region entities are confined to.

use vstd::prelude::*;

verus! {

/// Immutable per-run rectangle, in milli-units. `floor_bottom` is an
/// optional raised floor (for example a visual seafloor) used as the
/// effective lower y bound for entities; it always lies between `bottom`
/// and `top`.
#[derive(Clone, Copy, Debug)]
pub struct Domain {
    pub left: i64,
    pub right: i64,
    pub bottom: i64,
    pub top: i64,
    pub floor_bottom: i64,
}

impl Domain {
    /// Well-formedness: a non-empty rectangle with the floor between the
    /// true bottom and the top, and every bound within the coordinate range.
    pub open spec fn wf(self) -> bool {
        &&& self.left < self.right
        &&& self.bottom <= self.top
        &&& self.bottom <= self.floor_bottom <= self.top
        &&& -crate::COORD_LIMIT <= self.left
        &&& self.right <= crate::COORD_LIMIT
        &&& -crate::COORD_LIMIT <= self.bottom
        &&& self.top <= crate::COORD_LIMIT
    }

    /// Builds a domain whose effective floor is raised to half the true
    /// bottom elevation, the way a window half covered by a seafloor
    /// sprite leaves only the upper half to swim in.
    pub fn with_half_floor(left: i64, right: i64, bottom: i64, top: i64) -> (d: Domain)
        requires
            left < right,
            bottom <= 0 <= top,
            -crate::COORD_LIMIT <= left,
            right <= crate::COORD_LIMIT,
            -crate::COORD_LIMIT <= bottom,
            top <= crate::COORD_LIMIT,
        ensures
            d.wf(),
            d.left == left,
            d.right == right,
            d.bottom == bottom,
            d.top == top,
            d.floor_bottom == -((-(bottom as int)) / 2),
            bottom <= d.floor_bottom <= 0,
    {
        let fb: i64 = -((-bottom) / 2);
        Domain { left, right, bottom, top, floor_bottom: fb }
    }
}

} // verus!

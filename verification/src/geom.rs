//! Container geometry, fixed for a round: wall positions derived from the
//! container's width, height, thickness and inset, and the horizontal clamp
//! applied to the player-controlled fruit.

use vstd::prelude::*;

verus! {

/// Interior width of the container, tenths of a unit.
pub const CONTAINER_W: i32 = 4060;

/// Interior height of the container, tenths of a unit.
pub const CONTAINER_H: i32 = 5000;

/// Thickness of the container walls and base, tenths of a unit.
pub const CONTAINER_T: i32 = 120;

/// Vertical inset of the container below the screen centre, tenths of a unit.
pub const CONTAINER_P: i32 = 250;

/// Horizontal distance the active fruit moves per tick, tenths of a unit.
pub const MOVE_SPEED: i32 = 28;

/// Derived coordinates of the container, immutable per round.
#[derive(Clone, Copy, Debug, PartialEq, Eq, Structural)]
pub struct Positions {
    pub cup_base_y: i32,
    pub cup_max_y: i32,
    pub cup_left_x: i32,
    pub cup_right_x: i32,
}

impl Positions {
    /// The geometry is symmetric about the vertical axis and the maximum
    /// height line sits strictly above the base.
    pub open spec fn wf(self) -> bool {
        &&& self.cup_right_x > 0
        &&& self.cup_left_x == -self.cup_right_x
        &&& self.cup_base_y < self.cup_max_y
    }

    /// The container coordinates derived from the sizing constants.
    pub open spec fn spec_standard() -> Positions {
        Positions { cup_base_y: -2750i32, cup_max_y: 2250i32, cup_left_x: -2030i32, cup_right_x: 2030i32 }
    }

    /// Derives the container coordinates from the sizing constants.
    pub fn standard() -> (p: Positions)
        ensures
            p.wf(),
            p == Positions::spec_standard(),
            p.cup_base_y == -(CONTAINER_H as int) / 2 - CONTAINER_P,
            p.cup_max_y == (CONTAINER_H as int) / 2 - CONTAINER_P,
            p.cup_left_x == -(CONTAINER_W as int) / 2,
            p.cup_right_x == (CONTAINER_W as int) / 2,
    {
        Positions {
            cup_base_y: -(CONTAINER_H / 2) - CONTAINER_P,
            cup_max_y: CONTAINER_H / 2 - CONTAINER_P,
            cup_left_x: -(CONTAINER_W / 2),
            cup_right_x: CONTAINER_W / 2,
        }
    }
}

/// Horizontal clamp bound for an active fruit of diameter `size`: its centre
/// may reach the wall minus its own radius.
pub open spec fn spec_move_limit(cup_right_x: int, size: int) -> int {
    cup_right_x - size / 2
}

/// `x` clamped to the closed interval `[-limit, limit]`.
pub open spec fn spec_clamp(x: int, limit: int) -> int {
    if x > limit {
        limit
    } else if x < -limit {
        -limit
    } else {
        x
    }
}

/// Computes the clamp bound for a fruit of diameter `size` in this geometry.
pub fn move_limit(p: &Positions, size: i32) -> (limit: i32)
    requires
        p.wf(),
        0 <= size,
        size / 2 <= p.cup_right_x,
    ensures
        limit == spec_move_limit(p.cup_right_x as int, size as int),
        0 <= limit <= p.cup_right_x,
{
    p.cup_right_x - size / 2
}

/// Hard clamp of a candidate x position to the walls: positions beyond a
/// boundary are pinned exactly at that boundary, never reflected.
pub fn clamp_x(x: i32, limit: i32) -> (r: i32)
    requires
        limit >= 0,
    ensures
        r == spec_clamp(x as int, limit as int),
        -limit <= r <= limit,
{
    if x > limit {
        limit
    } else if x < -limit {
        -limit
    } else {
        x
    }
}

/// Clamp correctness: the result always lies within `[-limit, limit]`; a
/// candidate inside the interval is kept unchanged, and one beyond a boundary
/// is pinned exactly at that boundary.
pub proof fn lemma_clamp_correct(x: int, limit: int)
    requires
        limit >= 0,
    ensures
        -limit <= spec_clamp(x, limit) <= limit,
        -limit <= x <= limit ==> spec_clamp(x, limit) == x,
        x > limit ==> spec_clamp(x, limit) == limit,
        x < -limit ==> spec_clamp(x, limit) == -limit,
{
}

} // verus!

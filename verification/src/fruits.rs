//! The three fruit roles of a round: the player-controlled active fruit, the
//! previewed next fruit, and the physically simulated fruit bodies.

use vstd::prelude::*;

verus! {

/// Minimum speed magnitude below which a fruit counts as settled, tenths of
/// a unit per second.
pub const MIN_SPEED: i32 = 30;

/// The single player-controlled fruit, not yet physically simulated: it
/// moves horizontally under player control until dropped.
#[derive(Clone, Copy, Debug, PartialEq, Eq, Structural)]
pub struct ActiveFruit {
    pub tier: i32,
    pub x: i32,
}

/// The single previewed upcoming fruit: holds the tier the next active fruit
/// will take.
#[derive(Clone, Copy, Debug, PartialEq, Eq, Structural)]
pub struct NextFruit {
    pub tier: i32,
}

/// A fruit body simulated by the physics collaborator. The collaborator owns
/// the true positions and velocities; this record mirrors them, refreshed
/// once per tick. `angvel` is the initial angular velocity handed to the
/// collaborator, hundredths of a radian per second.
#[derive(Clone, Copy, Debug, PartialEq, Eq, Structural)]
pub struct PhysicalFruit {
    pub handle: u64,
    pub tier: i32,
    pub x: i32,
    pub y: i32,
    pub vx: i32,
    pub vy: i32,
    pub angvel: i32,
}

/// The fruit's speed magnitude is below the settling threshold:
/// `vx^2 + vy^2 < MIN_SPEED^2`.
pub open spec fn spec_below_min_speed(vx: int, vy: int) -> bool {
    vx * vx + vy * vy < MIN_SPEED * MIN_SPEED
}

/// Compares a velocity's squared magnitude against the settling threshold,
/// avoiding the square root.
pub fn below_min_speed(vx: i32, vy: i32) -> (r: bool)
    ensures
        r == spec_below_min_speed(vx as int, vy as int),
{
    let ax: u64 = if vx >= 0 {
        vx as u64
    } else {
        (-(vx as i64)) as u64
    };
    let ay: u64 = if vy >= 0 {
        vy as u64
    } else {
        (-(vy as i64)) as u64
    };
    proof {
        assert(ax * ax + ay * ay == (vx as int) * (vx as int) + (vy as int) * (vy as int) && ax
            * ax + ay * ay <= 0x8000_0000_0000_0000) by (nonlinear_arith)
            requires
                ax == (if vx >= 0 {
                    vx as int
                } else {
                    -(vx as int)
                }),
                ay == (if vy >= 0 {
                    vy as int
                } else {
                    -(vy as int)
                }),
                -0x8000_0000 <= vx as int <= 0x7fff_ffff,
                -0x8000_0000 <= vy as int <= 0x7fff_ffff,
        ;
    }
    proof {
        assert(MIN_SPEED * MIN_SPEED == 900);
    }
    ax * ax + ay * ay < 900
}

} // verus!

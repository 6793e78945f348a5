//! The fruit catalog: a fixed ordered table of fruit tiers.
//!
//! Tier `id` merges into tier `id + 1`; the highest tier never merges.
//! Diameters are strictly increasing with the tier rank.

use vstd::prelude::*;

verus! {

/// Number of tiers in the catalog.
pub const TIER_COUNT: i32 = 11;

/// The highest tier rank; fruit of this tier never merges further.
pub const MAX_TIER: i32 = 10;

/// One catalog entry: tier rank, diameter (tenths of a unit), score value.
#[derive(Clone, Copy, Debug, PartialEq, Eq, Structural)]
pub struct Fruit {
    pub id: i32,
    pub size: i32,
    pub score: i32,
}

impl Fruit {
    /// Builds a catalog entry from its three fields.
    pub fn new(id: i32, size: i32, score: i32) -> (f: Fruit)
        ensures
            f.id == id,
            f.size == size,
            f.score == score,
    {
        Fruit { id, size, score }
    }
}

/// Diameter of tier `id`, in tenths of a unit; 0 outside the catalog.
pub open spec fn spec_tier_size(id: int) -> int {
    if id == 0 {
        338
    } else if id == 1 {
        383
    } else if id == 2 {
        542
    } else if id == 3 {
        633
    } else if id == 4 {
        802
    } else if id == 5 {
        1027
    } else if id == 6 {
        1163
    } else if id == 7 {
        1378
    } else if id == 8 {
        1592
    } else if id == 9 {
        1976
    } else if id == 10 {
        2350
    } else {
        0
    }
}

/// Score credited when a merge produces tier `id`; 0 outside the catalog.
pub open spec fn spec_tier_score(id: int) -> int {
    if id == 0 {
        0
    } else if id == 1 {
        1
    } else if id == 2 {
        3
    } else if id == 3 {
        6
    } else if id == 4 {
        10
    } else if id == 5 {
        15
    } else if id == 6 {
        21
    } else if id == 7 {
        28
    } else if id == 8 {
        36
    } else if id == 9 {
        45
    } else {
        55
    }
}

/// Looks a tier up in the catalog.
pub fn fruit_of(id: i32) -> (f: Fruit)
    requires
        0 <= id < TIER_COUNT,
    ensures
        f.id == id,
        f.size == spec_tier_size(id as int),
        f.score == spec_tier_score(id as int),
{
    if id == 0 {
        Fruit::new(0, 338, 0)
    } else if id == 1 {
        Fruit::new(1, 383, 1)
    } else if id == 2 {
        Fruit::new(2, 542, 3)
    } else if id == 3 {
        Fruit::new(3, 633, 6)
    } else if id == 4 {
        Fruit::new(4, 802, 10)
    } else if id == 5 {
        Fruit::new(5, 1027, 15)
    } else if id == 6 {
        Fruit::new(6, 1163, 21)
    } else if id == 7 {
        Fruit::new(7, 1378, 28)
    } else if id == 8 {
        Fruit::new(8, 1592, 36)
    } else if id == 9 {
        Fruit::new(9, 1976, 45)
    } else {
        Fruit::new(10, 2350, 55)
    }
}

/// Catalog invariant: diameters are strictly increasing with the tier rank.
pub proof fn lemma_sizes_strictly_increasing(i: int, j: int)
    requires
        0 <= i < j < TIER_COUNT,
    ensures
        spec_tier_size(i) < spec_tier_size(j),
{
}

/// Score values never decrease with the tier rank, and every tier that a
/// merge can produce (rank 1 and up) is worth at least one point.
pub proof fn lemma_scores_monotone(i: int, j: int)
    requires
        0 <= i < j < TIER_COUNT,
    ensures
        spec_tier_score(i) <= spec_tier_score(j),
        spec_tier_score(j) >= 1,
{
}

} // verus!

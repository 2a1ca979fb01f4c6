//! Fixed-point grid coordinates.
//!
//! Positions and extents on the map are measured in units, a fixed fraction of
//! one tile, so that movement can be finer than a whole tile.

use vstd::prelude::*;

verus! {

/// How many units make up the side of one tile.
pub const UNITS_PER_TILE: i64 = 1000;

/// The tile index that a coordinate in units falls in: the coordinate rounded
/// down to whole tiles.
pub open spec fn tile_of(u: int) -> int {
    u / (UNITS_PER_TILE as int)
}

/// How far a coordinate in units lies past the start of its tile.
pub open spec fn offset_in_tile(u: int) -> int {
    u % (UNITS_PER_TILE as int)
}

/// Rounds a coordinate in units down to whole tiles.
pub fn floor_tile(u: i64) -> (r: i64)
    ensures
        r == tile_of(u as int),
{
    if u >= 0 {
        u / UNITS_PER_TILE
    } else {
        let below: i64 = -(u + 1);
        -(below / UNITS_PER_TILE) - 1
    }
}

} // verus!

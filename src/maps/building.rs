use super::building_type::BuildingType;
use crate::units::{floor_tile, offset_in_tile, tile_of, UNITS_PER_TILE};
use vstd::prelude::*;

verus! {

/// A building placed on a map: a rectangle in units whose corner is at
/// (`x`, `y`).
#[derive(Clone, Copy, Debug, PartialEq, Eq, Structural)]
pub struct Building {
    /// The kind of building.
    pub building_type: BuildingType,
    /// The horizontal position of its corner.
    pub x: i64,
    /// The vertical position of its corner.
    pub y: i64,
    /// Its horizontal extent.
    pub width: i64,
    /// Its vertical extent.
    pub height: i64,
}

impl Building {
    /// Whether the point (`px`, `py`) lies on this building, both rounded down
    /// to whole tiles: the columns from the corner's column to that column plus
    /// the width in whole tiles, both ends included, and likewise for the rows.
    /// A building of the `Default` kind covers nothing.
    pub open spec fn covers(self, px: int, py: int) -> bool {
        &&& self.building_type != BuildingType::Default
        &&& tile_of(self.x as int) <= tile_of(px) <= tile_of(self.x as int) + tile_of(
            self.width as int,
        )
        &&& tile_of(self.y as int) <= tile_of(py) <= tile_of(self.y as int) + tile_of(
            self.height as int,
        )
    }

    /// Creates a building of the given kind and rectangle.
    pub fn new(building_type: BuildingType, x: i64, y: i64, width: i64, height: i64) -> (b: Self)
        ensures
            b == (Building { building_type, x, y, width, height }),
    {
        Building { building_type, x, y, width, height }
    }

    /// Whether this building covers the point (`px`, `py`).
    pub fn covers_point(&self, px: i64, py: i64) -> (r: bool)
        ensures
            r == self.covers(px as int, py as int),
    {
        let col = floor_tile(px);
        let row = floor_tile(py);
        let left = floor_tile(self.x);
        let top = floor_tile(self.y);
        self.building_type != BuildingType::Default && left <= col && col <= left + floor_tile(
            self.width,
        ) && top <= row && row <= top + floor_tile(self.height)
    }
}

/// A building that is not of the `Default` kind covers every point of its
/// rectangle, the far edges included, where the fractional parts of its corner
/// and of its extent, in tiles, add up to less than one tile on each axis.
pub proof fn lemma_covers_rectangle(b: Building, px: int, py: int)
    requires
        b.building_type != BuildingType::Default,
        b.width >= 0,
        b.height >= 0,
        offset_in_tile(b.x as int) + offset_in_tile(b.width as int) < UNITS_PER_TILE,
        offset_in_tile(b.y as int) + offset_in_tile(b.height as int) < UNITS_PER_TILE,
        b.x <= px <= b.x + b.width,
        b.y <= py <= b.y + b.height,
    ensures
        b.covers(px, py),
{
    lemma_floor_sum(b.x as int, b.width as int);
    lemma_floor_sum(b.y as int, b.height as int);
    lemma_tile_of_monotonic(b.x as int, px);
    lemma_tile_of_monotonic(px, b.x + b.width);
    lemma_tile_of_monotonic(b.y as int, py);
    lemma_tile_of_monotonic(py, b.y + b.height);
}

proof fn lemma_floor_sum(a: int, w: int)
    requires
        offset_in_tile(a) + offset_in_tile(w) < UNITS_PER_TILE,
    ensures
        tile_of(a + w) == tile_of(a) + tile_of(w),
{
    let u = UNITS_PER_TILE as int;
    assert(a == u * (a / u) + a % u) by (nonlinear_arith)
        requires
            u == 1000,
    ;
    assert(w == u * (w / u) + w % u) by (nonlinear_arith)
        requires
            u == 1000,
    ;
    assert(a + w == u * (a / u + w / u) + (a % u + w % u));
    vstd::arithmetic::div_mod::lemma_fundamental_div_mod_converse(
        a + w,
        u,
        a / u + w / u,
        a % u + w % u,
    );
}

proof fn lemma_tile_of_monotonic(a: int, b: int)
    requires
        a <= b,
    ensures
        tile_of(a) <= tile_of(b),
{
    vstd::arithmetic::div_mod::lemma_div_is_ordered(a, b, UNITS_PER_TILE as int);
}

impl Default for Building {
    /// A building of the `Default` kind with an empty rectangle at the origin.
    fn default() -> (b: Self)
        ensures
            b == (Building { building_type: BuildingType::Default, x: 0, y: 0, width: 0, height: 0 }),
    {
        Building::new(BuildingType::Default, 0, 0, 0, 0)
    }
}

} // verus!

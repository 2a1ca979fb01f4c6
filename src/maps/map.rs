use super::building::Building;
use super::building_type::BuildingType;
use super::tile::{tile_glyph, Glyph, Tile};
use crate::units::{floor_tile, tile_of, UNITS_PER_TILE};
use vstd::prelude::*;

verus! {

/// How many columns of tiles a map has.
pub const MAP_WIDTH: usize = 255;

/// How many rows of tiles a map has.
pub const MAP_HEIGHT: usize = 255;

/// How many buildings a map can hold.
pub const MAX_MAP_BUILDINGS: usize = 50;

/// The abstract content of a [`GameMap`]: its tiles, column by column, and its
/// buildings in the order they were added.
pub ghost struct MapModel {
    pub tiles: Seq<Tile>,
    pub buildings: Seq<Building>,
}

/// The first building of `bs`, in order, that covers the point (`x`, `y`).
pub open spec fn first_covering(bs: Seq<Building>, x: int, y: int) -> Option<Building>
    decreases bs.len(),
{
    if bs.len() == 0 {
        None
    } else if bs[0].covers(x, y) {
        Some(bs[0])
    } else {
        first_covering(bs.drop_first(), x, y)
    }
}

impl MapModel {
    /// The model of a map that holds a full grid and no more buildings than
    /// it has room for.
    pub open spec fn wf(self) -> bool {
        &&& self.tiles.len() == MAP_WIDTH * MAP_HEIGHT
        &&& self.buildings.len() <= MAX_MAP_BUILDINGS
    }

    /// Where the tile of column `col` and row `row` stands in `tiles`.
    pub open spec fn cell(col: int, row: int) -> int {
        col * MAP_HEIGHT + row
    }

    /// The tile of column `col` and row `row`.
    pub open spec fn tile(self, col: int, row: int) -> Tile {
        self.tiles[Self::cell(col, row)]
    }

    /// Whether the point (`x`, `y`), in units, lies on the grid.
    pub open spec fn on_grid(x: int, y: int) -> bool {
        &&& 0 <= x < MAP_WIDTH * UNITS_PER_TILE
        &&& 0 <= y < MAP_HEIGHT * UNITS_PER_TILE
    }

    /// Whether a tile query answers at (`x`, `y`): both coordinates lie
    /// strictly above zero and below the grid's extent.
    pub open spec fn answers_at(x: int, y: int) -> bool {
        &&& 0 < x < MAP_WIDTH * UNITS_PER_TILE
        &&& 0 < y < MAP_HEIGHT * UNITS_PER_TILE
    }

    /// The answer of a tile query at (`x`, `y`), in units.
    pub open spec fn tile_query(self, x: int, y: int) -> Option<Tile> {
        if Self::answers_at(x, y) {
            Some(self.tile(tile_of(x), tile_of(y)))
        } else {
            None
        }
    }

    /// The map with `t` written at the tile that holds (`x`, `y`).
    pub open spec fn with_tile(self, t: Tile, x: int, y: int) -> MapModel {
        MapModel {
            tiles: self.tiles.update(Self::cell(tile_of(x), tile_of(y)), t),
            buildings: self.buildings,
        }
    }

    /// The building found at (`x`, `y`): the first that covers it.
    pub open spec fn building_at(self, x: int, y: int) -> Option<Building> {
        first_covering(self.buildings, x, y)
    }

    /// Whether one more building fits.
    pub open spec fn has_room(self) -> bool {
        self.buildings.len() < MAX_MAP_BUILDINGS
    }

    /// The map after an attempt to add `b`: `b` comes last where there is
    /// room, and nothing changes where there is none.
    pub open spec fn with_building(self, b: Building) -> MapModel {
        if self.has_room() {
            MapModel { tiles: self.tiles, buildings: self.buildings.push(b) }
        } else {
            self
        }
    }

    /// A fresh map: floor everywhere and no buildings.
    pub open spec fn empty() -> MapModel {
        MapModel {
            tiles: Seq::new((MAP_WIDTH * MAP_HEIGHT) as nat, |i: int| Tile::Floor),
            buildings: Seq::empty(),
        }
    }
}

/// The map after attempts to add each of `bs`, in order.
pub open spec fn after_adds(m: MapModel, bs: Seq<Building>) -> MapModel
    decreases bs.len(),
{
    if bs.len() == 0 {
        m
    } else {
        after_adds(m, bs.drop_last()).with_building(bs.last())
    }
}

/// A fresh map answers floor wherever a tile query answers at all, and
/// nothing elsewhere.
pub proof fn lemma_fresh_map_tiles(qx: int, qy: int)
    ensures
        MapModel::empty().tile_query(qx, qy) == if MapModel::answers_at(qx, qy) {
            Some(Tile::Floor)
        } else {
            None
        },
{
    if MapModel::answers_at(qx, qy) {
        let col = tile_of(qx);
        let row = tile_of(qy);
        assert(0 <= MapModel::cell(col, row) < MAP_WIDTH * MAP_HEIGHT);
    }
}

/// A tile query answers nothing where either coordinate is not strictly
/// between zero and the grid's extent. Elsewhere it reads back the tile last
/// written at the same tile, and a write at another tile does not change its
/// answer.
pub proof fn lemma_tile_write_read(m: MapModel, t: Tile, x: int, y: int, qx: int, qy: int)
    requires
        m.wf(),
        MapModel::on_grid(x, y),
    ensures
        !MapModel::answers_at(qx, qy) ==> m.with_tile(t, x, y).tile_query(qx, qy) is None,
        MapModel::answers_at(qx, qy) && tile_of(qx) == tile_of(x) && tile_of(qy) == tile_of(y)
            ==> m.with_tile(t, x, y).tile_query(qx, qy) == Some(t),
        MapModel::answers_at(qx, qy) && !(tile_of(qx) == tile_of(x) && tile_of(qy) == tile_of(y))
            ==> m.with_tile(t, x, y).tile_query(qx, qy) == m.tile_query(qx, qy),
{
    let c = MapModel::cell(tile_of(x), tile_of(y));
    assert(0 <= c < MAP_WIDTH * MAP_HEIGHT);
    if MapModel::answers_at(qx, qy) {
        let qc = MapModel::cell(tile_of(qx), tile_of(qy));
        assert(0 <= qc < MAP_WIDTH * MAP_HEIGHT);
        if !(tile_of(qx) == tile_of(x) && tile_of(qy) == tile_of(y)) {
            assert(qc != c);
        }
    }
}

/// Adding buildings one by one to a map without any keeps them all, in
/// order, as long as there are no more than it has room for.
pub proof fn lemma_adds_keep_all(m: MapModel, bs: Seq<Building>)
    requires
        m.buildings.len() == 0,
        bs.len() <= MAX_MAP_BUILDINGS,
    ensures
        after_adds(m, bs).buildings == bs,
        after_adds(m, bs).tiles == m.tiles,
    decreases bs.len(),
{
    if bs.len() > 0 {
        lemma_adds_keep_all(m, bs.drop_last());
        assert(bs.drop_last().push(bs.last()) =~= bs);
    }
}

/// On a map without buildings, adding succeeds exactly as many times in a
/// row as the map has room for; the next attempt fails and changes nothing.
pub proof fn lemma_add_building_capacity(m: MapModel, bs: Seq<Building>, extra: Building)
    requires
        m.buildings.len() == 0,
        bs.len() == MAX_MAP_BUILDINGS,
    ensures
        forall|i: int| 0 <= i < MAX_MAP_BUILDINGS ==> #[trigger] after_adds(m, bs.take(i)).has_room(),
        !after_adds(m, bs).has_room(),
        after_adds(m, bs).with_building(extra) == after_adds(m, bs),
{
    assert forall|i: int| 0 <= i < MAX_MAP_BUILDINGS implies #[trigger] after_adds(
        m,
        bs.take(i),
    ).has_room() by {
        lemma_adds_keep_all(m, bs.take(i));
    }
    lemma_adds_keep_all(m, bs);
}

/// The building found at a point is the first, in the order of adding, that
/// covers it.
pub proof fn lemma_building_at_first_cover(m: MapModel, i: int, px: int, py: int)
    requires
        0 <= i < m.buildings.len(),
        m.buildings[i].covers(px, py),
        forall|j: int| 0 <= j < i ==> !(#[trigger] m.buildings[j]).covers(px, py),
    ensures
        m.building_at(px, py) == Some(m.buildings[i]),
{
    lemma_first_covering_at(m.buildings, i, px, py);
}

proof fn lemma_first_covering_at(bs: Seq<Building>, i: int, px: int, py: int)
    requires
        0 <= i < bs.len(),
        bs[i].covers(px, py),
        forall|j: int| 0 <= j < i ==> !(#[trigger] bs[j]).covers(px, py),
    ensures
        first_covering(bs, px, py) == Some(bs[i]),
    decreases i,
{
    if i > 0 {
        let rest = bs.drop_first();
        assert forall|j: int| 0 <= j < i - 1 implies !(#[trigger] rest[j]).covers(px, py) by {
            assert(rest[j] == bs[j + 1]);
        }
        lemma_first_covering_at(rest, i - 1, px, py);
    }
}

/// A tile to draw: its column, its row and how it looks.
#[derive(Clone, Copy, Debug, PartialEq, Eq, Structural)]
pub struct TileDraw {
    pub col: usize,
    pub row: usize,
    pub glyph: Glyph,
}

/// The number of columns or rows drawn when `visible` fit on the screen and
/// the map has `extent`: no more than either.
pub open spec fn drawn_extent(visible: int, extent: int) -> int {
    if visible < extent {
        visible
    } else {
        extent
    }
}

/// Whether a building is drawn: every building but those of the `Default`
/// kind.
pub open spec fn is_drawn(b: Building) -> bool {
    b.building_type != BuildingType::Default
}

/// An area of the game: a fixed grid of tiles and a bounded list of
/// buildings.
pub struct GameMap {
    tiles: Vec<Tile>,
    buildings: Vec<Building>,
}

impl View for GameMap {
    type V = MapModel;

    closed spec fn view(&self) -> MapModel {
        MapModel { tiles: self.tiles@, buildings: self.buildings@ }
    }
}

impl GameMap {
    #[verifier::type_invariant]
    spec fn inv(self) -> bool {
        &&& self.tiles.len() == MAP_WIDTH * MAP_HEIGHT
        &&& self.buildings.len() <= MAX_MAP_BUILDINGS
    }

    /// Creates a map of floor tiles with no buildings.
    pub fn new() -> (m: Self)
        ensures
            m@ == MapModel::empty(),
    {
        let tiles = vec![Tile::Floor; MAP_WIDTH * MAP_HEIGHT];
        let m = GameMap { tiles, buildings: Vec::new() };
        assert(m@.tiles =~= MapModel::empty().tiles);
        m
    }

    /// Adds `building` after the others and returns true where there is room
    /// for it; returns false and leaves the map as it is where there is not.
    pub fn add_building(&mut self, building: Building) -> (added: bool)
        ensures
            added == old(self)@.has_room(),
            final(self)@ == old(self)@.with_building(building),
    {
        proof {
            use_type_invariant(&*self);
        }
        if self.buildings.len() < MAX_MAP_BUILDINGS {
            let mut buildings: Vec<Building> = Vec::new();
            std::mem::swap(&mut buildings, &mut self.buildings);
            buildings.push(building);
            self.buildings = buildings;
            true
        } else {
            false
        }
    }

    /// The first building, in the order they were added, that covers
    /// (`x`, `y`), or `None` where none does.
    pub fn get_building(&self, x: i64, y: i64) -> (found: Option<Building>)
        ensures
            found == self@.building_at(x as int, y as int),
    {
        let n = self.buildings.len();
        let mut i: usize = 0;
        assert(self.buildings@.subrange(0, n as int) =~= self.buildings@);
        while i < n
            invariant
                n == self.buildings@.len(),
                0 <= i <= n,
                self@.building_at(x as int, y as int) == first_covering(
                    self.buildings@.subrange(i as int, n as int),
                    x as int,
                    y as int,
                ),
            decreases n - i,
        {
            let b = self.buildings[i];
            assert(self.buildings@.subrange(i as int, n as int).drop_first()
                =~= self.buildings@.subrange(i + 1, n as int));
            if b.covers_point(x, y) {
                return Some(b);
            }
            i += 1;
        }
        None
    }

    /// Writes `tile` at the tile that holds (`x`, `y`).
    pub fn add_tile(&mut self, tile: Tile, x: i64, y: i64)
        requires
            MapModel::on_grid(x as int, y as int),
        ensures
            final(self)@ == old(self)@.with_tile(tile, x as int, y as int),
    {
        proof {
            use_type_invariant(&*self);
        }
        let col = floor_tile(x) as usize;
        let row = floor_tile(y) as usize;
        self.tiles[col * MAP_HEIGHT + row] = tile;
    }

    /// The tile at (`x`, `y`), in units, or `None` where either coordinate is
    /// not strictly between zero and the grid's extent.
    pub fn get_tile(&self, x: i64, y: i64) -> (found: Option<Tile>)
        ensures
            found == self@.tile_query(x as int, y as int),
    {
        proof {
            use_type_invariant(self);
        }
        let x_limit: i64 = MAP_WIDTH as i64 * UNITS_PER_TILE;
        let y_limit: i64 = MAP_HEIGHT as i64 * UNITS_PER_TILE;
        if 0 < x && x < x_limit && 0 < y && y < y_limit {
            let col = floor_tile(x) as usize;
            let row = floor_tile(y) as usize;
            Some(self.tiles[col * MAP_HEIGHT + row])
        } else {
            None
        }
    }

    /// The tiles to draw on a screen that shows `cols` columns and `rows`
    /// rows of tiles, column by column from the top left corner: the part of
    /// the grid that is on screen.
    pub fn tiles_to_draw(&self, cols: usize, rows: usize) -> (out: Vec<TileDraw>)
        ensures
            out@.len() == drawn_extent(cols as int, MAP_WIDTH as int) * drawn_extent(
                rows as int,
                MAP_HEIGHT as int,
            ),
            forall|c: int, r: int|
                0 <= c < drawn_extent(cols as int, MAP_WIDTH as int) && 0 <= r < drawn_extent(
                    rows as int,
                    MAP_HEIGHT as int,
                ) ==> #[trigger] out@[c * drawn_extent(rows as int, MAP_HEIGHT as int) + r] == (
                TileDraw { col: c as usize, row: r as usize, glyph: tile_glyph(self@.tile(c, r)) }),
    {
        proof {
            use_type_invariant(self);
        }
        let vc: usize = if cols < MAP_WIDTH {
            cols
        } else {
            MAP_WIDTH
        };
        let vr: usize = if rows < MAP_HEIGHT {
            rows
        } else {
            MAP_HEIGHT
        };
        let mut out: Vec<TileDraw> = Vec::new();
        let mut c: usize = 0;
        while c < vc
            invariant
                vc <= MAP_WIDTH,
                vr <= MAP_HEIGHT,
                vc == drawn_extent(cols as int, MAP_WIDTH as int),
                vr == drawn_extent(rows as int, MAP_HEIGHT as int),
                self.tiles@.len() == MAP_WIDTH * MAP_HEIGHT,
                0 <= c <= vc,
                out@.len() == c * vr,
                forall|c2: int, r2: int|
                    0 <= c2 < c && 0 <= r2 < vr ==> #[trigger] out@[c2 * vr + r2] == (TileDraw {
                        col: c2 as usize,
                        row: r2 as usize,
                        glyph: tile_glyph(self@.tile(c2, r2)),
                    }),
            decreases vc - c,
        {
            let mut r: usize = 0;
            while r < vr
                invariant
                    vc <= MAP_WIDTH,
                    vr <= MAP_HEIGHT,
                    self.tiles@.len() == MAP_WIDTH * MAP_HEIGHT,
                    0 <= c < vc,
                    0 <= r <= vr,
                    out@.len() == c * vr + r,
                    forall|c2: int, r2: int|
                        (0 <= c2 < c && 0 <= r2 < vr) || (c2 == c && 0 <= r2 < r)
                            ==> #[trigger] out@[c2 * vr + r2] == (TileDraw {
                            col: c2 as usize,
                            row: r2 as usize,
                            glyph: tile_glyph(self@.tile(c2, r2)),
                        }),
                decreases vr - r,
            {
                let tile = self.tiles[c * MAP_HEIGHT + r];
                let ghost before = out@;
                out.push(TileDraw { col: c, row: r, glyph: tile.glyph() });
                assert forall|c2: int, r2: int|
                    (0 <= c2 < c && 0 <= r2 < vr) || (c2 == c && 0 <= r2 < r + 1)
                        implies #[trigger] out@[c2 * vr + r2] == (TileDraw {
                        col: c2 as usize,
                        row: r2 as usize,
                        glyph: tile_glyph(self@.tile(c2, r2)),
                    }) by {
                    if c2 < c {
                        assert(c2 * vr + r2 < c * vr) by (nonlinear_arith)
                            requires
                                0 <= c2 < c,
                                0 <= r2 < vr,
                        ;
                        assert(out@[c2 * vr + r2] == before[c2 * vr + r2]);
                    } else if r2 < r {
                        assert(out@[c2 * vr + r2] == before[c2 * vr + r2]);
                    }
                }
                r += 1;
            }
            assert(c * vr + vr == (c + 1) * vr) by (nonlinear_arith);
            c += 1;
        }
        out
    }

    /// The buildings to draw, in the order they were added: all but those of
    /// the `Default` kind.
    pub fn buildings_to_draw(&self) -> (out: Vec<Building>)
        ensures
            out@ == self@.buildings.filter(|b: Building| is_drawn(b)),
    {
        let n = self.buildings.len();
        let mut out: Vec<Building> = Vec::new();
        let mut i: usize = 0;
        while i < n
            invariant
                n == self.buildings@.len(),
                0 <= i <= n,
                out@ == self.buildings@.take(i as int).filter(|b: Building| is_drawn(b)),
            decreases n - i,
        {
            let b = self.buildings[i];
            proof {
                assert(self.buildings@.take(i + 1).drop_last() =~= self.buildings@.take(i as int));
                reveal(Seq::filter);
            }
            if b.building_type != BuildingType::Default {
                out.push(b);
            }
            i += 1;
        }
        assert(self.buildings@.take(n as int) =~= self.buildings@);
        out
    }
}

impl Default for GameMap {
    /// A map of floor tiles with no buildings.
    fn default() -> (m: Self)
        ensures
            m@ == MapModel::empty(),
    {
        GameMap::new()
    }
}

} // verus!

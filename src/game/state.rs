use super::mode::{mode_response, next_mode, Mode};
use super::player::{travel, travel_distance, vertical_travel, vertical_travel_distance, Player};
use crate::events::event::Event;
use crate::events::input::InputEvent;
use crate::events::playing::{click_response, handle_playing_click};
use crate::maps::building::Building;
use crate::maps::building_type::BuildingType;
use crate::maps::map::{GameMap, MapModel, MAP_HEIGHT, MAP_WIDTH};
use crate::maps::tile::Tile;
use crate::units::{floor_tile, tile_of, UNITS_PER_TILE};
use vstd::prelude::*;

verus! {

/// Where the player starts, horizontally, in units.
pub const PLAYER_START_X: i64 = 10 * UNITS_PER_TILE;

/// Where the player starts, vertically, in units.
pub const PLAYER_START_Y: i64 = 10 * UNITS_PER_TILE;

/// Where the crafting bench stands, horizontally, in units.
pub const CRAFTING_BENCH_X: i64 = 20 * UNITS_PER_TILE;

/// Where the crafting bench stands, vertically, in units.
pub const CRAFTING_BENCH_Y: i64 = 20 * UNITS_PER_TILE;

/// The width of the crafting bench, in units.
pub const CRAFTING_BENCH_WIDTH: i64 = 3 * UNITS_PER_TILE;

/// The height of the crafting bench, in units.
pub const CRAFTING_BENCH_HEIGHT: i64 = 1 * UNITS_PER_TILE;

/// The crafting bench that every new game holds.
pub open spec fn starting_bench() -> Building {
    Building {
        building_type: BuildingType::CraftingBench,
        x: CRAFTING_BENCH_X,
        y: CRAFTING_BENCH_Y,
        width: CRAFTING_BENCH_WIDTH,
        height: CRAFTING_BENCH_HEIGHT,
    }
}

/// Whether the tile of column `col` and row `row` lies under the starting
/// bench, counting the bench's extent in whole tiles.
pub open spec fn under_starting_bench(col: int, row: int) -> bool {
    let left = tile_of(CRAFTING_BENCH_X as int);
    let top = tile_of(CRAFTING_BENCH_Y as int);
    &&& left <= col < left + tile_of(CRAFTING_BENCH_WIDTH as int)
    &&& top <= row < top + tile_of(CRAFTING_BENCH_HEIGHT as int)
}

/// The map of a new game: the starting bench alone, on wall tiles, with
/// floor everywhere else.
pub open spec fn is_starting_map(m: MapModel) -> bool {
    &&& m.tiles.len() == MAP_WIDTH * MAP_HEIGHT
    &&& m.buildings == seq![starting_bench()]
    &&& forall|col: int, row: int|
        0 <= col < MAP_WIDTH && 0 <= row < MAP_HEIGHT ==> #[trigger] m.tile(col, row) == if under_starting_bench(col, row) {
            Tile::Wall
        } else {
            Tile::Floor
        }
}

/// The player after `event` on map `m`, with `micros` microseconds in the
/// frame: a move event moves it as far as it walks in that time, upward and
/// downward steps being shorter; any other event leaves it as it is.
pub open spec fn step_player(p: Player, event: Event, m: MapModel, micros: int) -> Player {
    let d = travel(p.speed as int, micros);
    let v = vertical_travel(p.speed as int, micros);
    match event {
        Event::MovePlayerForward => p.after_move(d, 0, m),
        Event::MovePlayerBackward => p.after_move(-d, 0, m),
        Event::MovePlayerUp => p.after_move(0, -v, m),
        Event::MovePlayerDown => p.after_move(0, v, m),
        _ => p,
    }
}

/// All the state of the game.
pub struct GameState {
    pub mode: Mode,
    pub quit_game: bool,
    pub player: Player,
    pub map: GameMap,
}

impl GameState {
    /// What `input` comes to in the current mode, with a left click resolved
    /// against the map's buildings.
    pub open spec fn resolve(self, input: InputEvent) -> Event {
        match mode_response(self.mode, input) {
            Event::LeftClicked { x, y } => click_response(self.map@, x as int, y as int),
            e => e,
        }
    }

    /// The state of a new game: on the title screen, not quitting, the
    /// player at rest at its start and the starting map.
    pub open spec fn is_initial(self) -> bool {
        &&& self.mode == Mode::TitleScreen
        &&& !self.quit_game
        &&& self.player == Player::at_rest(PLAYER_START_X, PLAYER_START_Y)
        &&& is_starting_map(self.map@)
    }

    /// Creates a new game.
    pub fn new() -> (s: Self)
        ensures
            s.is_initial(),
    {
        let mut game_map = GameMap::new();
        let crafting_bench = Building::new(
            BuildingType::CraftingBench,
            CRAFTING_BENCH_X,
            CRAFTING_BENCH_Y,
            CRAFTING_BENCH_WIDTH,
            CRAFTING_BENCH_HEIGHT,
        );
        game_map.add_building(crafting_bench);
        assert(game_map@.buildings =~= seq![starting_bench()]);
        let cols = floor_tile(CRAFTING_BENCH_WIDTH);
        let rows = floor_tile(CRAFTING_BENCH_HEIGHT);
        let left = floor_tile(CRAFTING_BENCH_X);
        let top = floor_tile(CRAFTING_BENCH_Y);
        let mut c: i64 = 0;
        while c < cols
            invariant
                cols == tile_of(CRAFTING_BENCH_WIDTH as int),
                rows == tile_of(CRAFTING_BENCH_HEIGHT as int),
                left == tile_of(CRAFTING_BENCH_X as int),
                top == tile_of(CRAFTING_BENCH_Y as int),
                0 <= c <= cols,
                game_map@.tiles.len() == MAP_WIDTH * MAP_HEIGHT,
                game_map@.buildings == seq![starting_bench()],
                forall|col: int, row: int|
                    0 <= col < MAP_WIDTH && 0 <= row < MAP_HEIGHT ==> #[trigger] game_map@.tile(
                        col,
                        row,
                    ) == if left <= col < left + c && top <= row < top + rows {
                        Tile::Wall
                    } else {
                        Tile::Floor
                    },
            decreases cols - c,
        {
            let mut r: i64 = 0;
            while r < rows
                invariant
                    cols == tile_of(CRAFTING_BENCH_WIDTH as int),
                    rows == tile_of(CRAFTING_BENCH_HEIGHT as int),
                    left == tile_of(CRAFTING_BENCH_X as int),
                    top == tile_of(CRAFTING_BENCH_Y as int),
                    0 <= c < cols,
                    0 <= r <= rows,
                    game_map@.tiles.len() == MAP_WIDTH * MAP_HEIGHT,
                    game_map@.buildings == seq![starting_bench()],
                    forall|col: int, row: int|
                        0 <= col < MAP_WIDTH && 0 <= row < MAP_HEIGHT ==> #[trigger] game_map@.tile(
                            col,
                            row,
                        ) == if (left <= col < left + c && top <= row < top + rows) || (col
                            == left + c && top <= row < top + r) {
                            Tile::Wall
                        } else {
                            Tile::Floor
                        },
                decreases rows - r,
            {
                let x = CRAFTING_BENCH_X + c * UNITS_PER_TILE;
                let y = CRAFTING_BENCH_Y + r * UNITS_PER_TILE;
                assert(tile_of(x as int) == left + c);
                assert(tile_of(y as int) == top + r);
                let ghost before = game_map@;
                game_map.add_tile(Tile::Wall, x, y);
                assert forall|col: int, row: int|
                    0 <= col < MAP_WIDTH && 0 <= row < MAP_HEIGHT implies #[trigger] game_map@.tile(
                        col,
                        row,
                    ) == if (left <= col < left + c && top <= row < top + rows) || (col == left + c
                        && top <= row < top + r + 1) {
                        Tile::Wall
                    } else {
                        Tile::Floor
                    } by {
                    if col != left + c || row != top + r {
                        assert(MapModel::cell(col, row) != MapModel::cell(left + c, top + r));
                        assert(game_map@.tile(col, row) == before.tile(col, row));
                    }
                }
                r += 1;
            }
            c += 1;
        }
        GameState {
            mode: Mode::TitleScreen,
            quit_game: false,
            player: Player::new(PLAYER_START_X, PLAYER_START_Y),
            map: game_map,
        }
    }

    /// Runs once per frame: while playing, the player's walking state is
    /// brought up to date; nothing changes in the other modes.
    pub fn update(&mut self)
        ensures
            final(self).mode == old(self).mode,
            final(self).quit_game == old(self).quit_game,
            final(self).map == old(self).map,
            final(self).player == if old(self).mode == Mode::Playing {
                old(self).player.after_frame()
            } else {
                old(self).player
            },
    {
        if let Mode::Playing = self.mode {
            self.player.update();
        }
    }

    /// Handles one input with `frame_micros` microseconds in the current
    /// frame: the current mode reads it, and the event it comes to moves the
    /// player, changes the mode or sets the quit flag.
    pub fn handle_input(&mut self, input: InputEvent, frame_micros: u32)
        requires
            old(self).mode != Mode::Inventory,
        ensures
            final(self).mode == next_mode(old(self).mode, old(self).resolve(input)),
            final(self).quit_game == (old(self).quit_game || old(self).resolve(input)
                == Event::Quit),
            final(self).player == step_player(
                old(self).player,
                old(self).resolve(input),
                old(self).map@,
                frame_micros as int,
            ),
            final(self).map == old(self).map,
    {
        let event = match self.mode.handle_input(input) {
            Event::LeftClicked { x, y } => handle_playing_click(&self.map, x, y),
            other => other,
        };
        match event {
            Event::MovePlayerForward => {
                let d = travel_distance(self.player.speed, frame_micros);
                self.player.move_player((d, 0), &self.map);
            },
            Event::MovePlayerBackward => {
                let d = travel_distance(self.player.speed, frame_micros);
                self.player.move_player((-d, 0), &self.map);
            },
            Event::MovePlayerUp => {
                let v = vertical_travel_distance(self.player.speed, frame_micros);
                self.player.move_player((0, -v), &self.map);
            },
            Event::MovePlayerDown => {
                let v = vertical_travel_distance(self.player.speed, frame_micros);
                self.player.move_player((0, v), &self.map);
            },
            Event::Quit => {
                self.quit_game = true;
            },
            _ => {
                self.mode = self.mode.transition(event);
            },
        }
    }
}

impl Default for GameState {
    /// A new game.
    fn default() -> (s: Self)
        ensures
            s.is_initial(),
    {
        GameState::new()
    }
}

} // verus!

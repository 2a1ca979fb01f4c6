use rust_and_ruin::events::crafting::handle_crafting_input;
use rust_and_ruin::events::event::Event;
use rust_and_ruin::events::input::InputEvent;
use rust_and_ruin::events::mouse::MouseButton;
use rust_and_ruin::events::playing::{handle_playing_click, handle_playing_input, move_player};
use rust_and_ruin::events::title_screen::handle_title_screen_input;
use rust_and_ruin::game::mode::Mode;
use rust_and_ruin::game::player::{
    travel_distance, vertical_travel_distance, Facing, Player, BASE_MOVEMENT_SPEED,
};
use rust_and_ruin::game::state::GameState;
use rust_and_ruin::maps::building::Building;
use rust_and_ruin::maps::building_type::BuildingType;
use rust_and_ruin::maps::map::{GameMap, MAX_MAP_BUILDINGS};
use rust_and_ruin::maps::tile::Tile;
use rust_and_ruin::renderer::color::Color;
use rust_and_ruin::units::floor_tile;

fn bench_at(x: i64, y: i64, width: i64, height: i64) -> Building {
    Building::new(BuildingType::CraftingBench, x, y, width, height)
}

#[test]
fn title_to_playing() {
    let mut state = GameState::new();
    assert_eq!(state.mode, Mode::TitleScreen);
    state.handle_input(InputEvent::Interact, 16_000);
    assert_eq!(state.mode, Mode::Playing);
    assert!(!state.quit_game);
}

#[test]
fn crafting_quit_goes_back_to_playing() {
    let mut state = GameState::new();
    state.mode = Mode::Crafting;
    state.handle_input(InputEvent::Quit, 16_000);
    assert_eq!(state.mode, Mode::Playing);
    assert!(!state.quit_game);
}

#[test]
fn click_resolution() {
    let mut map = GameMap::new();
    assert!(map.add_building(bench_at(20_000, 20_000, 3_000, 1_000)));
    assert_eq!(handle_playing_click(&map, 20_400, 20_200), Event::Craft);
    assert_eq!(handle_playing_click(&map, 100_000, 100_000), Event::Nothing);
}

#[test]
fn movement_gate_blocks_wall() {
    let mut map = GameMap::new();
    map.add_tile(Tile::Wall, 6_000, 5_000);
    let mut player = Player::new(5_000, 5_000);
    let before = player;
    player.move_player((1_000, 0), &map);
    assert_eq!(player.x, 5_000);
    assert_eq!(player.y, 5_000);
    assert_eq!(player, before);
}

#[test]
fn level_step_probes_the_row_of_the_player() {
    let mut map = GameMap::new();
    map.add_tile(Tile::Wall, 6_000, 5_000);
    let mut player = Player::new(5_000, 5_500);
    player.move_player((1_000, 0), &map);
    assert_eq!((player.x, player.y), (5_000, 5_500));
    let mut below = Player::new(5_000, 6_000);
    below.move_player((1_000, 0), &map);
    assert_eq!((below.x, below.y), (6_000, 6_000));
}

#[test]
fn movement_on_floor_commits_whole_step() {
    let map = GameMap::new();
    let mut player = Player::new(5_000, 5_000);
    player.move_player((1_000, 0), &map);
    assert_eq!((player.x, player.y), (6_000, 5_000));
    assert_eq!(player.facing, Facing::Right);
    player.move_player((0, -250), &map);
    assert_eq!((player.x, player.y), (6_000, 4_750));
    assert_eq!(player.facing, Facing::Back);
}

#[test]
fn movement_off_the_map_is_refused() {
    let map = GameMap::new();
    let mut player = Player::new(100, 100);
    player.move_player((-200, 0), &map);
    assert_eq!((player.x, player.y), (100, 100));
    let mut far = Player::new(i64::MAX - 10, 5_000);
    far.move_player((100, 0), &map);
    assert_eq!(far.x, i64::MAX - 10);
}

#[test]
fn facing_prefers_upward_then_right_then_left() {
    let map = GameMap::new();
    let mut player = Player::new(5_000, 5_000);
    player.move_player((100, -100), &map);
    assert_eq!(player.facing, Facing::Back);
    player.move_player((100, -100), &map);
    assert_eq!(player.facing, Facing::Back);
    player.move_player((100, 0), &map);
    assert_eq!(player.facing, Facing::Right);
    player.move_player((-100, 0), &map);
    assert_eq!(player.facing, Facing::Left);
    player.move_player((0, 100), &map);
    assert_eq!(player.facing, Facing::Base);
    assert_eq!(player.facing.sprite_id(), "player_base");
    assert_eq!(Facing::Back.animation(), "player_walk_up");
}

#[test]
fn update_tracks_walking() {
    let map = GameMap::new();
    let mut player = Player::new(5_000, 5_000);
    player.update();
    assert!(!player.is_walking);
    player.move_player((10, 0), &map);
    player.update();
    assert!(player.is_walking);
    assert_eq!((player.last_x, player.last_y), (5_010, 5_000));
    player.update();
    assert!(!player.is_walking);
}

#[test]
fn new_player_defaults() {
    let player = Player::new(3, 4);
    assert_eq!(player.speed, BASE_MOVEMENT_SPEED);
    assert_eq!(player.facing, Facing::Base);
    assert_eq!(player.color, Color::White);
    assert_eq!((player.last_x, player.last_y), (3, 4));
    assert_eq!(Player::default(), Player::new(0, 0));
}

#[test]
fn get_tile_bounds_exclude_zero() {
    let map = GameMap::new();
    assert_eq!(map.get_tile(0, 5_000), None);
    assert_eq!(map.get_tile(5_000, 0), None);
    assert_eq!(map.get_tile(-1, 5_000), None);
    assert_eq!(map.get_tile(1, 1), Some(Tile::Floor));
    assert_eq!(map.get_tile(254_999, 254_999), Some(Tile::Floor));
    assert_eq!(map.get_tile(255_000, 5_000), None);
    assert_eq!(map.get_tile(5_000, 255_000), None);
}

#[test]
fn get_tile_reads_last_write() {
    let mut map = GameMap::new();
    map.add_tile(Tile::Wall, 6_000, 5_000);
    assert_eq!(map.get_tile(6_500, 5_999), Some(Tile::Wall));
    assert_eq!(map.get_tile(5_999, 5_500), Some(Tile::Floor));
    map.add_tile(Tile::Building, 6_999, 5_001);
    assert_eq!(map.get_tile(6_000, 5_000), Some(Tile::Building));
    map.add_tile(Tile::Wall, 0, 0);
    assert_eq!(map.get_tile(0, 0), None);
    assert_eq!(map.get_tile(1, 1), Some(Tile::Wall));
}

#[test]
fn add_building_fills_capacity_then_fails() {
    let mut map = GameMap::new();
    for i in 0..MAX_MAP_BUILDINGS as i64 {
        assert!(map.add_building(bench_at(i * 2_000, 0, 0, 0)));
    }
    assert!(!map.add_building(bench_at(200_000, 200_000, 0, 0)));
    assert_eq!(map.buildings_to_draw().len(), MAX_MAP_BUILDINGS);
    assert_eq!(map.get_building(200_000, 200_000), None);
}

#[test]
fn get_building_inclusive_far_edge() {
    let mut map = GameMap::new();
    map.add_building(bench_at(20_000, 20_000, 3_000, 1_000));
    let bench = Some(bench_at(20_000, 20_000, 3_000, 1_000));
    assert_eq!(map.get_building(23_000, 21_000), bench);
    assert_eq!(map.get_building(23_999, 21_999), bench);
    assert_eq!(map.get_building(20_000, 20_000), bench);
    assert_eq!(map.get_building(24_000, 20_000), None);
    assert_eq!(map.get_building(19_999, 20_000), None);
    assert_eq!(map.get_building(20_000, 22_000), None);
}

#[test]
fn get_building_returns_first_match() {
    let mut map = GameMap::new();
    let first = bench_at(1_000, 1_000, 2_000, 2_000);
    let second = bench_at(2_000, 2_000, 2_000, 2_000);
    map.add_building(first);
    map.add_building(second);
    assert_eq!(map.get_building(2_500, 2_500), Some(first));
    assert_eq!(map.get_building(4_500, 4_500), Some(second));
}

#[test]
fn default_buildings_are_never_found() {
    let mut map = GameMap::new();
    assert!(map.add_building(Building::default()));
    assert_eq!(map.get_building(0, 0), None);
    assert_eq!(handle_playing_click(&map, 0, 0), Event::Nothing);
    assert!(map.buildings_to_draw().is_empty());
    assert_eq!(
        Building::default(),
        Building::new(BuildingType::Default, 0, 0, 0, 0)
    );
}

#[test]
fn negative_coordinates_round_down() {
    assert_eq!(floor_tile(-1), -1);
    assert_eq!(floor_tile(-1_000), -1);
    assert_eq!(floor_tile(-1_001), -2);
    assert_eq!(floor_tile(1_999), 1);
    let mut map = GameMap::new();
    map.add_building(bench_at(-2_000, -2_000, 1_000, 1_000));
    assert!(map.get_building(-1, -1).is_some());
    assert!(map.get_building(-2_001, -1).is_none());
}

#[test]
fn mode_transition_table() {
    let modes = [Mode::TitleScreen, Mode::Playing, Mode::Inventory, Mode::Crafting];
    let events = [
        Event::Continue,
        Event::Quit,
        Event::MovePlayerForward,
        Event::MovePlayerBackward,
        Event::MovePlayerUp,
        Event::MovePlayerDown,
        Event::LeftClicked { x: 1, y: 2 },
        Event::RightClicked { x: 1, y: 2 },
        Event::Craft,
        Event::Back,
        Event::Nothing,
        Event::Unknown,
    ];
    for mode in modes {
        for event in events {
            let expected = match (mode, event) {
                (Mode::TitleScreen, Event::Continue) => Mode::Playing,
                (Mode::Playing, Event::Craft) => Mode::Crafting,
                (Mode::Crafting, Event::Back) => Mode::Playing,
                _ => mode,
            };
            assert_eq!(mode.transition(event), expected);
        }
    }
}

#[test]
fn title_screen_handler() {
    assert_eq!(handle_title_screen_input(InputEvent::Interact), Event::Continue);
    assert_eq!(handle_title_screen_input(InputEvent::Quit), Event::Quit);
    assert_eq!(handle_title_screen_input(InputEvent::Character('s')), Event::Nothing);
    assert_eq!(handle_title_screen_input(InputEvent::Up), Event::Nothing);
}

#[test]
fn playing_handler() {
    assert_eq!(handle_playing_input(InputEvent::Quit), Event::Quit);
    assert_eq!(handle_playing_input(InputEvent::Left), Event::MovePlayerBackward);
    assert_eq!(handle_playing_input(InputEvent::Right), Event::MovePlayerForward);
    assert_eq!(handle_playing_input(InputEvent::Up), Event::MovePlayerUp);
    assert_eq!(handle_playing_input(InputEvent::Down), Event::MovePlayerDown);
    let left = InputEvent::MouseClick { x: 3, y: 4, button: MouseButton::Left };
    assert_eq!(handle_playing_input(left), Event::LeftClicked { x: 3, y: 4 });
    let right = InputEvent::MouseClick { x: 3, y: 4, button: MouseButton::Right };
    assert_eq!(handle_playing_input(right), Event::RightClicked { x: 3, y: 4 });
    let middle = InputEvent::MouseClick { x: 3, y: 4, button: MouseButton::Middle };
    assert_eq!(handle_playing_input(middle), Event::Nothing);
    assert_eq!(handle_playing_input(InputEvent::Escape), Event::Nothing);
}

#[test]
fn crafting_handler() {
    assert_eq!(handle_crafting_input(InputEvent::Quit), Event::Back);
    assert_eq!(handle_crafting_input(InputEvent::Interact), Event::Nothing);
    assert_eq!(Mode::Crafting.handle_input(InputEvent::Quit), Event::Back);
    assert_eq!(Mode::TitleScreen.handle_input(InputEvent::Interact), Event::Continue);
}

#[test]
fn travel_distances() {
    assert_eq!(travel_distance(4_000, 16_667), 66);
    assert_eq!(vertical_travel_distance(4_000, 16_667), 50);
    assert_eq!(travel_distance(4_000, 1_000_000), 4_000);
    assert_eq!(vertical_travel_distance(4_000, 1_000_000), 3_000);
    assert_eq!(travel_distance(u32::MAX, u32::MAX), 18_446_744_065_119);
    assert_eq!(vertical_travel_distance(u32::MAX, u32::MAX), 13_835_058_048_839);
}

#[test]
fn new_game_layout() {
    let state = GameState::new();
    assert!(!state.quit_game);
    assert_eq!(state.player, Player::new(10_000, 10_000));
    for col in 20..23 {
        assert_eq!(state.map.get_tile(col * 1_000 + 500, 20_500), Some(Tile::Wall));
    }
    assert_eq!(state.map.get_tile(23_500, 20_500), Some(Tile::Floor));
    assert_eq!(state.map.get_tile(20_500, 21_500), Some(Tile::Floor));
    let bench = state.map.get_building(20_500, 20_500).unwrap();
    assert_eq!(bench.building_type, BuildingType::CraftingBench);
    assert_eq!(state.map.buildings_to_draw().len(), 1);
    assert_eq!(GameState::default().mode, Mode::TitleScreen);
}

#[test]
fn playing_moves_the_player() {
    let mut state = GameState::new();
    state.handle_input(InputEvent::Interact, 0);
    state.handle_input(InputEvent::Right, 250_000);
    assert_eq!((state.player.x, state.player.y), (11_000, 10_000));
    assert_eq!(state.player.facing, Facing::Right);
    state.update();
    assert!(state.player.is_walking);
    state.update();
    assert!(!state.player.is_walking);
    state.handle_input(InputEvent::Down, 250_000);
    assert_eq!((state.player.x, state.player.y), (11_000, 10_750));
    state.handle_input(InputEvent::Up, 250_000);
    assert_eq!((state.player.x, state.player.y), (11_000, 10_000));
    state.handle_input(InputEvent::Left, 250_000);
    assert_eq!((state.player.x, state.player.y), (10_000, 10_000));
    assert_eq!(state.player.facing, Facing::Left);
}

#[test]
fn playing_quit_sets_flag() {
    let mut state = GameState::new();
    state.handle_input(InputEvent::Interact, 0);
    state.handle_input(InputEvent::Quit, 0);
    assert!(state.quit_game);
    assert_eq!(state.mode, Mode::Playing);
}

#[test]
fn title_quit_sets_flag() {
    let mut state = GameState::new();
    state.handle_input(InputEvent::Quit, 0);
    assert!(state.quit_game);
    assert_eq!(state.mode, Mode::TitleScreen);
}

#[test]
fn clicking_the_bench_opens_crafting() {
    let mut state = GameState::new();
    state.handle_input(InputEvent::Interact, 0);
    let miss = InputEvent::MouseClick { x: 5_000, y: 5_000, button: MouseButton::Left };
    state.handle_input(miss, 0);
    assert_eq!(state.mode, Mode::Playing);
    let right = InputEvent::MouseClick { x: 20_400, y: 20_200, button: MouseButton::Right };
    state.handle_input(right, 0);
    assert_eq!(state.mode, Mode::Playing);
    let hit = InputEvent::MouseClick { x: 20_400, y: 20_200, button: MouseButton::Left };
    state.handle_input(hit, 0);
    assert_eq!(state.mode, Mode::Crafting);
    state.handle_input(InputEvent::Right, 250_000);
    assert_eq!(state.player.x, 10_000);
}

#[test]
fn update_outside_playing_changes_nothing() {
    let mut state = GameState::new();
    state.player.x = 12_000;
    state.update();
    assert!(!state.player.is_walking);
    assert_eq!(state.player.last_x, 10_000);
}

#[test]
fn walls_block_the_player_in_game() {
    let mut state = GameState::new();
    state.handle_input(InputEvent::Interact, 0);
    state.player = Player::new(18_000, 20_000);
    state.handle_input(InputEvent::Right, 250_000);
    assert_eq!(state.player.x, 19_000);
    state.handle_input(InputEvent::Right, 250_000);
    assert_eq!(state.player.x, 19_000);
}

#[test]
fn free_move_player_moves_right_on_floor() {
    let mut map = GameMap::new();
    let mut player = Player::new(5_000, 5_000);
    move_player(&mut player, &map, 500_000, (7_000, 5_000));
    assert_eq!(player.x, 7_000);
    map.add_tile(Tile::Wall, 7_000, 5_000);
    move_player(&mut player, &map, 500_000, (7_000, 5_000));
    assert_eq!(player.x, 7_000);
}

#[test]
fn tiles_to_draw_clips_to_screen_and_map() {
    let mut map = GameMap::new();
    map.add_tile(Tile::Wall, 1_000, 1_000);
    let cells = map.tiles_to_draw(3, 2);
    assert_eq!(cells.len(), 6);
    assert_eq!((cells[3].col, cells[3].row), (1, 1));
    assert_eq!(cells[3].glyph.bg_color, Color::Black);
    assert_eq!(cells[0].glyph.bg_color, Color::DarkGrey);
    assert_eq!(cells[0].glyph.character, ' ');
    let all = map.tiles_to_draw(1_000, 300);
    assert_eq!(all.len(), 255 * 255);
    assert!(map.tiles_to_draw(0, 10).is_empty());
    assert_eq!(Tile::Building.glyph().bg_color, Color::Transparent);
}

#[test]
fn names_and_labels() {
    assert_eq!(Mode::TitleScreen.label(), "v0.0.1");
    assert_eq!(Mode::Playing.label(), "Playing");
    assert_eq!(Mode::Inventory.label(), "Inventory");
    assert_eq!(Mode::Crafting.label(), "Crafting");
    assert_eq!(BuildingType::CraftingBench.get_char(), 'C');
    assert_eq!(BuildingType::Default.get_char(), '?');
    assert_eq!(BuildingType::CraftingBench.get_sprite_id(), "crafting_bench");
    assert_eq!(BuildingType::Default.get_sprite_id(), "unknown");
}

use super::event::Event;
use super::input::InputEvent;
use super::mouse::MouseButton;
use crate::game::player::{travel, travel_distance, Player};
use crate::maps::building_type::BuildingType;
use crate::maps::map::{GameMap, MapModel};
use crate::maps::tile::Tile;
use vstd::prelude::*;

verus! {

/// What an input means while playing. The arrows move the player, named by
/// the screen: right is forward and left is backward. A left or right click
/// is reported with its position; quitting quits; anything else means
/// nothing.
pub open spec fn playing_response(input: InputEvent) -> Event {
    match input {
        InputEvent::Quit => Event::Quit,
        InputEvent::Left => Event::MovePlayerBackward,
        InputEvent::Right => Event::MovePlayerForward,
        InputEvent::Up => Event::MovePlayerUp,
        InputEvent::Down => Event::MovePlayerDown,
        InputEvent::MouseClick { x, y, button: MouseButton::Left } => Event::LeftClicked { x, y },
        InputEvent::MouseClick { x, y, button: MouseButton::Right } => Event::RightClicked { x, y },
        _ => Event::Nothing,
    }
}

/// What a left click at (`x`, `y`) means: crafting where the building found
/// there is a crafting bench, nothing otherwise.
pub open spec fn click_response(m: MapModel, x: int, y: int) -> Event {
    match m.building_at(x, y) {
        Some(b) => if b.building_type == BuildingType::CraftingBench {
            Event::Craft
        } else {
            Event::Nothing
        },
        None => Event::Nothing,
    }
}

/// Reads an input while playing.
pub fn handle_playing_input(event: InputEvent) -> (e: Event)
    ensures
        e == playing_response(event),
{
    match event {
        InputEvent::Quit => Event::Quit,
        InputEvent::Left => Event::MovePlayerBackward,
        InputEvent::Right => Event::MovePlayerForward,
        InputEvent::Up => Event::MovePlayerUp,
        InputEvent::Down => Event::MovePlayerDown,
        InputEvent::MouseClick { x, y, button: MouseButton::Left } => Event::LeftClicked { x, y },
        InputEvent::MouseClick { x, y, button: MouseButton::Right } => Event::RightClicked { x, y },
        _ => Event::Nothing,
    }
}

/// Resolves a left click at (`mouse_x`, `mouse_y`) against the buildings of
/// `map`.
pub fn handle_playing_click(map: &GameMap, mouse_x: i64, mouse_y: i64) -> (e: Event)
    ensures
        e == click_response(map@, mouse_x as int, mouse_y as int),
{
    match map.get_building(mouse_x, mouse_y) {
        Some(building) => match building.building_type {
            BuildingType::CraftingBench => Event::Craft,
            _ => Event::Nothing,
        },
        None => Event::Nothing,
    }
}

/// Moves `player` right by the distance it walks in `frame_micros` where the
/// tile at `new_position` is floor; leaves it as it is otherwise.
pub fn move_player(player: &mut Player, map: &GameMap, frame_micros: u32, new_position: (i64, i64))
    requires
        i64::MIN <= old(player).x + travel(old(player).speed as int, frame_micros as int)
            <= i64::MAX,
    ensures
        *final(player) == (if map@.tile_query(new_position.0 as int, new_position.1 as int) == Some(
            Tile::Floor,
        ) {
            Player {
                x: (old(player).x + travel(old(player).speed as int, frame_micros as int)) as i64,
                ..*old(player)
            }
        } else {
            *old(player)
        }),
{
    if let Some(Tile::Floor) = map.get_tile(new_position.0, new_position.1) {
        player.x = player.x + travel_distance(player.speed, frame_micros);
    }
}

} // verus!

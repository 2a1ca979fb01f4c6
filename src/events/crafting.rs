use super::event::Event;
use super::input::InputEvent;
use vstd::prelude::*;

verus! {

/// What an input means in the crafting menu: quitting goes back to the game
/// rather than quitting it, and anything else means nothing.
pub open spec fn crafting_response(input: InputEvent) -> Event {
    match input {
        InputEvent::Quit => Event::Back,
        _ => Event::Nothing,
    }
}

/// Reads an input in the crafting menu.
pub fn handle_crafting_input(event: InputEvent) -> (e: Event)
    ensures
        e == crafting_response(event),
{
    match event {
        InputEvent::Quit => Event::Back,
        _ => Event::Nothing,
    }
}

} // verus!

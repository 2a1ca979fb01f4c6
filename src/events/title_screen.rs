use super::event::Event;
use super::input::InputEvent;
use vstd::prelude::*;

verus! {

/// What an input means on the title screen: interacting continues into the
/// game, quitting quits, and anything else means nothing.
pub open spec fn title_screen_response(input: InputEvent) -> Event {
    match input {
        InputEvent::Interact => Event::Continue,
        InputEvent::Quit => Event::Quit,
        _ => Event::Nothing,
    }
}

/// Reads an input on the title screen.
pub fn handle_title_screen_input(event: InputEvent) -> (e: Event)
    ensures
        e == title_screen_response(event),
{
    match event {
        InputEvent::Interact => Event::Continue,
        InputEvent::Quit => Event::Quit,
        _ => Event::Nothing,
    }
}

} // verus!

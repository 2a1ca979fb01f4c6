use crate::events::crafting::{crafting_response, handle_crafting_input};
use crate::events::event::Event;
use crate::events::input::InputEvent;
use crate::events::playing::{handle_playing_input, playing_response};
use crate::events::title_screen::{handle_title_screen_input, title_screen_response};
use vstd::prelude::*;

verus! {

/// The current mode of the game.
#[derive(Clone, Copy, Debug, PartialEq, Eq, Structural)]
pub enum Mode {
    TitleScreen,
    Playing,
    /// Reserved: no screen and no input handling exist for it yet.
    Inventory,
    Crafting,
}

/// What an input means in `mode`. The inventory mode has no handler.
pub open spec fn mode_response(mode: Mode, input: InputEvent) -> Event {
    match mode {
        Mode::TitleScreen => title_screen_response(input),
        Mode::Playing => playing_response(input),
        Mode::Crafting => crafting_response(input),
        Mode::Inventory => Event::Nothing,
    }
}

/// The mode after `event` in `mode`. The title screen continues into play,
/// play turns to crafting on `Craft`, and crafting goes back to play on
/// `Back`; every other pair leaves the mode as it is.
pub open spec fn next_mode(mode: Mode, event: Event) -> Mode {
    match (mode, event) {
        (Mode::TitleScreen, Event::Continue) => Mode::Playing,
        (Mode::Playing, Event::Craft) => Mode::Crafting,
        (Mode::Crafting, Event::Back) => Mode::Playing,
        _ => mode,
    }
}

/// The mode changes on exactly three pairs: the title screen goes to play on
/// `Continue`, play goes to crafting on `Craft`, and crafting goes back to
/// play on `Back`. Every other pair of mode and event, `Quit` included, leaves
/// the mode as it is.
pub proof fn lemma_transition_table(m: Mode, e: Event)
    ensures
        m == Mode::TitleScreen && e == Event::Continue ==> next_mode(m, e) == Mode::Playing,
        m == Mode::Playing && e == Event::Craft ==> next_mode(m, e) == Mode::Crafting,
        m == Mode::Crafting && e == Event::Back ==> next_mode(m, e) == Mode::Playing,
        !(m == Mode::TitleScreen && e == Event::Continue) && !(m == Mode::Playing && e
            == Event::Craft) && !(m == Mode::Crafting && e == Event::Back) ==> next_mode(m, e)
            == m,
{
}

impl Mode {
    /// Reads an input with the handler of this mode.
    pub fn handle_input(&self, input: InputEvent) -> (e: Event)
        requires
            *self != Mode::Inventory,
        ensures
            e == mode_response(*self, input),
    {
        match self {
            Mode::TitleScreen => handle_title_screen_input(input),
            Mode::Playing => handle_playing_input(input),
            Mode::Crafting => handle_crafting_input(input),
            Mode::Inventory => unreached(),
        }
    }

    /// The mode that follows this one on `event`.
    pub fn transition(&self, event: Event) -> (m: Mode)
        ensures
            m == next_mode(*self, event),
    {
        match (self, event) {
            (Mode::TitleScreen, Event::Continue) => Mode::Playing,
            (Mode::Playing, Event::Craft) => Mode::Crafting,
            (Mode::Crafting, Event::Back) => Mode::Playing,
            _ => *self,
        }
    }

    /// The text that the status bar shows for this mode.
    pub fn label(&self) -> (s: &'static str)
        ensures
            s@ == (match *self {
                Mode::TitleScreen => "v0.0.1"@,
                Mode::Playing => "Playing"@,
                Mode::Inventory => "Inventory"@,
                Mode::Crafting => "Crafting"@,
            }),
    {
        match self {
            Mode::TitleScreen => "v0.0.1",
            Mode::Playing => "Playing",
            Mode::Inventory => "Inventory",
            Mode::Crafting => "Crafting",
        }
    }
}

} // verus!

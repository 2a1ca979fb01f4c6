use super::mouse::MouseButton;
use vstd::prelude::*;

verus! {

/// Raw input from the player, as the input source reports it. Positions are
/// grid coordinates in units.
#[derive(Clone, Copy, Debug, PartialEq, Eq, Structural)]
pub enum InputEvent {
    Up,
    Down,
    Left,
    Right,
    Interact,
    Escape,
    Quit,
    Character(char),
    MouseClick { x: i64, y: i64, button: MouseButton },
    MouseMove { x: i64, y: i64 },
    Unknown,
}

} // verus!

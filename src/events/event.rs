use vstd::prelude::*;

verus! {

/// What an [`InputEvent`](super::input::InputEvent) means in the current mode:
/// it tells the game state what to do next. Positions are grid coordinates in
/// units.
#[derive(Clone, Copy, Debug, PartialEq, Eq, Structural)]
pub enum Event {
    Continue,
    Quit,
    MovePlayerForward,
    MovePlayerBackward,
    MovePlayerUp,
    MovePlayerDown,
    LeftClicked { x: i64, y: i64 },
    RightClicked { x: i64, y: i64 },
    Craft,
    Back,
    Nothing,
    Unknown,
}

} // verus!

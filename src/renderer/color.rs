use vstd::prelude::*;

verus! {

/// The colours used to draw the game.
#[derive(Clone, Copy, Debug, PartialEq, Eq, Structural)]
pub enum Color {
    Black,
    White,
    Red,
    Green,
    Blue,
    Yellow,
    Cyan,
    Magenta,
    Brown,
    DarkGrey,
    Transparent,
}

} // verus!

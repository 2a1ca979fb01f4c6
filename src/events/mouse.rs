use vstd::prelude::*;

verus! {

/// The buttons of a mouse.
#[derive(Clone, Copy, Debug, PartialEq, Eq, Structural)]
pub enum MouseButton {
    Left,
    Right,
    Middle,
    /// Any further button, by its number.
    Other(u8),
}

} // verus!

//! A small tile-based game: a title screen, an overworld and a crafting menu,
//! driven by input events through a mode state machine.

pub mod events;
pub mod game;
pub mod maps;
pub mod renderer;
pub mod units;

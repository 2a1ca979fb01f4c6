pub mod crafting;
pub mod event;
pub mod input;
pub mod mouse;
pub mod playing;
pub mod title_screen;

use crate::renderer::color::Color;
use vstd::prelude::*;

verus! {

/// One cell of a [`GameMap`](super::map::GameMap).
#[derive(Clone, Copy, Debug, PartialEq, Eq, Structural)]
pub enum Tile {
    /// A passable cell.
    Floor,
    /// An impassable cell.
    Wall,
    /// An impassable cell under a building.
    Building,
}

/// How one cell is drawn: a character in a foreground colour on a background
/// colour.
#[derive(Clone, Copy, Debug, PartialEq, Eq, Structural)]
pub struct Glyph {
    pub character: char,
    pub fg_color: Color,
    pub bg_color: Color,
}

/// How each kind of tile is drawn: a blank cell whose background tells the
/// kinds apart, dark grey for floor and black for wall; a tile under a
/// building is left clear, as the building's sprite covers it.
pub open spec fn tile_glyph(t: Tile) -> Glyph {
    match t {
        Tile::Floor => Glyph { character: ' ', fg_color: Color::Transparent, bg_color: Color::DarkGrey },
        Tile::Wall => Glyph { character: ' ', fg_color: Color::Transparent, bg_color: Color::Black },
        Tile::Building => Glyph {
            character: ' ',
            fg_color: Color::Transparent,
            bg_color: Color::Transparent,
        },
    }
}

impl Tile {
    /// How this tile is drawn.
    pub fn glyph(&self) -> (g: Glyph)
        ensures
            g == tile_glyph(*self),
    {
        match self {
            Tile::Floor => Glyph {
                character: ' ',
                fg_color: Color::Transparent,
                bg_color: Color::DarkGrey,
            },
            Tile::Wall => Glyph { character: ' ', fg_color: Color::Transparent, bg_color: Color::Black },
            Tile::Building => Glyph {
                character: ' ',
                fg_color: Color::Transparent,
                bg_color: Color::Transparent,
            },
        }
    }
}

} // verus!

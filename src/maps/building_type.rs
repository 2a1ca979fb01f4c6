use vstd::prelude::*;

verus! {

/// The kinds of building that can stand on a map.
#[derive(Clone, Copy, Debug, PartialEq, Eq, Structural)]
pub enum BuildingType {
    /// A bench at which the player crafts.
    CraftingBench,
    /// A building of no particular kind.
    Default,
}

impl BuildingType {
    /// The character that stands for this kind of building on a text grid.
    pub fn get_char(&self) -> (c: char)
        ensures
            c == (match *self {
                BuildingType::CraftingBench => 'C',
                BuildingType::Default => '?',
            }),
    {
        match self {
            BuildingType::CraftingBench => 'C',
            BuildingType::Default => '?',
        }
    }

    /// The id of the sprite that draws this kind of building.
    pub fn get_sprite_id(&self) -> (id: &'static str)
        ensures
            id@ == (match *self {
                BuildingType::CraftingBench => "crafting_bench"@,
                BuildingType::Default => "unknown"@,
            }),
    {
        match self {
            BuildingType::CraftingBench => "crafting_bench",
            BuildingType::Default => "unknown",
        }
    }
}

} // verus!

pub mod building;
pub mod building_type;
pub mod map;
pub mod tile;

use crate::maps::map::{GameMap, MapModel};
use crate::maps::tile::Tile;
use crate::renderer::color::Color;
use vstd::prelude::*;

verus! {

/// How far the player walks in one second, in units.
pub const BASE_MOVEMENT_SPEED: u32 = 4000;

/// The width of the player's box, in units: less than one tile.
pub const PLAYER_WIDTH: i64 = 530;

/// The height of the player's box, in units: less than one tile.
pub const PLAYER_HEIGHT: i64 = 970;

/// How many microseconds make one second.
pub const MICROS_PER_SECOND: u64 = 1_000_000;

/// The way the player's sprite faces.
#[derive(Clone, Copy, Debug, PartialEq, Eq, Structural)]
pub enum Facing {
    /// Towards the viewer: at rest, or walking down.
    Base,
    /// Away from the viewer, walking up.
    Back,
    /// Walking right.
    Right,
    /// Walking left.
    Left,
}

impl Facing {
    /// The id of the sprite that shows the player facing this way.
    pub fn sprite_id(&self) -> (id: &'static str)
        ensures
            id@ == (match *self {
                Facing::Base => "player_base"@,
                Facing::Back => "player_back"@,
                Facing::Right => "player_right"@,
                Facing::Left => "player_left"@,
            }),
    {
        match self {
            Facing::Base => "player_base",
            Facing::Back => "player_back",
            Facing::Right => "player_right",
            Facing::Left => "player_left",
        }
    }

    /// The id of the walking animation for this way.
    pub fn animation(&self) -> (id: &'static str)
        ensures
            id@ == (match *self {
                Facing::Base => "player_walk"@,
                Facing::Back => "player_walk_up"@,
                Facing::Right => "player_walk_right"@,
                Facing::Left => "player_walk_left"@,
            }),
    {
        match self {
            Facing::Base => "player_walk",
            Facing::Back => "player_walk_up",
            Facing::Right => "player_walk_right",
            Facing::Left => "player_walk_left",
        }
    }
}

/// The way the player faces after a step of (`dx`, `dy`), from the signs of
/// the step alone. Upward movement wins, then right, then left; a step that
/// moves neither up nor sideways turns the player back to the viewer.
pub open spec fn next_facing(dx: int, dy: int) -> Facing {
    if dy < 0 {
        Facing::Back
    } else if dx > 0 {
        Facing::Right
    } else if dx < 0 {
        Facing::Left
    } else {
        Facing::Base
    }
}

/// The column probed for a horizontal step of `dx` from `x`: the near edge of
/// the player's box when it moves left, the far edge otherwise.
pub open spec fn probe_x(x: int, dx: int) -> int {
    if dx < 0 {
        x + dx
    } else {
        x + PLAYER_WIDTH + dx
    }
}

/// The row probed for a vertical step of `dy` from `y`: the near edge of the
/// player's box when it moves up, the far edge when it moves down, and the
/// row of `y` itself on a level step.
pub open spec fn probe_y(y: int, dy: int) -> int {
    if dy < 0 {
        y + dy
    } else if dy > 0 {
        y + PLAYER_HEIGHT + dy
    } else {
        y
    }
}

/// How far something at `speed` units per second travels in `micros`
/// microseconds, rounded down.
pub open spec fn travel(speed: int, micros: int) -> int {
    speed * micros / (MICROS_PER_SECOND as int)
}

/// How far the player travels vertically at `speed` in `micros`: three
/// quarters of the horizontal distance, as tiles look taller than wide.
pub open spec fn vertical_travel(speed: int, micros: int) -> int {
    speed * micros * 3 / (4 * MICROS_PER_SECOND as int)
}

/// The horizontal distance travelled at `speed` in `frame_micros`.
pub fn travel_distance(speed: u32, frame_micros: u32) -> (d: i64)
    ensures
        d == travel(speed as int, frame_micros as int),
{
    let s = speed as u64;
    let f = frame_micros as u64;
    assert(s * f <= 0xffff_ffffu64 * 0xffff_ffffu64) by (nonlinear_arith)
        requires
            s <= 0xffff_ffffu64,
            f <= 0xffff_ffffu64,
    ;
    let product: u64 = s * f;
    (product / MICROS_PER_SECOND) as i64
}

/// The vertical distance travelled at `speed` in `frame_micros`.
pub fn vertical_travel_distance(speed: u32, frame_micros: u32) -> (d: i64)
    ensures
        d == vertical_travel(speed as int, frame_micros as int),
{
    let s = speed as u128;
    let f = frame_micros as u128;
    assert(s * f <= 0xffff_ffffu128 * 0xffff_ffffu128) by (nonlinear_arith)
        requires
            s <= 0xffff_ffffu128,
            f <= 0xffff_ffffu128,
    ;
    let product: u128 = s * f * 3;
    let quotient: u128 = product / (4 * MICROS_PER_SECOND as u128);
    assert(quotient <= product) by (nonlinear_arith)
        requires
            quotient == product / 4_000_000,
    ;
    quotient as i64
}

/// A step whose probed tile is not floor (a wall, a building tile, or no tile
/// at all) leaves the player exactly as it was. A step whose probed tile is floor
/// moves the player by the whole step, once, and changes nothing else but its
/// facing.
pub proof fn lemma_move_gate(p: Player, dx: int, dy: int, m: MapModel)
    ensures
        m.tile_query(probe_x(p.x as int, dx), probe_y(p.y as int, dy)) != Some(Tile::Floor)
            ==> p.after_move(dx, dy, m) == p,
        m.tile_query(probe_x(p.x as int, dx), probe_y(p.y as int, dy)) == Some(Tile::Floor) ==> {
            let q = p.after_move(dx, dy, m);
            &&& q.x == p.x + dx
            &&& q.y == p.y + dy
            &&& q == (Player { x: q.x, y: q.y, facing: next_facing(dx, dy), ..p })
        },
{
}

/// The main character of the game.
#[derive(Clone, Copy, Debug, PartialEq, Eq, Structural)]
pub struct Player {
    /// The horizontal position of the player's box, in units.
    pub x: i64,
    /// The vertical position of the player's box, in units.
    pub y: i64,
    /// How far the player walks in one second, in units.
    pub speed: u32,
    /// The way the player's sprite faces.
    pub facing: Facing,
    /// The colour the player is drawn in where no sprite is at hand.
    pub color: Color,
    /// Whether the player moved between the last two frames.
    pub is_walking: bool,
    /// The horizontal position at the last frame.
    pub last_x: i64,
    /// The vertical position at the last frame.
    pub last_y: i64,
}

impl Player {
    /// The player after a step of (`dx`, `dy`) on map `m`: the step and the
    /// new facing take effect only where the probed tile exists and is floor.
    pub open spec fn after_move(self, dx: int, dy: int, m: MapModel) -> Player {
        if m.tile_query(probe_x(self.x as int, dx), probe_y(self.y as int, dy)) == Some(
            Tile::Floor,
        ) {
            Player {
                x: (self.x + dx) as i64,
                y: (self.y + dy) as i64,
                facing: next_facing(dx, dy),
                ..self
            }
        } else {
            self
        }
    }

    /// The player after the bookkeeping of one frame: it is walking when it
    /// has moved since the last frame, and its position is remembered.
    pub open spec fn after_frame(self) -> Player {
        Player {
            is_walking: self.last_x != self.x || self.last_y != self.y,
            last_x: self.x,
            last_y: self.y,
            ..self
        }
    }

    /// A player at rest at (`x`, `y`), at base speed and facing the viewer.
    pub open spec fn at_rest(x: i64, y: i64) -> Player {
        Player {
            x,
            y,
            speed: BASE_MOVEMENT_SPEED,
            facing: Facing::Base,
            color: Color::White,
            is_walking: false,
            last_x: x,
            last_y: y,
        }
    }

    /// Creates a player at rest at (`x`, `y`).
    pub fn new(x: i64, y: i64) -> (p: Self)
        ensures
            p == Player::at_rest(x, y),
    {
        Player {
            x,
            y,
            speed: BASE_MOVEMENT_SPEED,
            facing: Facing::Base,
            color: Color::White,
            is_walking: false,
            last_x: x,
            last_y: y,
        }
    }

    /// Runs once per frame: records whether the player has moved since the
    /// last frame, and remembers where it stands now.
    pub fn update(&mut self)
        ensures
            *final(self) == old(self).after_frame(),
    {
        self.is_walking = self.last_x != self.x || self.last_y != self.y;
        self.last_x = self.x;
        self.last_y = self.y;
    }

    /// Moves the player by `delta` where the tile at the leading edge of its
    /// box, after the move, is floor; leaves it as it is otherwise.
    pub fn move_player(&mut self, delta: (i64, i64), map: &GameMap)
        ensures
            *final(self) == old(self).after_move(delta.0 as int, delta.1 as int, map@),
    {
        let (dx, dy) = delta;
        let px: i128 = if dx < 0 {
            self.x as i128 + dx as i128
        } else {
            self.x as i128 + PLAYER_WIDTH as i128 + dx as i128
        };
        let py: i128 = if dy < 0 {
            self.y as i128 + dy as i128
        } else if dy > 0 {
            self.y as i128 + PLAYER_HEIGHT as i128 + dy as i128
        } else {
            self.y as i128
        };
        let fits = i64::MIN as i128 <= px && px <= i64::MAX as i128 && i64::MIN as i128 <= py
            && py <= i64::MAX as i128;
        let probed = if fits {
            map.get_tile(px as i64, py as i64)
        } else {
            None
        };
        if let Some(Tile::Floor) = probed {
            self.update_sprite(delta);
            self.x = self.x + dx;
            self.y = self.y + dy;
        }
    }

    /// Turns the player's sprite to match a step of `delta`.
    fn update_sprite(&mut self, delta: (i64, i64))
        ensures
            *final(self) == (Player {
                facing: next_facing(delta.0 as int, delta.1 as int),
                ..*old(self)
            }),
    {
        let (dx, dy) = delta;
        self.facing = if dy < 0 {
            Facing::Back
        } else if dx > 0 {
            Facing::Right
        } else if dx < 0 {
            Facing::Left
        } else {
            Facing::Base
        };
    }
}

impl Default for Player {
    /// A player at rest at the origin.
    fn default() -> (p: Self)
        ensures
            p == Player::at_rest(0, 0),
    {
        Player::new(0, 0)
    }
}

} // verus!

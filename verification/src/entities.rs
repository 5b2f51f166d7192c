//! The game's entities and their fixed extents. All sizes are in
//! milli-units: one thousandth of a screen unit.

use vstd::prelude::*;
use crate::geometry::{Vec2, Viewport, DIR_SCALE, from_random_draw};
use crate::bounds::in_play_area;

verus! {

/// Half the player circle's extent (the player sprite is 64 units across).
pub const PLAYER_HALF_SIZE: i64 = 32_000;

/// Half an enemy circle's extent (an enemy sprite is 64 units across).
pub const ENEMY_HALF_SIZE: i64 = 32_000;

/// Half a star pickup's extent (a star sprite is 30 units across).
pub const STAR_HALF_SIZE: i64 = 15_000;

/// How many enemies are spawned when a game starts.
pub const NUMBER_OF_ENEMIES: usize = 4;

/// How many stars are spawned when a game starts.
pub const NUMBER_OF_STARS: usize = 10;

/// An enemy: a position and the direction it is travelling in.
#[derive(Clone, Copy, PartialEq, Eq, Structural, Debug)]
pub struct Enemy {
    pub position: Vec2,
    pub direction: Vec2,
}

/// A well-formed travel direction: each fixed-point component is at most
/// one unit in magnitude, and the vector is not zero.
pub open spec fn direction_wf(d: Vec2) -> bool {
    &&& -DIR_SCALE <= d.x <= DIR_SCALE
    &&& -DIR_SCALE <= d.y <= DIR_SCALE
    &&& !(d.x == 0 && d.y == 0)
}

/// A well-formed freshly spawned enemy: in its play area, with a
/// well-formed direction that is the unit-length normalization of some
/// random draw.
pub open spec fn enemy_wf(e: Enemy, vp: Viewport) -> bool {
    &&& in_play_area(e.position, vp, ENEMY_HALF_SIZE)
    &&& direction_wf(e.direction)
    &&& from_random_draw(e.direction)
}

} // verus!

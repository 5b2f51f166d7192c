//! Per-frame movement: the player moves where the held keys point, and
//! every enemy drifts along its direction vector. A displacement is
//! `direction * speed * delta`, in fixed point, truncated towards zero.

use vstd::prelude::*;
use crate::geometry::{Vec2, Viewport, DIR_SCALE, in_coord_range, viewport_wf};
use crate::bounds::{clamped, fits_viewport, in_play_area, clamp_half_sized_to_window};
use crate::entities::{Enemy, PLAYER_HALF_SIZE, ENEMY_HALF_SIZE};
use crate::timers::MAX_FRAME_MS;

verus! {

/// The player's speed, in milli-units per second.
pub const PLAYER_SPEED: i64 = 500_000;

/// An enemy's speed, in milli-units per second.
pub const ENEMY_SPEED: i64 = 200_000;

/// A diagonal unit direction's fixed-point component: `DIR_SCALE`
/// divided by the square root of two, rounded.
pub const DIAG_COMPONENT: i64 = 707;

/// The largest speed the movement arithmetic accepts, in milli-units
/// per second.
pub const MAX_SPEED: i64 = 1_000_000;

/// The largest displacement one frame can produce on one axis:
/// `DIR_SCALE * MAX_SPEED * MAX_FRAME_MS / (DIR_SCALE * 1000)`.
pub const MAX_STEP: i64 = 1_000_000_000;

/// The held movement keys for one frame.
#[derive(Clone, Copy, PartialEq, Eq, Structural, Debug)]
pub struct MoveInput {
    pub left: bool,
    pub right: bool,
    pub up: bool,
    pub down: bool,
}

/// The net horizontal key direction: right minus left, in `{-1, 0, 1}`.
pub open spec fn net_x(input: MoveInput) -> int {
    (if input.right { 1int } else { 0int }) - (if input.left { 1int } else { 0int })
}

/// The net vertical key direction: up minus down, in `{-1, 0, 1}`.
pub open spec fn net_y(input: MoveInput) -> int {
    (if input.up { 1int } else { 0int }) - (if input.down { 1int } else { 0int })
}

/// The fixed-point x component of the normalized key direction: a full
/// unit on a single axis, a diagonal component on both, zero on none.
pub open spec fn input_dir_x(input: MoveInput) -> int {
    if net_y(input) == 0 {
        net_x(input) * DIR_SCALE
    } else {
        net_x(input) * DIAG_COMPONENT
    }
}

/// The fixed-point y component of the normalized key direction.
pub open spec fn input_dir_y(input: MoveInput) -> int {
    if net_x(input) == 0 {
        net_y(input) * DIR_SCALE
    } else {
        net_y(input) * DIAG_COMPONENT
    }
}

/// The one-axis displacement of a frame: `dir * speed * delta_ms`
/// scaled back down by the direction scale and by milliseconds per
/// second, truncated towards zero.
pub open spec fn displacement(dir: int, speed: int, delta_ms: int) -> int {
    if dir >= 0 {
        (dir * speed * delta_ms) / (DIR_SCALE * 1000)
    } else {
        -(((-dir) * speed * delta_ms) / (DIR_SCALE * 1000))
    }
}

/// Computes one axis of a frame's displacement.
fn scaled_step(dir: i64, speed: i64, delta_ms: u64) -> (d: i64)
    requires
        -DIR_SCALE <= dir <= DIR_SCALE,
        0 <= speed <= MAX_SPEED,
        delta_ms <= MAX_FRAME_MS,
    ensures
        d == displacement(dir as int, speed as int, delta_ms as int),
        -MAX_STEP <= d <= MAX_STEP,
{
    let mag: u64 = if dir >= 0 {
        dir as u64
    } else {
        (-dir) as u64
    };
    proof {
        assert(mag * speed <= DIR_SCALE * MAX_SPEED) by (nonlinear_arith)
            requires
                0 <= mag <= DIR_SCALE,
                0 <= speed <= MAX_SPEED,
        ;
        assert((mag * speed) * delta_ms <= (DIR_SCALE * MAX_SPEED) * MAX_FRAME_MS)
            by (nonlinear_arith)
            requires
                0 <= mag * speed <= DIR_SCALE * MAX_SPEED,
                0 <= delta_ms <= MAX_FRAME_MS,
        ;
    }
    let product: u64 = mag * (speed as u64) * delta_ms;
    let step: u64 = product / 1_000_000;
    proof {
        assert(step * 1_000_000 + product % 1_000_000 == product);
        assert(step <= MAX_STEP);
    }
    if dir >= 0 {
        step as i64
    } else {
        -(step as i64)
    }
}

/// Where the player ends up after one frame of movement: the held keys
/// give a normalized direction, and the player advances along it at
/// `PLAYER_SPEED` for `delta_ms` milliseconds.
pub fn player_movement(position: Vec2, input: MoveInput, delta_ms: u64) -> (r: Vec2)
    requires
        in_coord_range(position),
        delta_ms <= MAX_FRAME_MS,
    ensures
        r.x == position.x + displacement(input_dir_x(input), PLAYER_SPEED as int, delta_ms as int),
        r.y == position.y + displacement(input_dir_y(input), PLAYER_SPEED as int, delta_ms as int),
{
    let dir = input_direction(input);
    let dx = scaled_step(dir.x, PLAYER_SPEED, delta_ms);
    let dy = scaled_step(dir.y, PLAYER_SPEED, delta_ms);
    Vec2 { x: position.x + dx, y: position.y + dy }
}

/// The normalized key direction as a fixed-point vector.
pub fn input_direction(input: MoveInput) -> (d: Vec2)
    ensures
        d.x == input_dir_x(input),
        d.y == input_dir_y(input),
{
    let nx: i64 = (if input.right { 1i64 } else { 0i64 }) - (if input.left { 1i64 } else { 0i64 });
    let ny: i64 = (if input.up { 1i64 } else { 0i64 }) - (if input.down { 1i64 } else { 0i64 });
    let x = if ny == 0 {
        nx * DIR_SCALE
    } else {
        nx * DIAG_COMPONENT
    };
    let y = if nx == 0 {
        ny * DIR_SCALE
    } else {
        ny * DIAG_COMPONENT
    };
    Vec2 { x, y }
}

/// Advances every enemy one frame along its direction at `ENEMY_SPEED`,
/// leaving directions untouched.
pub fn enemy_movement(enemies: &mut Vec<Enemy>, delta_ms: u64)
    requires
        forall|k: int|
            0 <= k < old(enemies)@.len() ==> in_coord_range(
                (#[trigger] old(enemies)@[k]).position,
            ) && -DIR_SCALE <= old(enemies)@[k].direction.x <= DIR_SCALE && -DIR_SCALE <= old(
                enemies,
            )@[k].direction.y <= DIR_SCALE,
        delta_ms <= MAX_FRAME_MS,
    ensures
        final(enemies)@.len() == old(enemies)@.len(),
        forall|k: int|
            0 <= k < old(enemies)@.len() ==> {
                &&& (#[trigger] final(enemies)@[k]).direction == old(enemies)@[k].direction
                &&& final(enemies)@[k].position.x == old(enemies)@[k].position.x + displacement(
                    old(enemies)@[k].direction.x as int,
                    ENEMY_SPEED as int,
                    delta_ms as int,
                )
                &&& final(enemies)@[k].position.y == old(enemies)@[k].position.y + displacement(
                    old(enemies)@[k].direction.y as int,
                    ENEMY_SPEED as int,
                    delta_ms as int,
                )
            },
{
    let mut i: usize = 0;
    while i < enemies.len()
        invariant
            0 <= i <= enemies@.len(),
            enemies@.len() == old(enemies)@.len(),
            delta_ms <= MAX_FRAME_MS,
            forall|k: int|
                0 <= k < old(enemies)@.len() ==> in_coord_range(
                    (#[trigger] old(enemies)@[k]).position,
                ) && -DIR_SCALE <= old(enemies)@[k].direction.x <= DIR_SCALE && -DIR_SCALE <= old(
                    enemies,
                )@[k].direction.y <= DIR_SCALE,
            forall|k: int| i <= k < enemies@.len() ==> #[trigger] enemies@[k] == old(enemies)@[k],
            forall|k: int|
                0 <= k < i ==> {
                    &&& (#[trigger] enemies@[k]).direction == old(enemies)@[k].direction
                    &&& enemies@[k].position.x == old(enemies)@[k].position.x + displacement(
                        old(enemies)@[k].direction.x as int,
                        ENEMY_SPEED as int,
                        delta_ms as int,
                    )
                    &&& enemies@[k].position.y == old(enemies)@[k].position.y + displacement(
                        old(enemies)@[k].direction.y as int,
                        ENEMY_SPEED as int,
                        delta_ms as int,
                    )
                },
        decreases enemies@.len() - i,
    {
        let e = enemies[i];
        let dx = scaled_step(e.direction.x, ENEMY_SPEED, delta_ms);
        let dy = scaled_step(e.direction.y, ENEMY_SPEED, delta_ms);
        let moved = Enemy {
            position: Vec2 { x: e.position.x + dx, y: e.position.y + dy },
            direction: e.direction,
        };
        enemies.set(i, moved);
        i = i + 1;
    }
}

/// Confines the player to its play area after a frame of movement.
pub fn confine_player_movement(position: Vec2, vp: Viewport) -> (r: Vec2)
    requires
        viewport_wf(vp),
        fits_viewport(vp, PLAYER_HALF_SIZE),
    ensures
        r.x == clamped(position.x as int, PLAYER_HALF_SIZE as int, vp.width - PLAYER_HALF_SIZE),
        r.y == clamped(position.y as int, PLAYER_HALF_SIZE as int, vp.height - PLAYER_HALF_SIZE),
        in_play_area(r, vp, PLAYER_HALF_SIZE),
{
    clamp_half_sized_to_window(position, vp, PLAYER_HALF_SIZE)
}

/// Confines every enemy to its play area after a frame of movement,
/// leaving directions untouched.
pub fn confine_enemy_movement(enemies: &mut Vec<Enemy>, vp: Viewport)
    requires
        viewport_wf(vp),
        fits_viewport(vp, ENEMY_HALF_SIZE),
    ensures
        final(enemies)@.len() == old(enemies)@.len(),
        forall|k: int|
            0 <= k < old(enemies)@.len() ==> {
                &&& (#[trigger] final(enemies)@[k]).direction == old(enemies)@[k].direction
                &&& final(enemies)@[k].position.x == clamped(
                    old(enemies)@[k].position.x as int,
                    ENEMY_HALF_SIZE as int,
                    vp.width - ENEMY_HALF_SIZE,
                )
                &&& final(enemies)@[k].position.y == clamped(
                    old(enemies)@[k].position.y as int,
                    ENEMY_HALF_SIZE as int,
                    vp.height - ENEMY_HALF_SIZE,
                )
                &&& in_play_area(final(enemies)@[k].position, vp, ENEMY_HALF_SIZE)
            },
{
    let mut i: usize = 0;
    while i < enemies.len()
        invariant
            0 <= i <= enemies@.len(),
            enemies@.len() == old(enemies)@.len(),
            viewport_wf(vp),
            fits_viewport(vp, ENEMY_HALF_SIZE),
            forall|k: int| i <= k < enemies@.len() ==> #[trigger] enemies@[k] == old(enemies)@[k],
            forall|k: int|
                0 <= k < i ==> {
                    &&& (#[trigger] enemies@[k]).direction == old(enemies)@[k].direction
                    &&& enemies@[k].position.x == clamped(
                        old(enemies)@[k].position.x as int,
                        ENEMY_HALF_SIZE as int,
                        vp.width - ENEMY_HALF_SIZE,
                    )
                    &&& enemies@[k].position.y == clamped(
                        old(enemies)@[k].position.y as int,
                        ENEMY_HALF_SIZE as int,
                        vp.height - ENEMY_HALF_SIZE,
                    )
                    &&& in_play_area(enemies@[k].position, vp, ENEMY_HALF_SIZE)
                },
        decreases enemies@.len() - i,
    {
        let e = enemies[i];
        let confined = clamp_half_sized_to_window(e.position, vp, ENEMY_HALF_SIZE);
        enemies.set(i, Enemy { position: confined, direction: e.direction });
        i = i + 1;
    }
}

} // verus!

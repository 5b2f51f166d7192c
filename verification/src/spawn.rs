//! Spawning and despawning: the player appears at the viewport center,
//! enemies and stars appear at random in-bounds positions, enemies with
//! a random direction of (approximately) unit length.

use vstd::prelude::*;
use vstd::arithmetic::div_mod::{
    lemma_div_is_ordered,
    lemma_div_non_zero,
    lemma_div_multiples_vanish,
};
use crate::geometry::{
    Vec2,
    Viewport,
    DIR_SCALE,
    viewport_wf,
    sqrt_floor,
    lemma_sqrt_floor_unique,
    normalizes,
    from_random_draw,
};
use crate::bounds::{fits_viewport, in_play_area, clamped, clamp_half_sized_to_window};
use crate::entities::{
    Enemy,
    PLAYER_HALF_SIZE,
    ENEMY_HALF_SIZE,
    STAR_HALF_SIZE,
    NUMBER_OF_ENEMIES,
    NUMBER_OF_STARS,
    direction_wf,
    enemy_wf,
};
use crate::timers::{EnemySpawnTimer, StarSpawnTimer};

verus! {

/// Relies on rand's `Rng::gen_range` over the thread-local generator:
/// the sampled value lies in the half-open range it is given, and the
/// call panics only on an empty range, which `bound > 0` rules out.
/// Nothing is assumed about the distribution.
#[verifier::external_body]
fn random_below(bound: u64) -> (r: u64)
    requires
        bound > 0,
    ensures
        r < bound,
{
    rand::Rng::gen_range(&mut rand::thread_rng(), 0..bound)
}

/// Computes the integer square root.
fn isqrt(n: u64) -> (r: u64)
    requires
        n <= 4_000_000,
    ensures
        r == sqrt_floor(n as nat),
        r * r <= n < (r + 1) * (r + 1),
{
    let mut r: u64 = 0;
    loop
        invariant_except_break
            r * r <= n,
        invariant
            n <= 4_000_000,
            r <= 2000,
        ensures
            r * r <= n < (r + 1) * (r + 1),
        decreases 4_000_000 - r,
    {
        proof {
            assert((r + 1) * (r + 1) <= 2001 * 2001) by (nonlinear_arith)
                requires
                    0 <= r <= 2000,
            ;
        }
        let next = r + 1;
        let sq = next * next;
        if sq > n {
            break ;
        }
        proof {
            if r == 2000 {
                assert((r + 1) * (r + 1) > 4_000_000) by (nonlinear_arith)
                    requires
                        r == 2000,
                ;
            }
        }
        r = next;
    }
    proof {
        lemma_sqrt_floor_unique(n as nat, r as nat);
    }
    r
}

/// Scales the integer vector `(rx, ry)` to (approximately) unit length
/// in fixed point: each component becomes `v * DIR_SCALE` over the
/// vector's length, truncated towards zero. The zero vector, which has
/// no direction, becomes the unit vector along the x axis.
pub fn normalize_direction(rx: i64, ry: i64) -> (d: Vec2)
    requires
        -DIR_SCALE <= rx <= DIR_SCALE,
        -DIR_SCALE <= ry <= DIR_SCALE,
    ensures
        direction_wf(d),
        normalizes(rx as int, ry as int, d),
{
    if rx == 0 && ry == 0 {
        return Vec2 { x: DIR_SCALE, y: 0 };
    }
    let ax: u64 = if rx < 0 {
        (-rx) as u64
    } else {
        rx as u64
    };
    let ay: u64 = if ry < 0 {
        (-ry) as u64
    } else {
        ry as u64
    };
    proof {
        assert(ax * ax <= 1_000_000) by (nonlinear_arith)
            requires
                0 <= ax <= 1000,
        ;
        assert(ay * ay <= 1_000_000) by (nonlinear_arith)
            requires
                0 <= ay <= 1000,
        ;
        assert(ax >= 1 ==> ax * ax >= 1) by (nonlinear_arith);
        assert(ay >= 1 ==> ay * ay >= 1) by (nonlinear_arith);
        assert((ax as int) * (ax as int) == rx * rx) by (nonlinear_arith)
            requires
                ax == rx || ax == -rx,
        ;
        assert((ay as int) * (ay as int) == ry * ry) by (nonlinear_arith)
            requires
                ay == ry || ay == -ry,
        ;
    }
    let n: u64 = ax * ax + ay * ay;
    let len: u64 = isqrt(n);
    proof {
        if len == 0 {
            assert((len + 1) * (len + 1) == 1) by (nonlinear_arith)
                requires
                    len == 0,
            ;
        }
        // Each scaled component stays within one fixed-point unit.
        assert(ax <= len) by (nonlinear_arith)
            requires
                ax * ax <= n < (len + 1) * (len + 1),
                0 <= ax,
                0 <= len,
        ;
        assert(ay <= len) by (nonlinear_arith)
            requires
                ay * ay <= n < (len + 1) * (len + 1),
                0 <= ay,
                0 <= len,
        ;
        lemma_div_is_ordered(ax * 1000, len * 1000, len as int);
        lemma_div_is_ordered(ay * 1000, len * 1000, len as int);
        lemma_div_multiples_vanish(1000, len as int);
        // The dominant component keeps a nonzero scaled value.
        if ax >= ay {
            assert(len <= ax * 1000) by (nonlinear_arith)
                requires
                    len * len <= n,
                    n == ax * ax + ay * ay,
                    0 <= ay <= ax,
                    1 <= ax,
                    0 <= len,
            ;
            lemma_div_non_zero(ax * 1000, len as int);
        } else {
            assert(len <= ay * 1000) by (nonlinear_arith)
                requires
                    len * len <= n,
                    n == ax * ax + ay * ay,
                    0 <= ax <= ay,
                    1 <= ay,
                    0 <= len,
            ;
            lemma_div_non_zero(ay * 1000, len as int);
        }
    }
    let mx: u64 = ax * 1000 / len;
    let my: u64 = ay * 1000 / len;
    let x: i64 = if rx < 0 {
        -(mx as i64)
    } else {
        mx as i64
    };
    let y: i64 = if ry < 0 {
        -(my as i64)
    } else {
        my as i64
    };
    Vec2 { x, y }
}

/// A fresh random direction: both components drawn uniformly from one
/// fixed-point unit each way, then scaled to unit length. Whatever was
/// drawn, the result is the normalization of some in-range draw.
pub fn get_enemy_direction() -> (d: Vec2)
    ensures
        direction_wf(d),
        from_random_draw(d),
{
    let rx = random_below(2001) as i64 - 1000;
    let ry = random_below(2001) as i64 - 1000;
    let d = normalize_direction(rx, ry);
    proof {
        assert(normalizes(rx as int, ry as int, d));
        assert(from_random_draw(d));
    }
    d
}

/// The player's spawn position: the viewport center, confined to the
/// player's play area.
pub fn get_player_position_clamped(vp: Viewport) -> (p: Vec2)
    requires
        viewport_wf(vp),
        fits_viewport(vp, PLAYER_HALF_SIZE),
    ensures
        p.x == clamped(vp.width / 2, PLAYER_HALF_SIZE as int, vp.width - PLAYER_HALF_SIZE),
        p.y == clamped(vp.height / 2, PLAYER_HALF_SIZE as int, vp.height - PLAYER_HALF_SIZE),
        in_play_area(p, vp, PLAYER_HALF_SIZE),
{
    let cx = (vp.width as u64 / 2) as i64;
    let cy = (vp.height as u64 / 2) as i64;
    clamp_half_sized_to_window(Vec2 { x: cx, y: cy }, vp, PLAYER_HALF_SIZE)
}

/// Spawns the player at the confined viewport center.
pub fn spawn_player(vp: Viewport) -> (p: Vec2)
    requires
        viewport_wf(vp),
        fits_viewport(vp, PLAYER_HALF_SIZE),
    ensures
        p.x == clamped(vp.width / 2, PLAYER_HALF_SIZE as int, vp.width - PLAYER_HALF_SIZE),
        p.y == clamped(vp.height / 2, PLAYER_HALF_SIZE as int, vp.height - PLAYER_HALF_SIZE),
        in_play_area(p, vp, PLAYER_HALF_SIZE),
{
    get_player_position_clamped(vp)
}

/// Removes the player, if any.
pub fn despawn_player(player: &mut Option<Vec2>)
    ensures
        *final(player) is None,
{
    *player = None;
}

/// A random enemy spawn position: drawn anywhere in the viewport, then
/// confined to the enemy's play area.
pub fn get_enemy_position_clamped(vp: Viewport) -> (p: Vec2)
    requires
        viewport_wf(vp),
        fits_viewport(vp, ENEMY_HALF_SIZE),
    ensures
        in_play_area(p, vp, ENEMY_HALF_SIZE),
{
    let x = random_below(vp.width as u64) as i64;
    let y = random_below(vp.height as u64) as i64;
    clamp_half_sized_to_window(Vec2 { x, y }, vp, ENEMY_HALF_SIZE)
}

/// A random star spawn position: drawn anywhere in the viewport, then
/// confined to the star's play area.
pub fn get_star_position_clamped(vp: Viewport) -> (p: Vec2)
    requires
        viewport_wf(vp),
        fits_viewport(vp, STAR_HALF_SIZE),
    ensures
        in_play_area(p, vp, STAR_HALF_SIZE),
{
    let x = random_below(vp.width as u64) as i64;
    let y = random_below(vp.height as u64) as i64;
    clamp_half_sized_to_window(Vec2 { x, y }, vp, STAR_HALF_SIZE)
}

/// Spawns the starting batch of enemies, each well-formed.
pub fn spawn_enemies(vp: Viewport) -> (enemies: Vec<Enemy>)
    requires
        viewport_wf(vp),
        fits_viewport(vp, ENEMY_HALF_SIZE),
    ensures
        enemies@.len() == NUMBER_OF_ENEMIES,
        forall|k: int| 0 <= k < enemies@.len() ==> enemy_wf(#[trigger] enemies@[k], vp),
{
    let mut enemies: Vec<Enemy> = Vec::new();
    let mut i: usize = 0;
    while i < NUMBER_OF_ENEMIES
        invariant
            0 <= i <= NUMBER_OF_ENEMIES,
            enemies@.len() == i,
            viewport_wf(vp),
            fits_viewport(vp, ENEMY_HALF_SIZE),
            forall|k: int| 0 <= k < enemies@.len() ==> enemy_wf(#[trigger] enemies@[k], vp),
        decreases NUMBER_OF_ENEMIES - i,
    {
        let position = get_enemy_position_clamped(vp);
        let direction = get_enemy_direction();
        enemies.push(Enemy { position, direction });
        i = i + 1;
    }
    enemies
}

/// Removes every enemy.
pub fn despawn_enemies(enemies: &mut Vec<Enemy>)
    ensures
        final(enemies)@.len() == 0,
{
    *enemies = Vec::new();
}

/// Spawns one more well-formed enemy when the spawn timer finished this
/// tick, and does nothing otherwise.
pub fn spawn_enemies_over_time(timer: &EnemySpawnTimer, enemies: &mut Vec<Enemy>, vp: Viewport)
    requires
        viewport_wf(vp),
        fits_viewport(vp, ENEMY_HALF_SIZE),
    ensures
        timer.timer.just_finished ==> {
            &&& final(enemies)@.len() == old(enemies)@.len() + 1
            &&& forall|k: int|
                0 <= k < old(enemies)@.len() ==> #[trigger] final(enemies)@[k] == old(enemies)@[k]
            &&& enemy_wf(final(enemies)@[old(enemies)@.len() as int], vp)
        },
        !timer.timer.just_finished ==> final(enemies)@ == old(enemies)@,
{
    if timer.timer.finished() {
        let position = get_enemy_position_clamped(vp);
        let direction = get_enemy_direction();
        enemies.push(Enemy { position, direction });
    }
}

/// Spawns the starting batch of stars, each in its play area.
pub fn spawn_stars(vp: Viewport) -> (stars: Vec<Vec2>)
    requires
        viewport_wf(vp),
        fits_viewport(vp, STAR_HALF_SIZE),
    ensures
        stars@.len() == NUMBER_OF_STARS,
        forall|k: int| 0 <= k < stars@.len() ==> in_play_area(#[trigger] stars@[k], vp, STAR_HALF_SIZE),
{
    let mut stars: Vec<Vec2> = Vec::new();
    let mut i: usize = 0;
    while i < NUMBER_OF_STARS
        invariant
            0 <= i <= NUMBER_OF_STARS,
            stars@.len() == i,
            viewport_wf(vp),
            fits_viewport(vp, STAR_HALF_SIZE),
            forall|k: int|
                0 <= k < stars@.len() ==> in_play_area(#[trigger] stars@[k], vp, STAR_HALF_SIZE),
        decreases NUMBER_OF_STARS - i,
    {
        let position = get_star_position_clamped(vp);
        stars.push(position);
        i = i + 1;
    }
    stars
}

/// Removes every star.
pub fn despawn_stars(stars: &mut Vec<Vec2>)
    ensures
        final(stars)@.len() == 0,
{
    *stars = Vec::new();
}

/// Spawns one more in-bounds star when the spawn timer finished this
/// tick, and does nothing otherwise.
pub fn spawn_stars_over_time(timer: &StarSpawnTimer, stars: &mut Vec<Vec2>, vp: Viewport)
    requires
        viewport_wf(vp),
        fits_viewport(vp, STAR_HALF_SIZE),
    ensures
        timer.timer.just_finished ==> {
            &&& final(stars)@.len() == old(stars)@.len() + 1
            &&& forall|k: int|
                0 <= k < old(stars)@.len() ==> #[trigger] final(stars)@[k] == old(stars)@[k]
            &&& in_play_area(final(stars)@[old(stars)@.len() as int], vp, STAR_HALF_SIZE)
        },
        !timer.timer.just_finished ==> final(stars)@ == old(stars)@,
{
    if timer.timer.finished() {
        let position = get_star_position_clamped(vp);
        stars.push(position);
    }
}

} // verus!

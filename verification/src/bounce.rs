//! Edge bouncing: when an enemy stands on or beyond a play-area bound,
//! the direction component of that axis is forced to point back inside.
//! Only signs change, so the direction's length is preserved.

use vstd::prelude::*;
use crate::geometry::{Vec2, Viewport, DIR_SCALE, abs_val, viewport_wf};
use crate::bounds::{half_size_wf, calculate_play_area_limits};
use crate::entities::{Enemy, ENEMY_HALF_SIZE, direction_wf};

verus! {

/// The position `t` stands on or beyond some play-area bound of an
/// entity with the given half-size.
pub open spec fn at_edge(t: Vec2, vp: Viewport, half_size: i64) -> bool {
    ||| t.x <= half_size
    ||| t.x >= vp.width - half_size
    ||| t.y <= half_size
    ||| t.y >= vp.height - half_size
}

/// The x component of a direction after bouncing at position `t`: made
/// positive at the low bound, negative at the high bound, kept
/// otherwise. The low bound wins where both coincide.
pub open spec fn bounced_dir_x(d: Vec2, t: Vec2, vp: Viewport, half_size: i64) -> int {
    if t.x <= half_size {
        abs_val(d.x as int)
    } else if t.x >= vp.width - half_size {
        -abs_val(d.x as int)
    } else {
        d.x as int
    }
}

/// The y component of a direction after bouncing at position `t`.
pub open spec fn bounced_dir_y(d: Vec2, t: Vec2, vp: Viewport, half_size: i64) -> int {
    if t.y <= half_size {
        abs_val(d.y as int)
    } else if t.y >= vp.height - half_size {
        -abs_val(d.y as int)
    } else {
        d.y as int
    }
}

/// Bouncing changes at most the signs of the components, so the
/// squared length of the direction vector is preserved.
pub proof fn lemma_bounce_preserves_norm(d: Vec2, t: Vec2, vp: Viewport, half_size: i64)
    ensures
        bounced_dir_x(d, t, vp, half_size) * bounced_dir_x(d, t, vp, half_size) + bounced_dir_y(
            d,
            t,
            vp,
            half_size,
        ) * bounced_dir_y(d, t, vp, half_size) == d.x * d.x + d.y * d.y,
{
    assert(abs_val(d.x as int) * abs_val(d.x as int) == d.x * d.x) by (nonlinear_arith);
    assert(abs_val(d.y as int) * abs_val(d.y as int) == d.y * d.y) by (nonlinear_arith);
    assert((-abs_val(d.x as int)) * (-abs_val(d.x as int)) == d.x * d.x) by (nonlinear_arith);
    assert((-abs_val(d.y as int)) * (-abs_val(d.y as int)) == d.y * d.y) by (nonlinear_arith);
}

/// Bouncing touches exactly the axes whose bound is reached: a
/// component is sign-flipped into the play area where its axis stands
/// at a bound, and left untouched where it does not.
pub proof fn lemma_bounce_flips_only_exceeded_axis(d: Vec2, t: Vec2, vp: Viewport, half_size: i64)
    ensures
        !(t.x <= half_size) && !(t.x >= vp.width - half_size) ==> bounced_dir_x(d, t, vp, half_size)
            == d.x as int,
        !(t.y <= half_size) && !(t.y >= vp.height - half_size) ==> bounced_dir_y(
            d,
            t,
            vp,
            half_size,
        ) == d.y as int,
        t.x <= half_size ==> bounced_dir_x(d, t, vp, half_size) >= 0,
        t.x > half_size && t.x >= vp.width - half_size ==> bounced_dir_x(d, t, vp, half_size) <= 0,
        t.y <= half_size ==> bounced_dir_y(d, t, vp, half_size) >= 0,
        t.y > half_size && t.y >= vp.height - half_size ==> bounced_dir_y(d, t, vp, half_size) <= 0,
{
}

/// The direction an enemy at `translation` travelling along `direction`
/// leaves this frame with: `Some` bounced direction when it stands at a
/// play-area bound, `None` (keep the old direction) otherwise.
pub fn calculate_new_direction(
    direction: Vec2,
    translation: Vec2,
    vp: Viewport,
    half_size: i64,
) -> (r: Option<Vec2>)
    requires
        viewport_wf(vp),
        half_size_wf(half_size),
        -DIR_SCALE <= direction.x <= DIR_SCALE,
        -DIR_SCALE <= direction.y <= DIR_SCALE,
    ensures
        r is Some <==> at_edge(translation, vp, half_size),
        r matches Some(nd) ==> nd.x == bounced_dir_x(direction, translation, vp, half_size)
            && nd.y == bounced_dir_y(direction, translation, vp, half_size),
{
    let (x_min, y_min, x_max, y_max) = calculate_play_area_limits(half_size, vp);
    let abs_x = if direction.x < 0 {
        -direction.x
    } else {
        direction.x
    };
    let abs_y = if direction.y < 0 {
        -direction.y
    } else {
        direction.y
    };

    let mut new_direction: Option<Vec2> = None;

    if translation.x <= x_min {
        new_direction = Some(Vec2 { x: abs_x, y: direction.y });
    } else if translation.x >= x_max {
        new_direction = Some(Vec2 { x: -abs_x, y: direction.y });
    }

    if translation.y <= y_min {
        new_direction = match new_direction {
            None => Some(Vec2 { x: direction.x, y: abs_y }),
            Some(d) => Some(Vec2 { x: d.x, y: abs_y }),
        };
    } else if translation.y >= y_max {
        new_direction = match new_direction {
            None => Some(Vec2 { x: direction.x, y: -abs_y }),
            Some(d) => Some(Vec2 { x: d.x, y: -abs_y }),
        };
    }

    new_direction
}

/// How many of the enemies stand at a play-area bound this frame.
pub open spec fn bounce_count(enemies: Seq<Enemy>, vp: Viewport) -> nat
    decreases enemies.len(),
{
    if enemies.len() == 0 {
        0
    } else {
        bounce_count(enemies.drop_last(), vp) + if at_edge(
            enemies.last().position,
            vp,
            ENEMY_HALF_SIZE,
        ) {
            1nat
        } else {
            0nat
        }
    }
}

/// Bounces every enemy standing at a play-area bound: its direction
/// components are sign-corrected axis-wise, its position is untouched.
/// Returns how many enemies bounced, one sound cue each.
pub fn bounce_enemies_off_edges(enemies: &mut Vec<Enemy>, vp: Viewport) -> (bounced: usize)
    requires
        viewport_wf(vp),
        forall|k: int|
            0 <= k < old(enemies)@.len() ==> direction_wf((#[trigger] old(enemies)@[k]).direction),
    ensures
        final(enemies)@.len() == old(enemies)@.len(),
        forall|k: int|
            0 <= k < old(enemies)@.len() ==> {
                &&& (#[trigger] final(enemies)@[k]).position == old(enemies)@[k].position
                &&& final(enemies)@[k].direction.x == bounced_dir_x(
                    old(enemies)@[k].direction,
                    old(enemies)@[k].position,
                    vp,
                    ENEMY_HALF_SIZE,
                )
                &&& final(enemies)@[k].direction.y == bounced_dir_y(
                    old(enemies)@[k].direction,
                    old(enemies)@[k].position,
                    vp,
                    ENEMY_HALF_SIZE,
                )
            },
        bounced == bounce_count(old(enemies)@, vp),
{
    let mut bounced: usize = 0;
    let mut i: usize = 0;
    while i < enemies.len()
        invariant
            0 <= i <= enemies@.len(),
            enemies@.len() == old(enemies)@.len(),
            viewport_wf(vp),
            forall|k: int|
                0 <= k < old(enemies)@.len() ==> direction_wf(
                    (#[trigger] old(enemies)@[k]).direction,
                ),
            forall|k: int| i <= k < enemies@.len() ==> #[trigger] enemies@[k] == old(enemies)@[k],
            forall|k: int|
                0 <= k < i ==> {
                    &&& (#[trigger] enemies@[k]).position == old(enemies)@[k].position
                    &&& enemies@[k].direction.x == bounced_dir_x(
                        old(enemies)@[k].direction,
                        old(enemies)@[k].position,
                        vp,
                        ENEMY_HALF_SIZE,
                    )
                    &&& enemies@[k].direction.y == bounced_dir_y(
                        old(enemies)@[k].direction,
                        old(enemies)@[k].position,
                        vp,
                        ENEMY_HALF_SIZE,
                    )
                },
            bounced == bounce_count(old(enemies)@.subrange(0, i as int), vp),
            bounced <= i,
        decreases enemies@.len() - i,
    {
        proof {
            assert(old(enemies)@.subrange(0, i + 1).drop_last() =~= old(enemies)@.subrange(
                0,
                i as int,
            ));
            assert(old(enemies)@.subrange(0, i + 1).last() == old(enemies)@[i as int]);
        }
        let e = enemies[i];
        match calculate_new_direction(e.direction, e.position, vp, ENEMY_HALF_SIZE) {
            Some(nd) => {
                enemies.set(i, Enemy { position: e.position, direction: nd });
                bounced = bounced + 1;
            },
            None => {},
        }
        i = i + 1;
    }
    proof {
        assert(old(enemies)@.subrange(0, old(enemies)@.len() as int) =~= old(enemies)@);
    }
    bounced
}

} // verus!

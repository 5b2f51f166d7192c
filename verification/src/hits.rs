//! Collision responses: what a frame does when the player touches a star
//! (score one point, remove the star) or an enemy touches the player
//! (remove the player, emit a game-over event per touching enemy).

use vstd::prelude::*;
use crate::geometry::{Vec2, in_coord_range};
use crate::entities::{Enemy, PLAYER_HALF_SIZE, ENEMY_HALF_SIZE, STAR_HALF_SIZE};
use crate::collision::{circles_collide, circular_collision};
use crate::score::{Score, GameOver};

verus! {

/// The player at `player` touches the star at `star`.
pub open spec fn star_hit(player: Vec2, star: Vec2) -> bool {
    circles_collide(player, PLAYER_HALF_SIZE, star, STAR_HALF_SIZE)
}

/// The enemy `e` touches the player at `player`.
pub open spec fn enemy_hit(player: Vec2, e: Enemy) -> bool {
    circles_collide(player, PLAYER_HALF_SIZE, e.position, ENEMY_HALF_SIZE)
}

/// The stars of `stars` that the player does not touch, in their
/// original order.
pub open spec fn surviving_stars(stars: Seq<Vec2>, player: Vec2) -> Seq<Vec2>
    decreases stars.len(),
{
    if stars.len() == 0 {
        Seq::empty()
    } else {
        let rest = surviving_stars(stars.drop_last(), player);
        if star_hit(player, stars.last()) {
            rest
        } else {
            rest.push(stars.last())
        }
    }
}

/// How many stars of `stars` the player touches.
pub open spec fn stars_hit_count(stars: Seq<Vec2>, player: Vec2) -> nat
    decreases stars.len(),
{
    if stars.len() == 0 {
        0
    } else {
        stars_hit_count(stars.drop_last(), player) + if star_hit(player, stars.last()) {
            1nat
        } else {
            0nat
        }
    }
}

/// How many enemies of `enemies` touch the player.
pub open spec fn enemy_hit_count(enemies: Seq<Enemy>, player: Vec2) -> nat
    decreases enemies.len(),
{
    if enemies.len() == 0 {
        0
    } else {
        enemy_hit_count(enemies.drop_last(), player) + if enemy_hit(player, enemies.last()) {
            1nat
        } else {
            0nat
        }
    }
}

/// Every star is either removed or survives: the surviving stars and
/// the touched stars together account for the whole batch, so the
/// score rises by exactly the number of stars removed.
pub proof fn lemma_star_conservation(stars: Seq<Vec2>, player: Vec2)
    ensures
        surviving_stars(stars, player).len() + stars_hit_count(stars, player) == stars.len(),
    decreases stars.len(),
{
    if stars.len() > 0 {
        lemma_star_conservation(stars.drop_last(), player);
    }
}

/// No surviving star touches the player: exactly the touched stars
/// were removed.
pub proof fn lemma_surviving_stars_not_hit(stars: Seq<Vec2>, player: Vec2)
    ensures
        forall|i: int|
            0 <= i < surviving_stars(stars, player).len() ==> !star_hit(
                player,
                #[trigger] surviving_stars(stars, player)[i],
            ),
    decreases stars.len(),
{
    if stars.len() > 0 {
        lemma_surviving_stars_not_hit(stars.drop_last(), player);
        let rest = surviving_stars(stars.drop_last(), player);
        if !star_hit(player, stars.last()) {
            assert forall|i: int|
                0 <= i < surviving_stars(stars, player).len() implies !star_hit(
                player,
                #[trigger] surviving_stars(stars, player)[i],
            ) by {
                if i < rest.len() {
                    assert(surviving_stars(stars, player)[i] == rest[i]);
                } else {
                    assert(surviving_stars(stars, player)[i] == stars.last());
                }
            }
        }
    }
}

/// Every star the player touches is removed and scores exactly one
/// point; untouched stars survive in order; the score never decreases.
pub fn player_hit_star(player: Vec2, stars: &mut Vec<Vec2>, score: &mut Score) -> (hits: usize)
    requires
        in_coord_range(player),
        forall|i: int| 0 <= i < old(stars)@.len() ==> in_coord_range(old(stars)@[i]),
        old(score).value + old(stars)@.len() <= u32::MAX,
    ensures
        final(stars)@ == surviving_stars(old(stars)@, player),
        hits == stars_hit_count(old(stars)@, player),
        final(score).value == old(score).value + stars_hit_count(old(stars)@, player),
        final(score).value >= old(score).value,
{
    let ghost all = stars@;
    let mut kept: Vec<Vec2> = Vec::new();
    let mut hits: usize = 0;
    let mut i: usize = 0;
    while i < stars.len()
        invariant
            0 <= i <= all.len(),
            stars@ == all,
            forall|k: int| 0 <= k < all.len() ==> in_coord_range(all[k]),
            in_coord_range(player),
            kept@ == surviving_stars(all.subrange(0, i as int), player),
            hits == stars_hit_count(all.subrange(0, i as int), player),
            hits <= i,
            score.value == old(score).value + hits,
            old(score).value + all.len() <= u32::MAX,
        decreases all.len() - i,
    {
        let star = stars[i];
        proof {
            assert(all.subrange(0, i + 1).drop_last() =~= all.subrange(0, i as int));
            assert(all.subrange(0, i + 1).last() == all[i as int]);
        }
        if circular_collision(player, PLAYER_HALF_SIZE, star, STAR_HALF_SIZE) {
            score.value = score.value + 1;
            hits = hits + 1;
        } else {
            kept.push(star);
        }
        i = i + 1;
    }
    proof {
        assert(all.subrange(0, all.len() as int) =~= all);
    }
    *stars = kept;
    hits
}

/// If a player is present and any enemy touches it, the player is
/// removed and one game-over event carrying the current score is emitted
/// per touching enemy; otherwise nothing changes.
pub fn enemy_hit_player(
    player: &mut Option<Vec2>,
    enemies: &Vec<Enemy>,
    score: &Score,
) -> (events: Vec<GameOver>)
    requires
        (*old(player)) matches Some(p) ==> in_coord_range(p),
        forall|i: int| 0 <= i < enemies@.len() ==> in_coord_range(enemies@[i].position),
    ensures
        match *old(player) {
            None => *final(player) is None && events@.len() == 0,
            Some(p) => {
                &&& events@.len() == enemy_hit_count(enemies@, p)
                &&& forall|j: int|
                    0 <= j < events@.len() ==> events@[j] == (GameOver { score: score.value })
                &&& *final(player) == if enemy_hit_count(enemies@, p) > 0 {
                    None::<Vec2>
                } else {
                    Some(p)
                }
            },
        },
{
    let mut events: Vec<GameOver> = Vec::new();
    match *player {
        None => events,
        Some(p) => {
            let mut i: usize = 0;
            while i < enemies.len()
                invariant
                    0 <= i <= enemies@.len(),
                    in_coord_range(p),
                    forall|k: int| 0 <= k < enemies@.len() ==> in_coord_range(enemies@[k].position),
                    events@.len() == enemy_hit_count(enemies@.subrange(0, i as int), p),
                    forall|j: int|
                        0 <= j < events@.len() ==> events@[j] == (GameOver { score: score.value }),
                decreases enemies@.len() - i,
            {
                proof {
                    assert(enemies@.subrange(0, i + 1).drop_last() =~= enemies@.subrange(
                        0,
                        i as int,
                    ));
                    assert(enemies@.subrange(0, i + 1).last() == enemies@[i as int]);
                }
                let e = enemies[i];
                if circular_collision(p, PLAYER_HALF_SIZE, e.position, ENEMY_HALF_SIZE) {
                    events.push(GameOver { score: score.value });
                }
                i = i + 1;
            }
            proof {
                assert(enemies@.subrange(0, enemies@.len() as int) =~= enemies@);
            }
            if events.len() > 0 {
                *player = None;
            }
            events
        },
    }
}

} // verus!

//! Circular collision detection: two circles collide when the distance
//! between their centers is strictly less than the sum of their radii.
//! The comparison is made on squared distances, which is exact in
//! integers and equivalent for non-negative radii.

use vstd::prelude::*;
use crate::geometry::{Vec2, COORD_LIMIT, in_coord_range};

verus! {

/// The squared Euclidean distance between `a` and `b`.
pub open spec fn dist_sq(a: Vec2, b: Vec2) -> int {
    (a.x - b.x) * (a.x - b.x) + (a.y - b.y) * (a.y - b.y)
}

/// Two circles of radii `ra` and `rb` centered at `a` and `b` collide:
/// their center distance is strictly below `ra + rb`, stated on squares.
pub open spec fn circles_collide(a: Vec2, ra: i64, b: Vec2, rb: i64) -> bool {
    dist_sq(a, b) < (ra + rb) * (ra + rb)
}

/// The collision predicate is symmetric in its two circles.
pub proof fn lemma_collision_symmetric(a: Vec2, ra: i64, b: Vec2, rb: i64)
    ensures
        circles_collide(a, ra, b, rb) == circles_collide(b, rb, a, ra),
{
    assert((a.x - b.x) * (a.x - b.x) == (b.x - a.x) * (b.x - a.x)) by (nonlinear_arith);
    assert((a.y - b.y) * (a.y - b.y) == (b.y - a.y) * (b.y - a.y)) by (nonlinear_arith);
}

/// The collision threshold is exact: circles whose center distance equals
/// the sum of their radii do not collide.
pub proof fn lemma_collision_threshold_exact(a: Vec2, ra: i64, b: Vec2, rb: i64)
    requires
        dist_sq(a, b) == (ra + rb) * (ra + rb),
    ensures
        !circles_collide(a, ra, b, rb),
{
}

/// Decides whether the two circles collide.
pub fn circular_collision(a: Vec2, ra: i64, b: Vec2, rb: i64) -> (r: bool)
    requires
        in_coord_range(a),
        in_coord_range(b),
        0 <= ra <= COORD_LIMIT,
        0 <= rb <= COORD_LIMIT,
    ensures
        r == circles_collide(a, ra, b, rb),
{
    let dx: i128 = a.x as i128 - b.x as i128;
    let dy: i128 = a.y as i128 - b.y as i128;
    let sum: i128 = ra as i128 + rb as i128;
    proof {
        assert(dx * dx <= 4 * (COORD_LIMIT as int) * (COORD_LIMIT as int)) by (nonlinear_arith)
            requires -2 * (COORD_LIMIT as int) <= dx <= 2 * (COORD_LIMIT as int);
        assert(dy * dy <= 4 * (COORD_LIMIT as int) * (COORD_LIMIT as int)) by (nonlinear_arith)
            requires -2 * (COORD_LIMIT as int) <= dy <= 2 * (COORD_LIMIT as int);
        assert(0 <= dx * dx) by (nonlinear_arith);
        assert(0 <= dy * dy) by (nonlinear_arith);
        assert(sum * sum <= 4 * (COORD_LIMIT as int) * (COORD_LIMIT as int)) by (nonlinear_arith)
            requires 0 <= sum <= 2 * (COORD_LIMIT as int);
    }
    let d2: i128 = dx * dx + dy * dy;
    let s2: i128 = sum * sum;
    d2 < s2
}

} // verus!

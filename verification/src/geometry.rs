//! Two-dimensional fixed-point vectors and the viewport they live in.

use vstd::prelude::*;

verus! {

/// Fixed-point scale of a unit-length direction vector: a direction whose
/// Euclidean norm is (approximately) one screen unit has norm `DIR_SCALE`
/// in stored components.
pub const DIR_SCALE: i64 = 1000;

/// Every coordinate handled by the gameplay rules stays within this bound,
/// so that squared distances fit in `i128` and sums fit in `i64`.
pub const COORD_LIMIT: i64 = 0x1000_0000_0000_0000;

/// A two-dimensional vector of fixed-point coordinates.
#[derive(Clone, Copy, PartialEq, Eq, Structural, Debug)]
pub struct Vec2 {
    pub x: i64,
    pub y: i64,
}

/// The absolute value of `x`.
pub open spec fn abs_val(x: int) -> int {
    if x < 0 {
        -x
    } else {
        x
    }
}

/// Both coordinates of `v` lie within `COORD_LIMIT` in magnitude.
pub open spec fn in_coord_range(v: Vec2) -> bool {
    -COORD_LIMIT <= v.x <= COORD_LIMIT && -COORD_LIMIT <= v.y <= COORD_LIMIT
}

impl Vec2 {
    /// Builds the vector with the given coordinates.
    pub fn new(x: i64, y: i64) -> (r: Vec2)
        ensures
            r.x == x,
            r.y == y,
    {
        Vec2 { x, y }
    }
}

/// The integer square root of `n`: the largest `r` with `r * r <= n`.
pub open spec fn sqrt_floor(n: nat) -> nat
    decreases n,
{
    if n == 0 {
        0
    } else {
        let r = sqrt_floor((n - 1) as nat);
        if (r + 1) * (r + 1) <= n {
            r + 1
        } else {
            r
        }
    }
}

/// `sqrt_floor(n)` squares to at most `n`, and the next integer
/// squares to more.
pub proof fn lemma_sqrt_floor_bounds(n: nat)
    ensures
        sqrt_floor(n) * sqrt_floor(n) <= n < (sqrt_floor(n) + 1) * (sqrt_floor(n) + 1),
    decreases n,
{
    if n == 0 {
        assert(sqrt_floor(n) == 0);
        assert(0int * 0 == 0 && (0int + 1) * (0int + 1) == 1) by (nonlinear_arith);
    } else {
        lemma_sqrt_floor_bounds((n - 1) as nat);
        let r = sqrt_floor((n - 1) as nat);
        if (r + 1) * (r + 1) <= n {
            assert(sqrt_floor(n) == r + 1);
            assert((r + 1 + 1) * (r + 1 + 1) > n) by (nonlinear_arith)
                requires
                    n - 1 < (r + 1) * (r + 1),
            ;
        } else {
            assert(sqrt_floor(n) == r);
        }
    }
}

/// The square-root bounds pin the root down: anything that squares to
/// at most `n` while its successor squares to more is `sqrt_floor(n)`.
pub proof fn lemma_sqrt_floor_unique(n: nat, r: nat)
    requires
        r * r <= n < (r + 1) * (r + 1),
    ensures
        r == sqrt_floor(n),
{
    lemma_sqrt_floor_bounds(n);
    let s = sqrt_floor(n);
    if r < s {
        assert((r + 1) * (r + 1) <= s * s) by (nonlinear_arith)
            requires
                0 <= r + 1 <= s,
        ;
    }
    if s < r {
        assert((s + 1) * (s + 1) <= r * r) by (nonlinear_arith)
            requires
                0 <= s + 1 <= r,
        ;
    }
}

/// One component of a vector scaled to unit length in fixed point:
/// `v * DIR_SCALE` over the length of the vector, truncated towards
/// zero. `n` is the squared length of the vector.
pub open spec fn scaled_component(v: int, n: nat) -> int {
    let len = sqrt_floor(n) as int;
    if v < 0 {
        -(((-v) * DIR_SCALE) / len)
    } else {
        (v * DIR_SCALE) / len
    }
}

/// `d` is the fixed-point normalization of the draw `(rx, ry)`: each
/// component scaled by `DIR_SCALE` over the draw's length, and the
/// zero draw, which has no direction, replaced by the unit vector
/// along the x axis.
pub open spec fn normalizes(rx: int, ry: int, d: Vec2) -> bool {
    if rx == 0 && ry == 0 {
        d == (Vec2 { x: DIR_SCALE, y: 0 })
    } else {
        d.x == scaled_component(rx, (rx * rx + ry * ry) as nat) && d.y == scaled_component(
            ry,
            (rx * rx + ry * ry) as nat,
        )
    }
}

/// `d` is the normalization of some draw whose components lie within
/// one fixed-point unit each way: exactly the directions that a random
/// draw can produce.
pub open spec fn from_random_draw(d: Vec2) -> bool {
    exists|rx: int, ry: int|
        #![trigger normalizes(rx, ry, d)]
        -DIR_SCALE <= rx <= DIR_SCALE && -DIR_SCALE <= ry <= DIR_SCALE && normalizes(rx, ry, d)
}

/// The rectangle the game is played in: coordinates range over
/// `[0, width] x [0, height]` in milli-units.
#[derive(Clone, Copy, PartialEq, Eq, Structural, Debug)]
pub struct Viewport {
    pub width: i64,
    pub height: i64,
}

/// A viewport with positive extent that stays within the coordinate bound.
pub open spec fn viewport_wf(vp: Viewport) -> bool {
    0 < vp.width <= COORD_LIMIT && 0 < vp.height <= COORD_LIMIT
}

impl Viewport {
    /// Builds the viewport with the given extent.
    pub fn new(width: i64, height: i64) -> (r: Viewport)
        ensures
            r.width == width,
            r.height == height,
    {
        Viewport { width, height }
    }
}

} // verus!

//! The play area: limits derived from the viewport and an entity's
//! half-size, and axis-wise confinement of positions to those limits.

use vstd::prelude::*;
use crate::geometry::{Vec2, Viewport, COORD_LIMIT, viewport_wf};

verus! {

/// `x` clamped to the closed interval `[lo, hi]`.
pub open spec fn clamped(x: int, lo: int, hi: int) -> int {
    if x < lo {
        lo
    } else if x > hi {
        hi
    } else {
        x
    }
}

/// A half-size that the play-area arithmetic can handle.
pub open spec fn half_size_wf(half_size: i64) -> bool {
    0 <= half_size <= COORD_LIMIT
}

/// An entity of the given half-size fits in the viewport: both play-area
/// intervals are non-empty.
pub open spec fn fits_viewport(vp: Viewport, half_size: i64) -> bool {
    2 * half_size <= vp.width && 2 * half_size <= vp.height
}

/// The position `v` lies in the play area of an entity with the given
/// half-size: at least `half_size` away from every viewport edge.
pub open spec fn in_play_area(v: Vec2, vp: Viewport, half_size: i64) -> bool {
    half_size <= v.x <= vp.width - half_size && half_size <= v.y <= vp.height - half_size
}

/// `x` clamped to `[lo, hi]`.
pub fn clamp_i64(x: i64, lo: i64, hi: i64) -> (r: i64)
    requires
        lo <= hi,
    ensures
        r == clamped(x as int, lo as int, hi as int),
        lo <= r <= hi,
{
    if x < lo {
        lo
    } else if x > hi {
        hi
    } else {
        x
    }
}

/// The play-area limits `(x_min, y_min, x_max, y_max)` of an entity with
/// the given half-size: `half_size` in from every edge of the viewport.
pub fn calculate_play_area_limits(half_size: i64, vp: Viewport) -> (r: (i64, i64, i64, i64))
    requires
        viewport_wf(vp),
        half_size_wf(half_size),
    ensures
        r.0 == half_size,
        r.1 == half_size,
        r.2 == vp.width - half_size,
        r.3 == vp.height - half_size,
{
    let x_min = half_size;
    let y_min = half_size;
    let x_max = vp.width - half_size;
    let y_max = vp.height - half_size;
    (x_min, y_min, x_max, y_max)
}

/// Confines `v` axis-wise to the play area of an entity with the given
/// half-size. The result always lies in the play area, whatever `v` was.
pub fn clamp_half_sized_to_window(v: Vec2, vp: Viewport, half_size: i64) -> (r: Vec2)
    requires
        viewport_wf(vp),
        half_size_wf(half_size),
        fits_viewport(vp, half_size),
    ensures
        r.x == clamped(v.x as int, half_size as int, vp.width - half_size),
        r.y == clamped(v.y as int, half_size as int, vp.height - half_size),
        in_play_area(r, vp, half_size),
{
    let (x_min, y_min, x_max, y_max) = calculate_play_area_limits(half_size, vp);
    Vec2 { x: clamp_i64(v.x, x_min, x_max), y: clamp_i64(v.y, y_min, y_max) }
}

} // verus!

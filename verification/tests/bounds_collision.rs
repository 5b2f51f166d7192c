use ball_game::geometry::{Vec2, Viewport};
use ball_game::bounds::{calculate_play_area_limits, clamp_half_sized_to_window, clamp_i64};
use ball_game::collision::circular_collision;

fn vp() -> Viewport {
    Viewport::new(800_000, 600_000)
}

#[test]
fn clamp_scalar_low_high_inside() {
    assert_eq!(clamp_i64(-7, 10, 20), 10);
    assert_eq!(clamp_i64(25, 10, 20), 20);
    assert_eq!(clamp_i64(15, 10, 20), 15);
    assert_eq!(clamp_i64(10, 10, 20), 10);
    assert_eq!(clamp_i64(20, 10, 20), 20);
}

#[test]
fn play_area_limits_inset_by_half_size() {
    let (x_min, y_min, x_max, y_max) = calculate_play_area_limits(32_000, vp());
    assert_eq!(x_min, 32_000);
    assert_eq!(y_min, 32_000);
    assert_eq!(x_max, 768_000);
    assert_eq!(y_max, 568_000);
}

#[test]
fn confinement_clamps_arbitrary_positions_into_play_area() {
    let p = clamp_half_sized_to_window(Vec2::new(-5, 700_000), vp(), 32_000);
    assert_eq!(p, Vec2::new(32_000, 568_000));
    let q = clamp_half_sized_to_window(Vec2::new(900_000, -123_456), vp(), 32_000);
    assert_eq!(q, Vec2::new(768_000, 32_000));
    let r = clamp_half_sized_to_window(Vec2::new(400_000, 300_000), vp(), 32_000);
    assert_eq!(r, Vec2::new(400_000, 300_000));
}

#[test]
fn confinement_keeps_every_sampled_position_in_bounds() {
    let mut x: i64 = -1_000_000;
    while x <= 1_800_000 {
        let p = clamp_half_sized_to_window(Vec2::new(x, x / 2), vp(), 15_000);
        assert!(15_000 <= p.x && p.x <= 785_000);
        assert!(15_000 <= p.y && p.y <= 585_000);
        x += 37_777;
    }
}

#[test]
fn collision_threshold_is_exact_and_not_inclusive() {
    let a = Vec2::new(0, 0);
    // Center distance exactly the radius sum: no collision.
    let b = Vec2::new(64_000, 0);
    assert!(!circular_collision(a, 32_000, b, 32_000));
    // One unit closer: collision.
    let c = Vec2::new(63_999, 0);
    assert!(circular_collision(a, 32_000, c, 32_000));
}

#[test]
fn collision_threshold_exact_on_diagonal() {
    // A 3-4-5 triangle: distance is exactly 5.
    let a = Vec2::new(0, 0);
    let b = Vec2::new(3, 4);
    assert!(!circular_collision(a, 2, b, 3));
    assert!(circular_collision(a, 3, b, 3));
}

#[test]
fn collision_is_symmetric() {
    let a = Vec2::new(123, -456);
    let b = Vec2::new(-789, 1_011);
    assert_eq!(
        circular_collision(a, 900, b, 700),
        circular_collision(b, 700, a, 900)
    );
    assert_eq!(
        circular_collision(a, 2_000, b, 700),
        circular_collision(b, 700, a, 2_000)
    );
}

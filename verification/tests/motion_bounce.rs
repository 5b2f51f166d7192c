use ball_game::geometry::{Vec2, Viewport};
use ball_game::entities::Enemy;
use ball_game::motion::{
    MoveInput, player_movement, input_direction, enemy_movement, confine_player_movement,
    confine_enemy_movement,
};
use ball_game::bounce::{calculate_new_direction, bounce_enemies_off_edges};

fn vp() -> Viewport {
    Viewport::new(800_000, 600_000)
}

fn keys(left: bool, right: bool, up: bool, down: bool) -> MoveInput {
    MoveInput { left, right, up, down }
}

#[test]
fn single_axis_movement_covers_speed_times_delta() {
    // 500 units per second for one second, in milli-units.
    let m = player_movement(Vec2::new(100_000, 100_000), keys(false, true, false, false), 1000);
    assert_eq!(m, Vec2::new(600_000, 100_000));
    let d = player_movement(Vec2::new(100_000, 100_000), keys(false, false, false, true), 1000);
    assert_eq!(d, Vec2::new(100_000, -400_000));
}

#[test]
fn diagonal_movement_is_normalized() {
    // Both axes held: each axis moves by 707/1000 of the full step.
    let m = player_movement(Vec2::new(100_000, 100_000), keys(false, true, true, false), 1000);
    assert_eq!(m, Vec2::new(453_500, 453_500));
}

#[test]
fn opposite_keys_cancel() {
    let m = player_movement(Vec2::new(100_000, 200_000), keys(true, true, false, false), 1000);
    assert_eq!(m, Vec2::new(100_000, 200_000));
    let d = input_direction(keys(true, true, true, false));
    assert_eq!(d, Vec2::new(0, 1000));
}

#[test]
fn short_frame_movement_truncates() {
    // One millisecond: 1000 * 500_000 * 1 / 1_000_000 = 500 milli-units.
    let m = player_movement(Vec2::new(0, 0), keys(false, true, false, false), 1);
    assert_eq!(m, Vec2::new(500, 0));
}

#[test]
fn enemies_drift_along_their_direction() {
    let mut enemies = vec![
        Enemy { position: Vec2::new(200_000, 200_000), direction: Vec2::new(-707, 707) },
        Enemy { position: Vec2::new(50_000, 60_000), direction: Vec2::new(1000, 0) },
    ];
    enemy_movement(&mut enemies, 500);
    // 707 * 200_000 * 500 / 1_000_000 = 70_700 milli-units.
    assert_eq!(enemies[0].position, Vec2::new(129_300, 270_700));
    assert_eq!(enemies[0].direction, Vec2::new(-707, 707));
    // 1000 * 200_000 * 500 / 1_000_000 = 100_000 milli-units.
    assert_eq!(enemies[1].position, Vec2::new(150_000, 60_000));
}

#[test]
fn player_confinement_respects_player_half_size() {
    let p = confine_player_movement(Vec2::new(10, 999_999), vp());
    assert_eq!(p, Vec2::new(32_000, 568_000));
}

#[test]
fn enemy_confinement_clamps_only_positions() {
    let mut enemies = vec![
        Enemy { position: Vec2::new(-4_000, 300_000), direction: Vec2::new(10, -20) },
        Enemy { position: Vec2::new(400_000, 300_000), direction: Vec2::new(5, 5) },
    ];
    confine_enemy_movement(&mut enemies, vp());
    assert_eq!(enemies[0].position, Vec2::new(32_000, 300_000));
    assert_eq!(enemies[0].direction, Vec2::new(10, -20));
    assert_eq!(enemies[1].position, Vec2::new(400_000, 300_000));
}

#[test]
fn bounce_flips_exactly_the_exceeded_axis() {
    // Left edge: x becomes positive, y untouched.
    let r = calculate_new_direction(Vec2::new(-500, 200), Vec2::new(32_000, 300_000), vp(), 32_000);
    assert_eq!(r, Some(Vec2::new(500, 200)));
    // Right edge: x becomes negative, y untouched.
    let r = calculate_new_direction(Vec2::new(500, -200), Vec2::new(768_000, 300_000), vp(), 32_000);
    assert_eq!(r, Some(Vec2::new(-500, -200)));
    // Bottom edge: y becomes positive, x untouched.
    let r = calculate_new_direction(Vec2::new(300, -400), Vec2::new(400_000, 32_000), vp(), 32_000);
    assert_eq!(r, Some(Vec2::new(300, 400)));
    // Top edge: y becomes negative, x untouched.
    let r = calculate_new_direction(Vec2::new(300, 400), Vec2::new(400_000, 568_000), vp(), 32_000);
    assert_eq!(r, Some(Vec2::new(300, -400)));
}

#[test]
fn bounce_corner_flips_both_axes() {
    let r = calculate_new_direction(Vec2::new(-10, -20), Vec2::new(32_000, 32_000), vp(), 32_000);
    assert_eq!(r, Some(Vec2::new(10, 20)));
}

#[test]
fn no_bounce_inside_the_play_area() {
    let r = calculate_new_direction(Vec2::new(-500, 200), Vec2::new(400_000, 300_000), vp(), 32_000);
    assert_eq!(r, None);
}

#[test]
fn bounce_keeps_an_already_inward_sign() {
    // At the left edge an already-positive x component stays positive.
    let r = calculate_new_direction(Vec2::new(500, 200), Vec2::new(31_000, 300_000), vp(), 32_000);
    assert_eq!(r, Some(Vec2::new(500, 200)));
}

#[test]
fn bouncing_a_batch_counts_and_keeps_positions() {
    let mut enemies = vec![
        Enemy { position: Vec2::new(32_000, 300_000), direction: Vec2::new(-500, 200) },
        Enemy { position: Vec2::new(400_000, 300_000), direction: Vec2::new(-500, 200) },
        Enemy { position: Vec2::new(400_000, 568_000), direction: Vec2::new(300, 400) },
    ];
    let bounced = bounce_enemies_off_edges(&mut enemies, vp());
    assert_eq!(bounced, 2);
    assert_eq!(enemies[0].direction, Vec2::new(500, 200));
    assert_eq!(enemies[0].position, Vec2::new(32_000, 300_000));
    assert_eq!(enemies[1].direction, Vec2::new(-500, 200));
    assert_eq!(enemies[2].direction, Vec2::new(300, -400));
}

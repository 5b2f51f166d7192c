use ball_game::geometry::{Vec2, Viewport};
use ball_game::entities::Enemy;
use ball_game::spawn::{
    normalize_direction, get_enemy_direction, get_player_position_clamped, spawn_player,
    despawn_player, get_enemy_position_clamped, get_star_position_clamped, spawn_enemies,
    despawn_enemies, spawn_enemies_over_time, spawn_stars, despawn_stars, spawn_stars_over_time,
};
use ball_game::timers::{RepeatingTimer, EnemySpawnTimer, StarSpawnTimer};

fn vp() -> Viewport {
    Viewport::new(800_000, 600_000)
}

fn direction_ok(d: Vec2) {
    assert!(-1000 <= d.x && d.x <= 1000);
    assert!(-1000 <= d.y && d.y <= 1000);
    assert!(!(d.x == 0 && d.y == 0));
}

#[test]
fn normalization_scales_to_a_unit_vector() {
    assert_eq!(normalize_direction(500, 0), Vec2::new(1000, 0));
    assert_eq!(normalize_direction(-300, 400), Vec2::new(-600, 800));
    assert_eq!(normalize_direction(0, -250), Vec2::new(0, -1000));
    // isqrt(98) is 9, so 7000 / 9 truncates to 777.
    assert_eq!(normalize_direction(7, -7), Vec2::new(777, -777));
    // The zero vector has no direction and falls back to the x axis.
    assert_eq!(normalize_direction(0, 0), Vec2::new(1000, 0));
}

#[test]
fn random_directions_are_well_formed() {
    for _ in 0..200 {
        direction_ok(get_enemy_direction());
    }
}

#[test]
fn player_spawns_at_the_viewport_center() {
    assert_eq!(get_player_position_clamped(vp()), Vec2::new(400_000, 300_000));
    assert_eq!(spawn_player(vp()), Vec2::new(400_000, 300_000));
    // A viewport smaller than the player still yields an in-bounds spot.
    let tiny = Viewport::new(70_000, 64_000);
    let p = spawn_player(tiny);
    assert_eq!(p, Vec2::new(35_000, 32_000));
}

#[test]
fn despawning_the_player_leaves_none() {
    let mut player = Some(Vec2::new(1, 2));
    despawn_player(&mut player);
    assert_eq!(player, None);
}

#[test]
fn random_spawn_positions_stay_in_the_play_area() {
    for _ in 0..100 {
        let e = get_enemy_position_clamped(vp());
        assert!(32_000 <= e.x && e.x <= 768_000);
        assert!(32_000 <= e.y && e.y <= 568_000);
        let s = get_star_position_clamped(vp());
        assert!(15_000 <= s.x && s.x <= 785_000);
        assert!(15_000 <= s.y && s.y <= 585_000);
    }
}

#[test]
fn random_draws_actually_vary() {
    // A generator stuck on one value would make every spawn identical.
    let first = get_enemy_position_clamped(vp());
    let mut saw_other_position = false;
    for _ in 0..100 {
        if get_enemy_position_clamped(vp()) != first {
            saw_other_position = true;
        }
    }
    assert!(saw_other_position);
    let first_dir = get_enemy_direction();
    let mut saw_other_direction = false;
    for _ in 0..100 {
        if get_enemy_direction() != first_dir {
            saw_other_direction = true;
        }
    }
    assert!(saw_other_direction);
}

#[test]
fn a_game_starts_with_four_enemies_and_ten_stars() {
    let enemies = spawn_enemies(vp());
    assert_eq!(enemies.len(), 4);
    for e in &enemies {
        assert!(32_000 <= e.position.x && e.position.x <= 768_000);
        assert!(32_000 <= e.position.y && e.position.y <= 568_000);
        direction_ok(e.direction);
    }
    let stars = spawn_stars(vp());
    assert_eq!(stars.len(), 10);
    for s in &stars {
        assert!(15_000 <= s.x && s.x <= 785_000);
        assert!(15_000 <= s.y && s.y <= 585_000);
    }
}

#[test]
fn despawning_clears_the_batches() {
    let mut enemies = spawn_enemies(vp());
    despawn_enemies(&mut enemies);
    assert!(enemies.is_empty());
    let mut stars = spawn_stars(vp());
    despawn_stars(&mut stars);
    assert!(stars.is_empty());
}

#[test]
fn a_finished_timer_spawns_exactly_one_more() {
    let finished = EnemySpawnTimer {
        timer: RepeatingTimer { duration_ms: 5000, elapsed_ms: 0, just_finished: true },
    };
    let idle = EnemySpawnTimer {
        timer: RepeatingTimer { duration_ms: 5000, elapsed_ms: 100, just_finished: false },
    };
    let mut enemies: Vec<Enemy> = Vec::new();
    spawn_enemies_over_time(&idle, &mut enemies, vp());
    assert_eq!(enemies.len(), 0);
    spawn_enemies_over_time(&finished, &mut enemies, vp());
    assert_eq!(enemies.len(), 1);
    direction_ok(enemies[0].direction);

    let star_finished = StarSpawnTimer {
        timer: RepeatingTimer { duration_ms: 1000, elapsed_ms: 0, just_finished: true },
    };
    let star_idle = StarSpawnTimer {
        timer: RepeatingTimer { duration_ms: 1000, elapsed_ms: 1, just_finished: false },
    };
    let mut stars: Vec<Vec2> = Vec::new();
    spawn_stars_over_time(&star_idle, &mut stars, vp());
    assert_eq!(stars.len(), 0);
    spawn_stars_over_time(&star_finished, &mut stars, vp());
    assert_eq!(stars.len(), 1);
    assert!(15_000 <= stars[0].x && stars[0].x <= 785_000);
}

use jukebox_cli::game::collide::{aabb_intersect, compact, first_enemy_at, mark_hits};
use jukebox_cli::game::entities::{is_on_screen, resolve_row, Enemy, Projectile, ROW};
use jukebox_cli::game::frame::run_fixed_steps;
use jukebox_cli::game::motion::{step_enemy, step_projectile};
use jukebox_cli::game::scene::GameScene;
use jukebox_cli::game::spawn::Arrival;
use jukebox_cli::game::state::{GameState, Rect};
use jukebox_cli::game::update::{update, update_with};

fn enemy_at(x: u16, row: u64) -> Enemy {
    Enemy { x, y: row * ROW, speed: 10_000, w: 1, h: 1 }
}

fn shot_at(x: u16, row: u64) -> Projectile {
    Projectile { x, y: row * ROW, speed: 40_000 }
}

fn session() -> GameState {
    GameState::new(Rect::new(0, 0, 80, 24), 42, 1_000)
}

#[test]
fn boxes_overlap_when_they_share_a_cell() {
    assert!(aabb_intersect(5, 5, 1, 1, 5, 5, 1, 1));
    assert!(!aabb_intersect(5, 5, 1, 1, 6, 5, 1, 1));
    assert!(!aabb_intersect(5, 5, 1, 1, 5, 6, 1, 1));
    assert!(aabb_intersect(5, 5, 1, 1, 4, 4, 2, 2));
    assert!(!aabb_intersect(5, 5, 1, 1, 3, 3, 2, 2));
    assert!(aabb_intersect(0, 0, 3, 3, 2, 2, 1, 1));
    assert!(!aabb_intersect(0, 0, 3, 3, 3, 0, 1, 1));
}

#[test]
fn a_box_without_extent_covers_its_first_cell() {
    assert!(aabb_intersect(5, 5, 0, 0, 5, 5, 1, 1));
    assert!(aabb_intersect(5, 5, 1, 1, 5, 5, 0, 0));
    assert!(!aabb_intersect(5, 5, 0, 0, 6, 5, 1, 1));
}

#[test]
fn boxes_at_the_far_corner_do_not_wrap() {
    assert!(aabb_intersect(65_535, 65_535, 10, 10, 65_535, 65_535, 1, 1));
    assert!(!aabb_intersect(65_530, 0, 65_535, 1, 65_529, 0, 1, 1));
    assert!(aabb_intersect(65_530, 0, 65_535, 1, 65_535, 0, 1, 1));
}

#[test]
fn rows_resolve_to_the_nearest_row_inside_the_borders() {
    assert_eq!(resolve_row(5 * ROW, 24), 5);
    assert_eq!(resolve_row(5 * ROW + 499_999, 24), 5);
    assert_eq!(resolve_row(5 * ROW + 500_000, 24), 6);
    assert_eq!(resolve_row(0, 24), 1);
    assert_eq!(resolve_row(499_999, 24), 1);
    assert_eq!(resolve_row(22 * ROW, 24), 22);
    assert_eq!(resolve_row(23 * ROW, 24), 22);
    assert_eq!(resolve_row(u64::MAX, 24), 22);
    assert_eq!(resolve_row(u64::MAX, 3), 1);
}

#[test]
fn the_visible_field_runs_from_row_one_to_the_bottom_border() {
    assert!(!is_on_screen(ROW - 1, 24));
    assert!(is_on_screen(ROW, 24));
    assert!(is_on_screen(23 * ROW - 1, 24));
    assert!(!is_on_screen(23 * ROW, 24));
    assert!(!is_on_screen(ROW, 0));
    assert!(!is_on_screen(ROW, 2));
}

#[test]
fn an_enemy_falls_by_speed_times_scale_times_step() {
    let e = Enemy { x: 14, y: ROW, speed: 10_000, w: 1, h: 1 };
    assert_eq!(step_enemy(e, 33, 0, 24), Some(Enemy { y: ROW + 330_000, ..e }));
    assert_eq!(step_enemy(e, 33, 33, 24), Some(Enemy { y: ROW + 330_217, ..e }));
    assert_eq!(step_enemy(e, 33, 50_000, 24), Some(Enemy { y: ROW + 660_000, ..e }));
    assert_eq!(step_enemy(e, 0, 50_000, 24), Some(e));
    assert_eq!(step_enemy(e, 1_000, 0, 24), Some(Enemy { y: 11 * ROW, ..e }));
}

#[test]
fn an_enemy_that_leaves_the_field_is_dropped() {
    let e = Enemy { x: 14, y: 22 * ROW, speed: 10_000, w: 1, h: 1 };
    assert_eq!(step_enemy(e, 99, 0, 24), Some(Enemy { y: 22 * ROW + 990_000, ..e }));
    assert_eq!(step_enemy(e, 100, 0, 24), None);
    assert_eq!(step_enemy(e, u64::MAX, u64::MAX, 24), None);
    assert_eq!(step_enemy(Enemy { y: u64::MAX, ..e }, 1, 0, 24), None);
    assert_eq!(step_enemy(Enemy { speed: u32::MAX, ..e }, u64::MAX, 0, 24), None);
    let above = Enemy { x: 14, y: 0, speed: 10_000, w: 1, h: 1 };
    assert_eq!(step_enemy(above, 0, 0, 24), None);
    assert_eq!(step_enemy(above, 99, 0, 24), None);
    assert_eq!(step_enemy(above, 100, 0, 24), Some(Enemy { y: ROW, ..above }));
}

#[test]
fn a_projectile_climbs_by_speed_times_step() {
    let p = Projectile { x: 40, y: 20 * ROW, speed: 40_000 };
    assert_eq!(step_projectile(p, 33), Some(Projectile { y: 20 * ROW - 1_320_000, ..p }));
    assert_eq!(step_projectile(p, 0), Some(p));
    assert_eq!(step_projectile(p, 475), Some(Projectile { y: ROW, ..p }));
    assert_eq!(step_projectile(p, 476), None);
    assert_eq!(step_projectile(p, u64::MAX), None);
}

#[test]
fn the_first_enemy_in_order_is_found() {
    let enemies = vec![enemy_at(14, 5), enemy_at(40, 7), enemy_at(40, 7), enemy_at(66, 9)];
    assert_eq!(first_enemy_at(40, 7, &enemies, 24), Some(1));
    assert_eq!(first_enemy_at(66, 9, &enemies, 24), Some(3));
    assert_eq!(first_enemy_at(66, 8, &enemies, 24), None);
    assert_eq!(first_enemy_at(40, 7, &Vec::new(), 24), None);
}

#[test]
fn marks_follow_the_first_match_in_order() {
    let shots = vec![shot_at(40, 7), shot_at(14, 3), shot_at(40, 7)];
    let enemies = vec![enemy_at(66, 7), enemy_at(40, 7), enemy_at(40, 7)];
    let (used, struck) = mark_hits(&shots, &enemies, 24);
    assert_eq!(used, vec![true, false, true]);
    assert_eq!(struck, vec![false, true, false]);
    assert_eq!(compact(&shots, &used), vec![shot_at(14, 3)]);
    assert_eq!(compact(&enemies, &struck), vec![enemy_at(66, 7), enemy_at(40, 7)]);
}

#[test]
fn a_projectile_and_an_enemy_in_one_cell_both_vanish() {
    let mut s = session();
    s.enemies.push(enemy_at(14, 5));
    s.projectiles.push(shot_at(14, 5));
    s.score = 250;
    update(&mut s, 0, 1_000);
    assert!(s.enemies.is_empty());
    assert!(s.projectiles.is_empty());
    assert_eq!(s.score, 350);
    assert_eq!(s.lives, 3);
}

#[test]
fn a_hit_after_both_have_moved() {
    let mut s = session();
    s.enemies.push(Enemy { x: 14, y: 5 * ROW, speed: 10_000, w: 1, h: 1 });
    s.projectiles.push(Projectile { x: 14, y: 6 * ROW + 800_000, speed: 40_000 });
    update_with(&mut s, 33, 1_000, None);
    assert!(s.enemies.is_empty());
    assert!(s.projectiles.is_empty());
    assert_eq!(s.score, 100);
    assert_eq!(s.elapsed, 33);
}

#[test]
fn a_projectile_destroys_one_enemy_only() {
    let mut s = session();
    s.enemies.push(enemy_at(14, 5));
    s.enemies.push(enemy_at(14, 5));
    s.projectiles.push(shot_at(14, 5));
    update_with(&mut s, 0, 1_000, None);
    assert_eq!(s.enemies, vec![enemy_at(14, 5)]);
    assert!(s.projectiles.is_empty());
    assert_eq!(s.score, 100);
}

#[test]
fn two_projectiles_on_one_enemy_both_score() {
    let mut s = session();
    s.enemies.push(enemy_at(14, 5));
    s.projectiles.push(shot_at(14, 5));
    s.projectiles.push(shot_at(14, 5));
    update_with(&mut s, 0, 1_000, None);
    assert!(s.enemies.is_empty());
    assert!(s.projectiles.is_empty());
    assert_eq!(s.score, 200);
}

#[test]
fn a_wide_enemy_is_hit_on_any_of_its_cells() {
    let mut s = session();
    s.enemies.push(Enemy { x: 14, y: 5 * ROW, speed: 0, w: 3, h: 2 });
    s.projectiles.push(shot_at(16, 6));
    s.projectiles.push(shot_at(17, 6));
    update_with(&mut s, 0, 1_000, None);
    assert!(s.enemies.is_empty());
    assert_eq!(s.projectiles, vec![shot_at(17, 6)]);
    assert_eq!(s.score, 100);
}

#[test]
fn the_score_saturates() {
    let mut s = session();
    s.enemies.push(enemy_at(14, 5));
    s.projectiles.push(shot_at(14, 5));
    s.score = u64::MAX - 50;
    update_with(&mut s, 0, 1_000, None);
    assert_eq!(s.score, u64::MAX);
}

#[test]
fn the_last_life_ends_the_game_and_freezes_it() {
    let mut s = session();
    s.lives = 1;
    s.enemies.push(enemy_at(s.player.x, s.player.y as u64));
    s.enemies.push(Enemy { x: 14, y: 5 * ROW, speed: 10_000, w: 1, h: 1 });
    s.projectiles.push(shot_at(66, 9));
    update(&mut s, 0, 1_000);
    assert_eq!(s.scene, GameScene::GameOver);
    assert_eq!(s.lives, 0);
    assert_eq!(s.invuln_until, Some(2_000));
    let enemies = s.enemies.clone();
    let projectiles = s.projectiles.clone();
    assert_eq!(enemies, vec![enemy_at(14, 5)]);
    update(&mut s, 33, 5_000);
    update(&mut s, 33, 9_000);
    assert_eq!(s.scene, GameScene::GameOver);
    assert_eq!(s.enemies, enemies);
    assert_eq!(s.projectiles, projectiles);
    assert_eq!(s.elapsed, 0);
    assert_eq!(s.last_spawn, 1_000);
    assert_eq!(s.spawn_cooldown, 600);
}

#[test]
fn a_crash_costs_one_life_however_many_enemies_overlap() {
    let mut s = session();
    let (x, y) = (s.player.x, s.player.y as u64);
    s.enemies.push(enemy_at(14, 5));
    s.enemies.push(enemy_at(x, y));
    s.enemies.push(enemy_at(x, y));
    s.enemies.push(enemy_at(66, 9));
    update_with(&mut s, 0, 1_000, None);
    assert_eq!(s.lives, 2);
    assert_eq!(s.scene, GameScene::Running);
    assert_eq!(s.invuln_until, Some(2_000));
    assert_eq!(s.enemies, vec![enemy_at(14, 5), enemy_at(66, 9), enemy_at(x, y)]);
}

#[test]
fn no_damage_while_invulnerable() {
    let mut s = session();
    let (x, y) = (s.player.x, s.player.y as u64);
    s.enemies.push(Enemy { x, y: y * ROW, speed: 0, w: 1, h: 1 });
    s.invuln_until = Some(2_000);
    update_with(&mut s, 0, 1_999, None);
    assert_eq!(s.lives, 3);
    assert_eq!(s.enemies.len(), 1);
    update_with(&mut s, 0, 2_000, None);
    assert_eq!(s.lives, 2);
    assert!(s.enemies.is_empty());
    assert_eq!(s.invuln_until, Some(3_000));
}

#[test]
fn the_invulnerability_window_saturates() {
    let mut s = session();
    let (x, y) = (s.player.x, s.player.y as u64);
    s.enemies.push(enemy_at(x, y));
    s.last_spawn = u64::MAX;
    update_with(&mut s, 0, u64::MAX - 5, None);
    assert_eq!(s.invuln_until, Some(u64::MAX));
}

#[test]
fn enemies_off_the_field_are_gone_after_a_step() {
    let mut s = session();
    s.enemies.push(enemy_at(14, 23));
    s.enemies.push(enemy_at(14, 5));
    s.enemies.push(enemy_at(40, 600));
    s.enemies.push(Enemy { x: 66, y: 0, speed: 0, w: 1, h: 1 });
    s.projectiles.push(shot_at(14, 0));
    s.projectiles.push(shot_at(66, 9));
    update(&mut s, 0, 1_000);
    assert_eq!(s.enemies, vec![enemy_at(14, 5)]);
    assert_eq!(s.projectiles, vec![shot_at(66, 9)]);
}

#[test]
fn every_entity_is_on_the_field_after_each_step() {
    let mut s = session();
    let mut now: u64 = 1_000;
    for round in 0..2_000u64 {
        if round % 7 == 0 {
            s.projectiles.push(shot_at(s.lane_x((round % 3) as u8), 20));
        }
        now += 33;
        update(&mut s, 33, now);
        for e in s.enemies.iter() {
            assert!(is_on_screen(e.y, s.height));
        }
        for p in s.projectiles.iter() {
            assert!(is_on_screen(p.y, s.height));
        }
        assert!(s.lives <= 3);
        assert_eq!(s.scene == GameScene::GameOver, s.lives == 0);
    }
}

#[test]
fn a_paused_session_stands_still() {
    let mut s = session();
    s.enemies.push(enemy_at(14, 5));
    s.projectiles.push(shot_at(14, 9));
    s.scene = GameScene::Paused;
    update(&mut s, 33, 100_000);
    assert_eq!(s.enemies, vec![enemy_at(14, 5)]);
    assert_eq!(s.projectiles, vec![shot_at(14, 9)]);
    assert_eq!(s.elapsed, 0);
    assert_eq!(s.last_spawn, 1_000);
    assert_eq!(s.spawn_cooldown, 600);
}

#[test]
fn a_step_moves_time_and_entities() {
    let mut s = session();
    s.enemies.push(Enemy { x: 14, y: 5 * ROW, speed: 12_000, w: 1, h: 1 });
    s.projectiles.push(Projectile { x: 66, y: 9 * ROW, speed: 40_000 });
    update_with(&mut s, 33, 1_000, None);
    assert_eq!(s.elapsed, 33);
    assert_eq!(s.enemies, vec![Enemy { x: 14, y: 5 * ROW + 396_261, speed: 12_000, w: 1, h: 1 }]);
    assert_eq!(s.projectiles, vec![Projectile { x: 66, y: 9 * ROW - 1_320_000, speed: 40_000 }]);
    assert_eq!(s.score, 0);
}

#[test]
fn elapsed_time_saturates() {
    let mut s = session();
    s.elapsed = u64::MAX - 10;
    update_with(&mut s, 33, 1_000, None);
    assert_eq!(s.elapsed, u64::MAX);
}

#[test]
fn a_step_with_a_given_arrival_adds_that_enemy() {
    let mut s = session();
    update_with(&mut s, 33, 1_600, Some(Arrival { lane: 2, jitter: 1_500 }));
    assert_eq!(s.enemies, vec![Enemy { x: 66, y: ROW, speed: 11_500, w: 1, h: 1 }]);
    assert_eq!(s.last_spawn, 1_600);
    assert_eq!(s.spawn_cooldown, 598);
}

#[test]
fn banked_time_is_drained_in_whole_steps() {
    let mut s = session();
    let rest = run_fixed_steps(&mut s, 100, 1_000);
    assert_eq!(rest, 1);
    assert_eq!(s.elapsed, 99);
    let rest = run_fixed_steps(&mut s, 32, 1_000);
    assert_eq!(rest, 32);
    assert_eq!(s.elapsed, 99);
    let rest = run_fixed_steps(&mut s, 33, 1_000);
    assert_eq!(rest, 0);
    assert_eq!(s.elapsed, 132);
}

#[test]
fn sessions_with_one_seed_run_alike() {
    let mut a = GameState::new(Rect::new(0, 0, 80, 24), 2_024, 0);
    let mut b = GameState::new(Rect::new(0, 0, 80, 24), 2_024, 0);
    let mut now: u64 = 0;
    let mut seen_enemy = false;
    for round in 0..3_000u64 {
        now += 33;
        if round % 11 == 0 {
            a.projectiles.push(shot_at(a.lane_x((round % 3) as u8), 20));
            b.projectiles.push(shot_at(b.lane_x((round % 3) as u8), 20));
        }
        update(&mut a, 33, now);
        update(&mut b, 33, now);
        assert_eq!(a.score, b.score);
        assert_eq!(a.lives, b.lives);
        assert_eq!(a.enemies, b.enemies);
        assert_eq!(a.projectiles, b.projectiles);
        assert_eq!(a.spawn_cooldown, b.spawn_cooldown);
        seen_enemy = seen_enemy || !a.enemies.is_empty();
    }
    assert!(seen_enemy);
}

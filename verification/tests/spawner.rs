use jukebox_cli::game::entities::{Enemy, ROW};
use jukebox_cli::game::spawn::{chance_after, is_spawn_due, maybe_spawn, spawn_with, Arrival};
use jukebox_cli::game::state::{GameState, Rect};

fn session() -> GameState {
    GameState::new(Rect::new(0, 0, 80, 24), 42, 1_000)
}

#[test]
fn the_spawn_chance_ramps_from_a_fifth_to_four_fifths() {
    assert_eq!(chance_after(0), 20_000);
    assert_eq!(chance_after(1_000), 21_000);
    assert_eq!(chance_after(30_000), 50_000);
    assert_eq!(chance_after(59_999), 79_999);
    assert_eq!(chance_after(60_000), 80_000);
    assert_eq!(chance_after(600_000), 80_000);
    assert_eq!(chance_after(u64::MAX), 80_000);
}

#[test]
fn a_spawn_is_due_once_the_cooldown_has_passed() {
    let s = session();
    assert!(!is_spawn_due(&s, 1_000));
    assert!(!is_spawn_due(&s, 1_599));
    assert!(is_spawn_due(&s, 1_600));
    assert!(is_spawn_due(&s, u64::MAX));
    assert!(!is_spawn_due(&s, 0));
}

#[test]
fn nothing_happens_before_a_spawn_is_due() {
    let mut s = session();
    spawn_with(&mut s, 1_599, Some(Arrival { lane: 0, jitter: 0 }));
    assert!(s.enemies.is_empty());
    assert_eq!(s.last_spawn, 1_000);
    assert_eq!(s.spawn_cooldown, 600);
    maybe_spawn(&mut s, 1_599);
    assert!(s.enemies.is_empty());
    assert_eq!(s.last_spawn, 1_000);
    assert_eq!(s.spawn_cooldown, 600);
}

#[test]
fn an_arrival_enters_on_its_lane_in_the_top_row() {
    let mut s = session();
    spawn_with(&mut s, 1_600, Some(Arrival { lane: 0, jitter: 2_000 }));
    assert_eq!(s.enemies, vec![Enemy { x: 14, y: ROW, speed: 12_000, w: 1, h: 1 }]);
    assert_eq!(s.last_spawn, 1_600);
    assert_eq!(s.spawn_cooldown, 598);
    spawn_with(&mut s, 2_198, Some(Arrival { lane: 1, jitter: 0 }));
    assert_eq!(s.enemies.len(), 2);
    assert_eq!(s.enemies[1], Enemy { x: 40, y: ROW, speed: 10_000, w: 1, h: 1 });
    assert_eq!(s.spawn_cooldown, 596);
}

#[test]
fn the_cooldown_tightens_without_an_arrival_too() {
    let mut s = session();
    spawn_with(&mut s, 1_600, None);
    assert!(s.enemies.is_empty());
    assert_eq!(s.last_spawn, 1_600);
    assert_eq!(s.spawn_cooldown, 598);
}

#[test]
fn the_speed_of_an_arrival_saturates() {
    let mut s = session();
    s.base_speed = u32::MAX - 5;
    spawn_with(&mut s, 1_600, Some(Arrival { lane: 2, jitter: 2_000 }));
    assert_eq!(s.enemies[0].speed, u32::MAX);
    assert_eq!(s.enemies[0].x, 66);
}

#[test]
fn the_cooldown_converges_to_its_floor() {
    let mut s = session();
    let mut now: u64 = 1_000;
    let mut last = s.spawn_cooldown;
    for round in 1..=400u64 {
        now += 600;
        maybe_spawn(&mut s, now);
        assert!(s.spawn_cooldown <= last);
        assert!(s.spawn_cooldown >= 150);
        if round <= 225 {
            assert_eq!(s.spawn_cooldown, 600 - 2 * round);
        } else {
            assert_eq!(s.spawn_cooldown, 150);
        }
        last = s.spawn_cooldown;
    }
    assert_eq!(s.spawn_cooldown, 150);
}

#[test]
fn a_cooldown_just_above_the_floor_stops_at_the_floor() {
    let mut s = session();
    s.spawn_cooldown = 151;
    spawn_with(&mut s, 5_000, None);
    assert_eq!(s.spawn_cooldown, 150);
    spawn_with(&mut s, 10_000, None);
    assert_eq!(s.spawn_cooldown, 150);
}

#[test]
fn the_generator_varies_lanes_and_speeds_within_their_ranges() {
    let mut s = session();
    let centers = [s.lane_x(0), s.lane_x(1), s.lane_x(2)];
    let mut lanes_seen = [false; 3];
    let mut slowest = u32::MAX;
    let mut fastest = 0u32;
    let mut opportunities = 0u32;
    let mut now: u64 = 1_000;
    for _ in 0..600 {
        now += 600;
        let before = s.enemies.len();
        maybe_spawn(&mut s, now);
        opportunities += 1;
        assert!(s.enemies.len() == before || s.enemies.len() == before + 1);
        assert_eq!(s.last_spawn, now);
    }
    for e in s.enemies.iter() {
        let lane = centers.iter().position(|c| *c == e.x);
        assert!(lane.is_some());
        lanes_seen[lane.unwrap()] = true;
        assert!(e.speed >= 10_000 && e.speed <= 12_000);
        assert_eq!(e.y, ROW);
        assert_eq!((e.w, e.h), (1, 1));
        slowest = slowest.min(e.speed);
        fastest = fastest.max(e.speed);
    }
    assert_eq!(lanes_seen, [true, true, true]);
    assert!(slowest < fastest);
    assert!(fastest - slowest > 1_000);
    let arrived = s.enemies.len() as u32;
    assert!(arrived > 0 && arrived < opportunities);
}

#[test]
fn the_chance_of_an_arrival_grows_with_the_time_played() {
    let mut early = session();
    let mut late = session();
    late.elapsed = 60_000;
    let mut now: u64 = 1_000;
    for _ in 0..1_000 {
        now += 600;
        maybe_spawn(&mut early, now);
        maybe_spawn(&mut late, now);
    }
    let few = early.enemies.len();
    let many = late.enemies.len();
    assert!(few > 100 && few < 300, "{}", few);
    assert!(many > 700 && many < 900, "{}", many);
}

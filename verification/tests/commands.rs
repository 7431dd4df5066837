use jukebox_cli::game::command::{apply_command, Signal};
use jukebox_cli::game::entities::{Projectile, ROW};
use jukebox_cli::game::input::{map_key, GameCmd, KeyCode, KeyEvent, KeyEventKind};
use jukebox_cli::game::scene::GameScene;
use jukebox_cli::game::state::{GameState, Rect};

fn press(code: KeyCode) -> KeyEvent {
    KeyEvent { code, kind: KeyEventKind::Press }
}

fn session() -> GameState {
    GameState::new(Rect::new(0, 0, 80, 24), 42, 1_000)
}

#[test]
fn keys_map_to_their_commands() {
    assert_eq!(map_key(press(KeyCode::Char('a'))), Some(GameCmd::MoveLeft));
    assert_eq!(map_key(press(KeyCode::Left)), Some(GameCmd::MoveLeft));
    assert_eq!(map_key(press(KeyCode::Char('d'))), Some(GameCmd::MoveRight));
    assert_eq!(map_key(press(KeyCode::Right)), Some(GameCmd::MoveRight));
    assert_eq!(map_key(press(KeyCode::Char('w'))), Some(GameCmd::MoveUp));
    assert_eq!(map_key(press(KeyCode::Up)), Some(GameCmd::MoveUp));
    assert_eq!(map_key(press(KeyCode::Char('s'))), Some(GameCmd::MoveDown));
    assert_eq!(map_key(press(KeyCode::Down)), Some(GameCmd::MoveDown));
    assert_eq!(map_key(press(KeyCode::Char(' '))), Some(GameCmd::Fire));
    assert_eq!(map_key(press(KeyCode::Char('p'))), Some(GameCmd::Pause));
    assert_eq!(map_key(press(KeyCode::Esc)), Some(GameCmd::Exit));
    assert_eq!(map_key(press(KeyCode::Char('q'))), Some(GameCmd::Exit));
    assert_eq!(map_key(press(KeyCode::Char('r'))), Some(GameCmd::Restart));
    assert_eq!(map_key(press(KeyCode::Char('m'))), Some(GameCmd::ToggleMusic));
}

#[test]
fn unknown_keys_map_to_nothing() {
    assert_eq!(map_key(press(KeyCode::Char('x'))), None);
    assert_eq!(map_key(press(KeyCode::Char('A'))), None);
    assert_eq!(map_key(press(KeyCode::Other)), None);
}

#[test]
fn releases_and_repeats_map_to_nothing() {
    assert_eq!(map_key(KeyEvent { code: KeyCode::Char('a'), kind: KeyEventKind::Release }), None);
    assert_eq!(map_key(KeyEvent { code: KeyCode::Left, kind: KeyEventKind::Repeat }), None);
    assert_eq!(map_key(KeyEvent { code: KeyCode::Esc, kind: KeyEventKind::Release }), None);
}

#[test]
fn moves_to_the_side_stay_within_the_lanes() {
    let mut s = session();
    assert_eq!(apply_command(&mut s, GameCmd::MoveLeft, 1_000, 0), Signal::Continue);
    assert_eq!((s.player.lane, s.player.x), (0, 14));
    apply_command(&mut s, GameCmd::MoveLeft, 1_000, 0);
    assert_eq!((s.player.lane, s.player.x), (0, 14));
    apply_command(&mut s, GameCmd::MoveRight, 1_000, 0);
    assert_eq!((s.player.lane, s.player.x), (1, 40));
    apply_command(&mut s, GameCmd::MoveRight, 1_000, 0);
    assert_eq!((s.player.lane, s.player.x), (2, 66));
    apply_command(&mut s, GameCmd::MoveRight, 1_000, 0);
    assert_eq!((s.player.lane, s.player.x), (2, 66));
}

#[test]
fn moves_up_and_down_stay_between_the_borders() {
    let mut s = session();
    assert_eq!(s.player.y, 21);
    apply_command(&mut s, GameCmd::MoveDown, 1_000, 0);
    assert_eq!(s.player.y, 22);
    apply_command(&mut s, GameCmd::MoveDown, 1_000, 0);
    assert_eq!(s.player.y, 22);
    for _ in 0..30 {
        apply_command(&mut s, GameCmd::MoveUp, 1_000, 0);
    }
    assert_eq!(s.player.y, 1);
    apply_command(&mut s, GameCmd::MoveDown, 1_000, 0);
    assert_eq!(s.player.y, 2);
    assert_eq!(s.player.x, 40);
}

#[test]
fn fire_puts_a_shot_above_the_player_and_starts_the_cooldown() {
    let mut s = session();
    assert_eq!(apply_command(&mut s, GameCmd::Fire, 1_000, 0), Signal::Continue);
    assert_eq!(s.projectiles, vec![Projectile { x: 40, y: 20 * ROW, speed: 40_000 }]);
    assert_eq!(s.player.fire_cooldown_until, 1_150);
    apply_command(&mut s, GameCmd::Fire, 1_149, 0);
    assert_eq!(s.projectiles.len(), 1);
    assert_eq!(s.player.fire_cooldown_until, 1_150);
    apply_command(&mut s, GameCmd::MoveLeft, 1_149, 0);
    apply_command(&mut s, GameCmd::Fire, 1_150, 0);
    assert_eq!(s.projectiles.len(), 2);
    assert_eq!(s.projectiles[1], Projectile { x: 14, y: 20 * ROW, speed: 40_000 });
    assert_eq!(s.player.fire_cooldown_until, 1_300);
}

#[test]
fn fire_from_the_top_row_puts_the_shot_on_the_border() {
    let mut s = session();
    s.player.y = 1;
    apply_command(&mut s, GameCmd::Fire, 1_000, 0);
    assert_eq!(s.projectiles, vec![Projectile { x: 40, y: 0, speed: 40_000 }]);
}

#[test]
fn the_fire_cooldown_saturates() {
    let mut s = session();
    apply_command(&mut s, GameCmd::Fire, u64::MAX - 3, 0);
    assert_eq!(s.player.fire_cooldown_until, u64::MAX);
}

#[test]
fn pause_toggles_between_running_and_paused() {
    let mut s = session();
    assert_eq!(apply_command(&mut s, GameCmd::Pause, 1_000, 0), Signal::Continue);
    assert_eq!(s.scene, GameScene::Paused);
    apply_command(&mut s, GameCmd::Pause, 1_000, 0);
    assert_eq!(s.scene, GameScene::Running);
    s.scene = GameScene::GameOver;
    s.lives = 0;
    apply_command(&mut s, GameCmd::Pause, 1_000, 0);
    assert_eq!(s.scene, GameScene::GameOver);
}

#[test]
fn commands_stay_live_while_paused() {
    let mut s = session();
    apply_command(&mut s, GameCmd::Pause, 1_000, 0);
    apply_command(&mut s, GameCmd::MoveLeft, 1_000, 0);
    assert_eq!((s.player.lane, s.player.x), (0, 14));
    assert_eq!(s.scene, GameScene::Paused);
}

#[test]
fn restart_gives_a_new_session_of_the_same_size() {
    let mut s = GameState::new(Rect::new(0, 0, 57, 31), 42, 1_000);
    s.score = 900;
    s.lives = 0;
    s.scene = GameScene::GameOver;
    s.elapsed = 77_000;
    s.spawn_cooldown = 150;
    s.invuln_until = Some(4_000);
    apply_command(&mut s, GameCmd::MoveLeft, 1_000, 0);
    apply_command(&mut s, GameCmd::Fire, 1_000, 0);
    assert_eq!(apply_command(&mut s, GameCmd::Restart, 9_000, 7), Signal::Continue);
    assert_eq!((s.width, s.height), (57, 31));
    assert_eq!(s.scene, GameScene::Running);
    assert_eq!(s.score, 0);
    assert_eq!(s.lives, 3);
    assert_eq!(s.elapsed, 0);
    assert_eq!(s.spawn_cooldown, 600);
    assert_eq!(s.invuln_until, None);
    assert_eq!(s.last_spawn, 9_000);
    assert_eq!(s.player.lane, 1);
    assert_eq!(s.player.x, s.lane_x(1));
    assert_eq!(s.player.y, 28);
    assert_eq!(s.player.fire_cooldown_until, 9_000);
    assert!(s.enemies.is_empty());
    assert!(s.projectiles.is_empty());
}

#[test]
fn exit_and_toggle_music_leave_the_session_alone() {
    let mut s = session();
    s.score = 300;
    assert_eq!(apply_command(&mut s, GameCmd::Exit, 2_000, 0), Signal::Exit);
    assert_eq!(apply_command(&mut s, GameCmd::ToggleMusic, 2_000, 0), Signal::ToggleMusic);
    assert_eq!(s.score, 300);
    assert_eq!(s.scene, GameScene::Running);
    assert_eq!(s.player.fire_cooldown_until, 1_000);
    assert_eq!((s.player.lane, s.player.x, s.player.y), (1, 40, 21));
}

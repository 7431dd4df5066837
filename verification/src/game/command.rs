use crate::clock::capped_sum;
use crate::game::entities::{Player, Projectile, ROW};
use crate::game::input::GameCmd;
use crate::game::lane::{lane_center, lane_column, LAST_LANE};
use crate::game::scene::{toggle_pause, toggled};
use crate::game::state::{opening, GameState, Rect, Snapshot};
use vstd::prelude::*;

verus! {

/// Milliseconds between two shots.
pub const FIRE_COOLDOWN_MS: u64 = 150;

/// Climb speed of a shot, in thousandths of a row per second.
pub const SHOT_SPEED: u32 = 40_000;

/// What a command asks of the frame loop that owns the session.
#[derive(Debug, Clone, Copy, PartialEq, Eq, Structural)]
pub enum Signal {
    /// Nothing: go on with the session.
    Continue,
    /// Switch the background music on or off.
    ToggleMusic,
    /// Drop the session and leave the game.
    Exit,
}

/// What a command asks of the frame loop.
pub open spec fn signal_of(cmd: GameCmd) -> Signal {
    match cmd {
        GameCmd::Exit => Signal::Exit,
        GameCmd::ToggleMusic => Signal::ToggleMusic,
        _ => Signal::Continue,
    }
}

/// The player after a move to the lane `lane`: on the centre of that lane.
pub open spec fn in_lane(s: Snapshot, lane: u8) -> Snapshot {
    Snapshot { player: Player { lane, x: lane_center(s.width, lane), ..s.player }, ..s }
}

/// The player after a move to the row `y`.
pub open spec fn in_row(s: Snapshot, y: u16) -> Snapshot {
    Snapshot { player: Player { y, ..s.player }, ..s }
}

/// The shot that the player fires: in the player's column, one row above the
/// player.
pub open spec fn shot_from(player: Player) -> Projectile {
    Projectile {
        x: player.x,
        y: (if player.y >= 1 { (player.y - 1) * ROW } else { 0 }) as u64,
        speed: SHOT_SPEED,
    }
}

/// The session `s` after the fire key at the clock reading `now`. While the
/// fire cooldown runs nothing happens. Otherwise a shot joins the end of the
/// projectiles and the next one is allowed `FIRE_COOLDOWN_MS` later.
pub open spec fn fired(s: Snapshot, now: u64) -> Snapshot {
    if now >= s.player.fire_cooldown_until {
        Snapshot {
            player: Player {
                fire_cooldown_until: capped_sum(now, FIRE_COOLDOWN_MS as int),
                ..s.player
            },
            projectiles: s.projectiles.push(shot_from(s.player)),
            ..s
        }
    } else {
        s
    }
}

/// The session `s` after the command `cmd` at the clock reading `now`.
///
/// Moves to the left and right change the lane by one, staying within lanes
/// 0 to 2, and put the player on the centre of the lane. Moves up and down
/// change the row by one, staying within `1 ..= height - 2`. A restart gives a
/// new session on a field of the same size. `Exit` and `ToggleMusic` leave
/// the session as it is.
pub open spec fn commanded(s: Snapshot, cmd: GameCmd, now: u64) -> Snapshot {
    match cmd {
        GameCmd::MoveLeft => in_lane(
            s,
            if s.player.lane > 0 { (s.player.lane - 1) as u8 } else { s.player.lane },
        ),
        GameCmd::MoveRight => in_lane(
            s,
            if s.player.lane < LAST_LANE { (s.player.lane + 1) as u8 } else { s.player.lane },
        ),
        GameCmd::MoveUp => in_row(s, if s.player.y >= 2 { (s.player.y - 1) as u16 } else { 1 }),
        GameCmd::MoveDown => in_row(
            s,
            if s.player.y + 1 > s.height - 2 { (s.height - 2) as u16 } else {
                (s.player.y + 1) as u16
            },
        ),
        GameCmd::Fire => fired(s, now),
        GameCmd::Pause => Snapshot { scene: toggled(s.scene), ..s },
        GameCmd::Restart => opening(Rect { x: 0, y: 0, width: s.width, height: s.height }, now),
        GameCmd::Exit => s,
        GameCmd::ToggleMusic => s,
    }
}

/// Applies a command to the session at the clock reading `now`
/// (milliseconds) and says what the frame loop has to do. `seed` is used only
/// by a restart, for the generator of the new session.
pub fn apply_command(state: &mut GameState, cmd: GameCmd, now: u64, seed: u64) -> (signal: Signal)
    requires
        old(state)@.wf(),
    ensures
        final(state)@ == commanded(old(state)@, cmd, now),
        signal == signal_of(cmd),
        final(state)@.wf(),
        cmd != GameCmd::Restart ==> final(state).rng == old(state).rng,
{
    match cmd {
        GameCmd::MoveLeft => {
            if state.player.lane > 0 {
                state.player.lane -= 1;
            }
            state.player.x = lane_column(state.width, state.player.lane);
            Signal::Continue
        },
        GameCmd::MoveRight => {
            if state.player.lane < LAST_LANE {
                state.player.lane += 1;
            }
            state.player.x = lane_column(state.width, state.player.lane);
            Signal::Continue
        },
        GameCmd::MoveUp => {
            state.player.y = if state.player.y >= 2 { state.player.y - 1 } else { 1 };
            Signal::Continue
        },
        GameCmd::MoveDown => {
            let below: u16 = state.player.y + 1;
            state.player.y = if below > state.height - 2 { state.height - 2 } else { below };
            Signal::Continue
        },
        GameCmd::Fire => {
            if now >= state.player.fire_cooldown_until {
                let row: u64 = state.player.y.saturating_sub(1) as u64;
                assert(row * ROW <= 65_535 * ROW) by (nonlinear_arith)
                    requires
                        row <= 65_535,
                ;
                let shot = Projectile { x: state.player.x, y: row * ROW, speed: SHOT_SPEED };
                state.player.fire_cooldown_until = now.saturating_add(FIRE_COOLDOWN_MS);
                state.projectiles.push(shot);
            }
            Signal::Continue
        },
        GameCmd::Pause => {
            state.scene = toggle_pause(state.scene);
            Signal::Continue
        },
        GameCmd::Restart => {
            let area = Rect::new(0, 0, state.width, state.height);
            *state = GameState::new(area, seed, now);
            Signal::Continue
        },
        GameCmd::Exit => Signal::Exit,
        GameCmd::ToggleMusic => Signal::ToggleMusic,
    }
}

} // verus!

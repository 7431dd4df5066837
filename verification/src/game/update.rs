use crate::clock::capped_sum;
use crate::game::collide::{
    compact, count_marked, count_set, covers, first_enemy_at, first_index, mark_hits,
    spent_marks, struck_marks, unmarked,
};
use crate::game::motion::{enemy_step, projectile_step, step_enemies, step_projectiles};
use crate::game::scene::GameScene;
use crate::game::spawn::{maybe_spawn, plausible, spawn_with, spawned, Arrival};
use crate::game::state::{GameState, Snapshot};
use vstd::prelude::*;

verus! {

/// Points for each projectile that hits an enemy.
pub const SCORE_PER_HIT: u64 = 100;

/// Milliseconds during which the player takes no damage after a crash.
pub const INVULN_MS: u64 = 1_000;

/// Whether the player can take damage at the clock reading `now`: no
/// invulnerability window is set, or the clock has reached its end.
pub open spec fn vulnerable(invuln_until: Option<u64>, now: u64) -> bool {
    match invuln_until {
        Some(until) => now >= until,
        None => true,
    }
}

/// The session `s` after simulated time went on by `dt` milliseconds and
/// every entity moved: enemies down, at the speed scale of the new elapsed
/// time, projectiles up. Entities that left the field are dropped.
pub open spec fn moved(s: Snapshot, dt: u64) -> Snapshot {
    let elapsed = capped_sum(s.elapsed, dt as int);
    Snapshot {
        elapsed,
        enemies: s.enemies.filter_map(enemy_step(dt, elapsed, s.height)),
        projectiles: s.projectiles.filter_map(projectile_step(dt)),
        ..s
    }
}

/// The session `s` after the hits of projectiles on enemies were resolved:
/// every projectile that hits an enemy is gone, every enemy that is hit is
/// gone, and each such projectile has scored.
pub open spec fn shots_resolved(s: Snapshot) -> Snapshot {
    let used = spent_marks(s.projectiles, s.enemies, s.height);
    let struck = struck_marks(s.enemies, s.projectiles, s.height);
    Snapshot {
        enemies: unmarked(s.enemies, struck),
        projectiles: unmarked(s.projectiles, used),
        score: capped_sum(s.score, SCORE_PER_HIT * count_marked(used)),
        ..s
    }
}

/// The index of the enemy that the player crashes into at the clock reading
/// `now`: the first enemy whose footprint covers the player's cell, unless the
/// player is invulnerable.
pub open spec fn crash_index(s: Snapshot, now: u64) -> Option<int> {
    if vulnerable(s.invuln_until, now) {
        first_index(s.enemies, covers(s.player.x, s.player.y, s.height))
    } else {
        None
    }
}

/// The session `s` after a crash of the player into an enemy, if there is
/// one, was resolved: that enemy is gone, the last enemy taking its place; one
/// life is lost; the player is invulnerable for `INVULN_MS`; and with no life
/// left the game is over.
pub open spec fn crash_resolved(s: Snapshot, now: u64) -> Snapshot {
    match crash_index(s, now) {
        Some(j) => {
            let lives: u8 = if s.lives >= 1 { (s.lives - 1) as u8 } else { 0 };
            Snapshot {
                enemies: s.enemies.update(j, s.enemies.last()).drop_last(),
                lives,
                invuln_until: Some(capped_sum(now, INVULN_MS as int)),
                scene: if lives == 0 { GameScene::GameOver } else { s.scene },
                ..s
            }
        },
        None => s,
    }
}

/// The session `s` after everything in a step that needs no generator:
/// movement, then hits, then a crash.
pub open spec fn advanced(s: Snapshot, dt: u64, now: u64) -> Snapshot {
    crash_resolved(shots_resolved(moved(s, dt)), now)
}

/// The session `s` after one step of `dt` milliseconds at the clock reading
/// `now`, where the generator's decision at the spawner is `arrival`. Outside
/// the scene `Running` a step changes nothing.
pub open spec fn updated(s: Snapshot, dt: u64, now: u64, arrival: Option<Arrival>) -> Snapshot {
    if s.scene != GameScene::Running {
        s
    } else {
        spawned(advanced(s, dt, now), now, arrival)
    }
}

fn move_all(state: &mut GameState, dt: u64)
    ensures
        final(state)@ == moved(old(state)@, dt),
        final(state).rng == old(state).rng,
{
    state.elapsed = state.elapsed.saturating_add(dt);
    state.enemies = step_enemies(&state.enemies, dt, state.elapsed, state.height);
    state.projectiles = step_projectiles(&state.projectiles, dt);
}

fn resolve_shots(state: &mut GameState)
    requires
        old(state).height >= 3,
    ensures
        final(state)@ == shots_resolved(old(state)@),
        final(state).rng == old(state).rng,
{
    let (used, struck) = mark_hits(&state.projectiles, &state.enemies, state.height);
    let hits: u64 = count_set(&used) as u64;
    let gain: u64 = match hits.checked_mul(SCORE_PER_HIT) {
        Some(points) => points,
        None => u64::MAX,
    };
    assert(hits * SCORE_PER_HIT == SCORE_PER_HIT * hits) by (nonlinear_arith);
    state.score = state.score.saturating_add(gain);
    state.enemies = compact(&state.enemies, &struck);
    state.projectiles = compact(&state.projectiles, &used);
}

fn resolve_crash(state: &mut GameState, now: u64)
    requires
        old(state).height >= 3,
    ensures
        final(state)@ == crash_resolved(old(state)@, now),
        final(state).rng == old(state).rng,
{
    let exposed: bool = match state.invuln_until {
        Some(until) => now >= until,
        None => true,
    };
    if !exposed {
        return;
    }
    match first_enemy_at(state.player.x, state.player.y, &state.enemies, state.height) {
        Some(j) => {
            state.enemies.swap_remove(j);
            state.lives = state.lives.saturating_sub(1);
            state.invuln_until = Some(now.saturating_add(INVULN_MS));
            if state.lives == 0 {
                state.scene = GameScene::GameOver;
            }
        },
        None => {},
    }
}

/// Does everything in a step that needs no generator: advances simulated
/// time, moves the entities, resolves hits and a crash.
pub fn advance(state: &mut GameState, dt: u64, now: u64)
    requires
        old(state)@.wf(),
        old(state).scene == GameScene::Running,
    ensures
        final(state)@ == advanced(old(state)@, dt, now),
        final(state).rng == old(state).rng,
        final(state)@.wf(),
{
    move_all(state, dt);
    resolve_shots(state);
    resolve_crash(state, now);
}

/// Advances the session by one step of `dt` milliseconds at the clock
/// reading `now`, with a spawner decision that was already drawn.
pub fn update_with(state: &mut GameState, dt: u64, now: u64, arrival: Option<Arrival>)
    requires
        old(state)@.wf(),
    ensures
        final(state)@ == updated(old(state)@, dt, now, arrival),
        final(state).rng == old(state).rng,
        final(state)@.wf(),
{
    if state.scene != GameScene::Running {
        return;
    }
    advance(state, dt, now);
    spawn_with(state, now, arrival);
}

/// Advances the session by one step of `dt` milliseconds at the clock
/// reading `now`. Outside the scene `Running` nothing changes. Otherwise the
/// session ends as `updated` says for one of the decisions that its generator
/// can make at the spawner; if no spawn opportunity is due, there is nothing
/// to decide.
pub fn update(state: &mut GameState, dt: u64, now: u64)
    requires
        old(state)@.wf(),
    ensures
        exists|arrival: Option<Arrival>|
            plausible(arrival) && final(state)@ == #[trigger] updated(
                old(state)@,
                dt,
                now,
                arrival,
            ),
        old(state).scene != GameScene::Running ==> final(state)@ == old(state)@,
        final(state)@.wf(),
{
    if state.scene != GameScene::Running {
        assert(state@ == updated(state@, dt, now, None));
        return;
    }
    advance(state, dt, now);
    let ghost mid = state@;
    maybe_spawn(state, now);
    proof {
        let arrival = choose|arrival: Option<Arrival>|
            plausible(arrival) && state@ == #[trigger] spawned(mid, now, arrival);
        assert(state@ == updated(old(state)@, dt, now, arrival));
    }
}

} // verus!

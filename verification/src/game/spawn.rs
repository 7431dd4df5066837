use crate::clock::time_since;
use crate::game::dice::{draw_ratio, draw_up_to};
use crate::game::entities::{Enemy, ROW};
use crate::game::lane::{lane_center, lane_column, LAST_LANE};
use crate::game::state::{GameState, Snapshot, COOLDOWN_FLOOR, FIRST_COOLDOWN};
use vstd::prelude::*;

verus! {

/// Milliseconds by which the spawn cooldown shrinks at each opportunity.
pub const TIGHTEN_STEP: u64 = 2;

/// Largest speed bonus of a new enemy, in thousandths of a row per second.
pub const MAX_JITTER: u32 = 2_000;

/// Spawn chances are counted in parts of this many.
pub const CHANCE_PARTS: u32 = 100_000;

/// Spawn chance at the start of a session: 0.20.
pub const CHANCE_START: u32 = 20_000;

/// Spawn chance that the ramp ends at: 0.80.
pub const CHANCE_CAP: u32 = 80_000;

/// What the generator decided for an enemy that appears: its lane and its
/// speed bonus.
#[derive(Debug, Clone, Copy, PartialEq, Eq, Structural)]
pub struct Arrival {
    pub lane: u8,
    pub jitter: u32,
}

/// The arrivals that the generator can decide on: none, or a lane from 0 to
/// 2 with a bonus up to `MAX_JITTER`.
pub open spec fn plausible(arrival: Option<Arrival>) -> bool {
    match arrival {
        Some(a) => a.lane <= LAST_LANE && a.jitter <= MAX_JITTER,
        None => true,
    }
}

/// Whether a spawn opportunity is due at the clock reading `now`: the time
/// since the last one, zero if the clock reads earlier, has reached the
/// cooldown.
pub open spec fn spawn_due(s: Snapshot, now: u64) -> bool {
    time_since(now, s.last_spawn) >= s.spawn_cooldown
}

/// The chance, in parts of `CHANCE_PARTS`, that an enemy appears at a spawn
/// opportunity after `elapsed` milliseconds of play: 0.20 plus 0.01 for each
/// second, at most 0.80.
pub open spec fn spawn_chance(elapsed: u64) -> u32 {
    if CHANCE_START + elapsed >= CHANCE_CAP {
        CHANCE_CAP
    } else {
        (CHANCE_START + elapsed) as u32
    }
}

/// The cooldown after one tightening: two milliseconds less, but not below
/// the floor.
pub open spec fn tightened(cooldown: u64) -> u64 {
    if cooldown - TIGHTEN_STEP < COOLDOWN_FLOOR {
        COOLDOWN_FLOOR
    } else {
        (cooldown - TIGHTEN_STEP) as u64
    }
}

/// The cooldown after `n` tightenings.
pub open spec fn tightened_times(cooldown: u64, n: nat) -> u64
    decreases n,
{
    if n == 0 {
        cooldown
    } else {
        tightened(tightened_times(cooldown, (n - 1) as nat))
    }
}

/// The fall speed of a new enemy: baseline plus bonus, held at the largest
/// number the field can store.
pub open spec fn spawn_speed(base: u32, jitter: u32) -> u32 {
    if base + jitter > u32::MAX {
        u32::MAX
    } else {
        (base + jitter) as u32
    }
}

/// The enemy that an arrival puts on the field: on the centre of its lane,
/// in the top row, one cell large.
pub open spec fn newcomer(s: Snapshot, a: Arrival) -> Enemy {
    Enemy {
        x: lane_center(s.width, a.lane),
        y: ROW,
        speed: spawn_speed(s.base_speed, a.jitter),
        w: 1,
        h: 1,
    }
}

/// The session `s` after the spawner ran at the clock reading `now` with the
/// generator's decision `arrival`. Nothing changes unless an opportunity is
/// due. If one is due, its time is recorded, the enemy that arrived, if any,
/// joins the end of the collection, and the cooldown tightens.
pub open spec fn spawned(s: Snapshot, now: u64, arrival: Option<Arrival>) -> Snapshot {
    if !spawn_due(s, now) {
        s
    } else {
        Snapshot {
            last_spawn: now,
            enemies: match arrival {
                Some(a) => s.enemies.push(newcomer(s, a)),
                None => s.enemies,
            },
            spawn_cooldown: tightened(s.spawn_cooldown),
            ..s
        }
    }
}

/// Tests whether a spawn opportunity is due.
pub fn is_spawn_due(state: &GameState, now: u64) -> (due: bool)
    ensures
        due == spawn_due(state@, now),
{
    let since: u64 = if now >= state.last_spawn { now - state.last_spawn } else { 0 };
    since >= state.spawn_cooldown
}

/// Computes the spawn chance in parts of `CHANCE_PARTS`.
pub fn chance_after(elapsed: u64) -> (chance: u32)
    ensures
        chance == spawn_chance(elapsed),
        CHANCE_START <= chance <= CHANCE_CAP,
{
    if elapsed >= (CHANCE_CAP - CHANCE_START) as u64 {
        CHANCE_CAP
    } else {
        CHANCE_START + elapsed as u32
    }
}

/// Runs the spawner with a decision that was already drawn.
pub fn spawn_with(state: &mut GameState, now: u64, arrival: Option<Arrival>)
    ensures
        final(state)@ == spawned(old(state)@, now, arrival),
        final(state).rng == old(state).rng,
        old(state)@.wf() ==> final(state)@.wf(),
{
    if !is_spawn_due(state, now) {
        return;
    }
    state.last_spawn = now;
    match arrival {
        Some(a) => {
            let e = Enemy {
                x: lane_column(state.width, a.lane),
                y: ROW,
                speed: state.base_speed.saturating_add(a.jitter),
                w: 1,
                h: 1,
            };
            state.enemies.push(e);
        },
        None => {},
    }
    state.spawn_cooldown = if state.spawn_cooldown < COOLDOWN_FLOOR + TIGHTEN_STEP {
        COOLDOWN_FLOOR
    } else {
        state.spawn_cooldown - TIGHTEN_STEP
    };
}

/// Runs the spawner at the clock reading `now` (milliseconds). If an
/// opportunity is due, the session's generator decides whether an enemy
/// appears, with the chance `spawn_chance`, and if so in which lane and with
/// what speed bonus. The session ends as `spawned` says for one of the
/// decisions that the generator can make.
pub fn maybe_spawn(state: &mut GameState, now: u64)
    ensures
        exists|arrival: Option<Arrival>|
            plausible(arrival) && final(state)@ == #[trigger] spawned(old(state)@, now, arrival),
        !spawn_due(old(state)@, now) ==> final(state)@ == old(state)@,
        old(state)@.wf() ==> final(state)@.wf(),
{
    if !is_spawn_due(state, now) {
        assert(state@ == spawned(state@, now, None));
        return;
    }
    let chance: u32 = chance_after(state.elapsed);
    let arrival = if draw_ratio(&mut state.rng, chance, CHANCE_PARTS) {
        let lane: u8 = draw_up_to(&mut state.rng, LAST_LANE as u32) as u8;
        let jitter: u32 = draw_up_to(&mut state.rng, MAX_JITTER);
        Some(Arrival { lane, jitter })
    } else {
        None
    };
    spawn_with(state, now, arrival);
}

/// One tightening never raises the cooldown and never takes it below the
/// floor.
pub proof fn tightening_keeps_floor(cooldown: u64)
    requires
        cooldown >= COOLDOWN_FLOOR,
    ensures
        COOLDOWN_FLOOR <= tightened(cooldown) <= cooldown,
{
}

/// After `n` spawn opportunities a cooldown that started at or above the
/// floor stands at two milliseconds per opportunity below its start, or at the
/// floor if that would be lower. From the first value, 600 ms, it has reached
/// the floor of 150 ms after 225 opportunities and stays there.
pub proof fn cooldown_converges(cooldown: u64, n: nat)
    requires
        cooldown >= COOLDOWN_FLOOR,
    ensures
        tightened_times(cooldown, n) == if cooldown - TIGHTEN_STEP * n < COOLDOWN_FLOOR {
            COOLDOWN_FLOOR as int
        } else {
            cooldown - TIGHTEN_STEP * n
        },
        cooldown <= FIRST_COOLDOWN && n >= 225 ==> tightened_times(cooldown, n)
            == COOLDOWN_FLOOR,
    decreases n,
{
    if n > 0 {
        cooldown_converges(cooldown, (n - 1) as nat);
    }
}

/// The spawner never raises the cooldown and never takes it below the floor,
/// whatever the generator decides.
pub proof fn spawner_keeps_cooldown_bounds(s: Snapshot, now: u64, arrival: Option<Arrival>)
    requires
        s.spawn_cooldown >= COOLDOWN_FLOOR,
    ensures
        COOLDOWN_FLOOR <= spawned(s, now, arrival).spawn_cooldown <= s.spawn_cooldown,
{
}

} // verus!

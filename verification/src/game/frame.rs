use crate::game::command::commanded;
use crate::game::input::GameCmd;
use crate::game::spawn::{plausible, Arrival};
use crate::game::state::{resized, GameState, Rect, Snapshot};
use crate::game::update::{update, updated};
use vstd::prelude::*;

verus! {

/// Length of one simulation step in milliseconds, about a thirtieth of a
/// second.
pub const FIXED_STEP_MS: u64 = 33;

/// The session `s` after one step of `dt` milliseconds for each entry of
/// `arrivals`, all at the clock reading `now`; the entry is the decision of
/// the generator at that step's spawner.
pub open spec fn stepped(s: Snapshot, dt: u64, now: u64, arrivals: Seq<Option<Arrival>>) -> Snapshot
    decreases arrivals.len(),
{
    if arrivals.len() == 0 {
        s
    } else {
        updated(stepped(s, dt, now, arrivals.drop_last()), dt, now, arrivals.last())
    }
}

/// Whether every decision of a sequence is one that the generator can make.
pub open spec fn all_plausible(arrivals: Seq<Option<Arrival>>) -> bool {
    forall|i: int| 0 <= i < arrivals.len() ==> plausible(#[trigger] arrivals[i])
}

/// Drains the time that a frame loop has banked, in milliseconds: runs one
/// step of `FIXED_STEP_MS` for each whole step that fits into `banked`, all at
/// the clock reading `now`, and returns what is left over, to be banked again.
pub fn run_fixed_steps(state: &mut GameState, banked: u64, now: u64) -> (rest: u64)
    requires
        old(state)@.wf(),
    ensures
        rest == banked % FIXED_STEP_MS,
        exists|arrivals: Seq<Option<Arrival>>|
            arrivals.len() == banked / FIXED_STEP_MS && all_plausible(arrivals) && final(state)@
                == #[trigger] stepped(old(state)@, FIXED_STEP_MS, now, arrivals),
        final(state)@.wf(),
{
    let mut rest: u64 = banked;
    let ghost mut arrivals: Seq<Option<Arrival>> = Seq::empty();
    while rest >= FIXED_STEP_MS
        invariant
            state@.wf(),
            rest <= banked,
            banked - rest == FIXED_STEP_MS * arrivals.len(),
            all_plausible(arrivals),
            state@ == stepped(old(state)@, FIXED_STEP_MS, now, arrivals),
        decreases rest,
    {
        let ghost before = state@;
        update(state, FIXED_STEP_MS, now);
        rest -= FIXED_STEP_MS;
        proof {
            let arrival = choose|arrival: Option<Arrival>|
                plausible(arrival) && state@ == #[trigger] updated(
                    before,
                    FIXED_STEP_MS,
                    now,
                    arrival,
                );
            let longer = arrivals.push(arrival);
            assert(longer.drop_last() =~= arrivals);
            arrivals = longer;
        }
    }
    rest
}

/// One thing that happens to a session: a simulation step, with the decision
/// of the generator at the spawner; a command; or a resize.
pub enum Event {
    Tick { dt: u64, now: u64, arrival: Option<Arrival> },
    Command { cmd: GameCmd, now: u64 },
    Resize { area: Rect },
}

/// The session `s` after one event.
pub open spec fn after_event(s: Snapshot, event: Event) -> Snapshot {
    match event {
        Event::Tick { dt, now, arrival } => updated(s, dt, now, arrival),
        Event::Command { cmd, now } => commanded(s, cmd, now),
        Event::Resize { area } => resized(s, area),
    }
}

/// The session `s` after a sequence of events, in their order.
pub open spec fn after_events(s: Snapshot, events: Seq<Event>) -> Snapshot
    decreases events.len(),
{
    if events.len() == 0 {
        s
    } else {
        after_event(after_events(s, events.drop_last()), events.last())
    }
}

/// A session is determined by how it began and by what happened to it. Two
/// sessions that hold the same values, whatever the inner states of their
/// generators, and are fed the same events, the generators' decisions among
/// them, are alike after every one of these events: the same score, the same
/// lives, the same enemies and projectiles at the same positions.
pub proof fn sessions_replay_alike(a: GameState, b: GameState, events: Seq<Event>, upto: int)
    requires
        a@ == b@,
        0 <= upto <= events.len(),
    ensures
        after_events(a@, events.take(upto)) == after_events(b@, events.take(upto)),
        after_events(a@, events.take(upto)).score == after_events(b@, events.take(upto)).score,
        after_events(a@, events.take(upto)).lives == after_events(b@, events.take(upto)).lives,
        after_events(a@, events.take(upto)).enemies == after_events(
            b@,
            events.take(upto),
        ).enemies,
        after_events(a@, events.take(upto)).projectiles == after_events(
            b@,
            events.take(upto),
        ).projectiles,
{
}

/// Every event keeps the invariants of a session: the field stays at least
/// ten cells each way, the player on the centre of its lane and inside the
/// border rows, the game over exactly when no life is left, and the spawn
/// cooldown between its floor and its first value.
pub proof fn events_keep_sessions_valid(s: Snapshot, event: Event)
    requires
        s.wf(),
    ensures
        after_event(s, event).wf(),
{
}

/// So does every sequence of events.
pub proof fn sessions_stay_valid(s: Snapshot, events: Seq<Event>)
    requires
        s.wf(),
    ensures
        after_events(s, events).wf(),
    decreases events.len(),
{
    if events.len() > 0 {
        sessions_stay_valid(s, events.drop_last());
        events_keep_sessions_valid(after_events(s, events.drop_last()), events.last());
    }
}

} // verus!

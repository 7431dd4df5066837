use crate::clock::capped_sum;
use crate::game::collide::{
    any_passes, count_marked, covers, first_at, first_index, first_index_is, meets, spent,
    spent_marks, struck_by, struck_marks, unmarked,
};
use crate::game::entities::{cell_row, on_screen, Enemy, Projectile, ROW};
use crate::game::motion::{climb, enemy_step, fall, projectile_step};
use crate::game::scene::GameScene;
use crate::game::spawn::Arrival;
use crate::game::state::{Snapshot, COOLDOWN_FLOOR};
use crate::game::update::{
    advanced, crash_index, crash_resolved, moved, shots_resolved, updated, SCORE_PER_HIT,
};
use vstd::prelude::*;

verus! {

proof fn filter_map_yields<A, B>(
    items: Seq<A>,
    f: spec_fn(A) -> Option<B>,
    given: spec_fn(A) -> bool,
    good: spec_fn(B) -> bool,
)
    requires
        forall|i: int| 0 <= i < items.len() ==> given(#[trigger] items[i]),
        forall|a: A| given(a) && (#[trigger] f(a)) is Some ==> good(f(a).unwrap()),
    ensures
        forall|i: int|
            0 <= i < items.filter_map(f).len() ==> good(#[trigger] items.filter_map(f)[i]),
    decreases items.len(),
{
    if items.len() > 0 {
        let head = items.drop_last();
        assert forall|i: int| 0 <= i < head.len() implies given(#[trigger] head[i]) by {
            assert(head[i] == items[i]);
        }
        filter_map_yields(head, f, given, good);
        let last = items.last();
        assert(given(items[items.len() - 1]));
        let out = items.filter_map(f);
        assert forall|i: int| 0 <= i < out.len() implies good(#[trigger] out[i]) by {
            if i < head.filter_map(f).len() {
                assert(out[i] == head.filter_map(f)[i]);
            } else {
                assert(f(last) is Some);
                assert(out[i] == f(last).unwrap());
            }
        }
    }
}

proof fn unmarked_yields<T>(items: Seq<T>, marks: Seq<bool>, good: spec_fn(T) -> bool)
    requires
        forall|i: int| 0 <= i < items.len() ==> good(#[trigger] items[i]),
    ensures
        forall|i: int|
            0 <= i < unmarked(items, marks).len() ==> good(#[trigger] unmarked(items, marks)[i]),
    decreases items.len(),
{
    if items.len() > 0 {
        let head = items.drop_last();
        assert forall|i: int| 0 <= i < head.len() implies good(#[trigger] head[i]) by {
            assert(head[i] == items[i]);
        }
        unmarked_yields(head, marks.drop_last(), good);
        assert(good(items[items.len() - 1]));
        let out = unmarked(items, marks);
        let rest = unmarked(head, marks.drop_last());
        assert forall|i: int| 0 <= i < out.len() implies good(#[trigger] out[i]) by {
            if i < rest.len() {
                assert(out[i] == rest[i]);
            } else {
                assert(out[i] == items.last());
            }
        }
    }
}

/// An enemy never moves up: the distance it falls in a step is not negative.
pub proof fn fall_is_downward(e: Enemy, dt: u64, elapsed: u64)
    ensures
        fall(e, dt, elapsed) >= 0,
{
    let speed: int = e.speed as int;
    let span: int = dt as int;
    let scale: int = 50_000 + elapsed;
    assert((speed * span * scale) / 50_000 >= 0) by (nonlinear_arith)
        requires
            speed >= 0,
            span >= 0,
            scale >= 0,
    ;
}

/// An enemy that stands at or below the bottom border row before a step is
/// dropped by that step, whatever its speed and the length of the step.
pub proof fn enemy_below_the_field_is_dropped(e: Enemy, dt: u64, elapsed: u64, height: u16)
    requires
        e.y >= (height - 1) * ROW,
    ensures
        enemy_step(dt, elapsed, height)(e) is None,
{
    fall_is_downward(e, dt, elapsed);
}

/// After a step in the scene `Running` every enemy of the session is on the
/// visible field, from row 1 up to but not including the bottom border row,
/// and no projectile is above row 1. This holds whatever the spawner's
/// generator decided.
pub proof fn step_leaves_entities_on_the_field(
    s: Snapshot,
    dt: u64,
    now: u64,
    arrival: Option<Arrival>,
)
    requires
        s.wf(),
        s.scene == GameScene::Running,
    ensures
        forall|j: int|
            0 <= j < updated(s, dt, now, arrival).enemies.len() ==> on_screen(
                (#[trigger] updated(s, dt, now, arrival).enemies[j]).y as int,
                s.height as int,
            ),
        forall|k: int|
            0 <= k < updated(s, dt, now, arrival).projectiles.len() ==> (#[trigger] updated(
                s,
                dt,
                now,
                arrival,
            ).projectiles[k]).y >= ROW,
        updated(s, dt, now, arrival).height == s.height,
{
    let height = s.height;
    let elapsed = capped_sum(s.elapsed, dt as int);
    let seen = |e: Enemy| on_screen(e.y as int, height as int);
    let low = |p: Projectile| p.y >= ROW;
    let m = moved(s, dt);
    filter_map_yields(s.enemies, enemy_step(dt, elapsed, height), |e: Enemy| true, seen);
    filter_map_yields(s.projectiles, projectile_step(dt), |p: Projectile| true, low);
    let r = shots_resolved(m);
    unmarked_yields(m.enemies, struck_marks(m.enemies, m.projectiles, height), seen);
    unmarked_yields(m.projectiles, spent_marks(m.projectiles, m.enemies, height), low);
    let c = crash_resolved(r, now);
    assert forall|j: int| 0 <= j < c.enemies.len() implies seen(#[trigger] c.enemies[j]) by {
        match crash_index(r, now) {
            Some(at) => {
                if j == at {
                    assert(seen(r.enemies[r.enemies.len() - 1]));
                } else {
                    assert(seen(r.enemies[j]));
                }
            },
            None => {},
        }
    }
    let t = updated(s, dt, now, arrival);
    assert(on_screen(ROW as int, height as int)) by (nonlinear_arith)
        requires
            height >= 10,
    ;
    assert forall|j: int| 0 <= j < t.enemies.len() implies on_screen(
        (#[trigger] t.enemies[j]).y as int,
        height as int,
    ) by {
        if j < c.enemies.len() {
            assert(seen(c.enemies[j]));
        }
    }
    assert forall|k: int| 0 <= k < t.projectiles.len() implies (#[trigger] t.projectiles[k]).y
        >= ROW by {
        assert(low(c.projectiles[k]));
    }
}

/// A step never lets a projectile sink: if every projectile was above the
/// bottom border row before the step, every projectile is so after it.
pub proof fn projectiles_stay_above_the_bottom(
    s: Snapshot,
    dt: u64,
    now: u64,
    arrival: Option<Arrival>,
)
    requires
        forall|k: int|
            0 <= k < s.projectiles.len() ==> (#[trigger] s.projectiles[k]).y < (s.height - 1)
                * ROW,
    ensures
        forall|k: int|
            0 <= k < updated(s, dt, now, arrival).projectiles.len() ==> (#[trigger] updated(
                s,
                dt,
                now,
                arrival,
            ).projectiles[k]).y < (s.height - 1) * ROW,
{
    if s.scene == GameScene::Running {
        let height = s.height;
        let high = |p: Projectile| p.y < (height - 1) * ROW;
        assert forall|p: Projectile| high(p) && (#[trigger] projectile_step(dt)(p)) is Some implies high(
            projectile_step(dt)(p).unwrap(),
        ) by {
            assert(climb(p, dt) >= 0) by (nonlinear_arith)
                requires
                    climb(p, dt) == p.speed * dt,
            ;
        }
        filter_map_yields(s.projectiles, projectile_step(dt), high, high);
        let m = moved(s, dt);
        unmarked_yields(m.projectiles, spent_marks(m.projectiles, m.enemies, height), high);
        let t = updated(s, dt, now, arrival);
        assert forall|k: int| 0 <= k < t.projectiles.len() implies (#[trigger] t.projectiles[k]).y
            < (s.height - 1) * ROW by {
            assert(high(shots_resolved(m).projectiles[k]));
        }
    }
}

/// Outside the scene `Running` a step changes nothing: a paused or finished
/// game stands still.
pub proof fn step_outside_running_is_idle(
    s: Snapshot,
    dt: u64,
    now: u64,
    arrival: Option<Arrival>,
)
    requires
        s.scene != GameScene::Running,
    ensures
        updated(s, dt, now, arrival) == s,
{
}

/// A crash with one life left ends the game in the same step: the scene is
/// `GameOver` and no life is left. Every later step leaves the session as it
/// is.
pub proof fn last_life_ends_the_game(
    s: Snapshot,
    dt: u64,
    now: u64,
    arrival: Option<Arrival>,
    later_dt: u64,
    later_now: u64,
    later_arrival: Option<Arrival>,
)
    requires
        s.scene == GameScene::Running,
        s.lives == 1,
        crash_index(shots_resolved(moved(s, dt)), now) is Some,
    ensures
        updated(s, dt, now, arrival).scene == GameScene::GameOver,
        updated(s, dt, now, arrival).lives == 0,
        updated(updated(s, dt, now, arrival), later_dt, later_now, later_arrival) == updated(
            s,
            dt,
            now,
            arrival,
        ),
{
}

/// A step costs at most one life, however many enemies cover the player's
/// cell, and never gives one back.
pub proof fn step_costs_at_most_one_life(s: Snapshot, dt: u64, now: u64, arrival: Option<Arrival>)
    ensures
        updated(s, dt, now, arrival).lives <= s.lives,
        s.lives - updated(s, dt, now, arrival).lives <= 1,
{
}

/// A step never raises the spawn cooldown and never takes it below its
/// floor, whatever the generator decides.
pub proof fn step_keeps_cooldown_bounds(s: Snapshot, dt: u64, now: u64, arrival: Option<Arrival>)
    requires
        s.spawn_cooldown >= COOLDOWN_FLOOR,
    ensures
        COOLDOWN_FLOOR <= updated(s, dt, now, arrival).spawn_cooldown <= s.spawn_cooldown,
{
}

/// A step never lowers the score.
pub proof fn score_never_drops(s: Snapshot, dt: u64, now: u64, arrival: Option<Arrival>)
    ensures
        updated(s, dt, now, arrival).score >= s.score,
{
}

/// A projectile and an enemy that resolve to the same cell meet, whatever
/// the enemy's footprint.
pub proof fn same_cell_meets(p: Projectile, e: Enemy, height: u16)
    requires
        height >= 3,
        p.x == e.x,
        cell_row(p.y as int, height as int) == cell_row(e.y as int, height as int),
    ensures
        meets(p, height)(e),
{
}

/// Where one projectile and one enemy are on the field and the projectile's
/// cell is covered by the enemy, resolving the hits leaves neither of them and
/// raises the score by exactly `SCORE_PER_HIT`, held at the largest score that
/// can be stored.
pub proof fn a_hit_removes_both(s: Snapshot, p: Projectile, e: Enemy)
    requires
        s.projectiles == seq![p],
        s.enemies == seq![e],
        meets(p, s.height)(e),
    ensures
        shots_resolved(s).projectiles == Seq::<Projectile>::empty(),
        shots_resolved(s).enemies == Seq::<Enemy>::empty(),
        shots_resolved(s).score == capped_sum(s.score, SCORE_PER_HIT as int),
{
    let height = s.height;
    let used = spent_marks(s.projectiles, s.enemies, height);
    let struck = struck_marks(s.enemies, s.projectiles, height);
    assert(meets(s.projectiles[0], height)(s.enemies[0]));
    assert(spent(s.projectiles[0], s.enemies, height));
    assert(first_at(s.enemies, meets(s.projectiles[0], height), 0));
    assert(struck_by(s.enemies, 0, s.projectiles, 1, height));
    assert(used =~= seq![true]);
    assert(struck =~= seq![true]);
    reveal_with_fuel(unmarked, 2);
    reveal_with_fuel(count_marked, 2);
    assert(used.drop_last() =~= Seq::<bool>::empty());
    assert(count_marked(used) == 1);
    assert(unmarked(s.projectiles, used) =~= Seq::<Projectile>::empty());
    assert(unmarked(s.enemies, struck) =~= Seq::<Enemy>::empty());
}

/// The same through a whole step: where the session holds one projectile and
/// one enemy, both stay on the field when they move, and the projectile's cell
/// is then covered by the enemy, the step leaves no projectile, leaves no
/// enemy unless the spawner adds a new one, and raises the score by exactly
/// `SCORE_PER_HIT`.
pub proof fn a_hit_in_a_step_removes_both(
    s: Snapshot,
    dt: u64,
    now: u64,
    p: Projectile,
    e: Enemy,
)
    requires
        s.scene == GameScene::Running,
        s.projectiles == seq![p],
        s.enemies == seq![e],
        projectile_step(dt)(p) is Some,
        enemy_step(dt, capped_sum(s.elapsed, dt as int), s.height)(e) is Some,
        meets(projectile_step(dt)(p).unwrap(), s.height)(
            enemy_step(dt, capped_sum(s.elapsed, dt as int), s.height)(e).unwrap(),
        ),
    ensures
        advanced(s, dt, now).projectiles == Seq::<Projectile>::empty(),
        advanced(s, dt, now).enemies == Seq::<Enemy>::empty(),
        advanced(s, dt, now).score == capped_sum(s.score, SCORE_PER_HIT as int),
        updated(s, dt, now, None).projectiles == Seq::<Projectile>::empty(),
        updated(s, dt, now, None).enemies == Seq::<Enemy>::empty(),
        updated(s, dt, now, None).score == capped_sum(s.score, SCORE_PER_HIT as int),
{
    let elapsed = capped_sum(s.elapsed, dt as int);
    Seq::lemma_filter_map_singleton(p, projectile_step(dt));
    Seq::lemma_filter_map_singleton(e, enemy_step(dt, elapsed, s.height));
    let m = moved(s, dt);
    a_hit_removes_both(m, projectile_step(dt)(p).unwrap(), enemy_step(dt, elapsed, s.height)(e).unwrap());
    let r = shots_resolved(m);
    if exists|j: int| first_at(r.enemies, covers(r.player.x, r.player.y, r.height), j) {
        let j = choose|j: int| first_at(r.enemies, covers(r.player.x, r.player.y, r.height), j);
        assert(0 <= j < r.enemies.len());
    }
    assert(first_index(r.enemies, covers(r.player.x, r.player.y, r.height)) is None);
    assert(crash_resolved(r, now) == r);
}

/// A projectile whose cell is covered by some enemy is marked as spent, and
/// the first enemy that covers its cell is marked as struck.
pub proof fn a_shot_that_meets_is_spent(
    shots: Seq<Projectile>,
    enemies: Seq<Enemy>,
    height: u16,
    k: int,
    j: int,
)
    requires
        0 <= k < shots.len(),
        first_at(enemies, meets(shots[k], height), j),
    ensures
        spent_marks(shots, enemies, height)[k],
        struck_marks(enemies, shots, height)[j],
        first_index(enemies, meets(shots[k], height)) == Some(j),
{
    assert(meets(shots[k], height)(enemies[j]));
    assert(any_passes(enemies, meets(shots[k], height)));
    assert(struck_by(enemies, j, shots, shots.len() as int, height));
    first_index_is(enemies, meets(shots[k], height), j);
}

} // verus!

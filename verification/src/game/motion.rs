use crate::game::entities::{is_on_screen, on_screen, Enemy, Projectile, ROW};
use vstd::prelude::*;

verus! {

/// Milliseconds of play after which enemies fall twice as fast as at the
/// start: the speed scale is one plus 0.02 for each second played.
pub const RAMP: u64 = 50_000;

/// How far an enemy falls in a step of `dt` milliseconds when `elapsed`
/// milliseconds have been played, in millionths of a row: its speed times the
/// speed scale `1 + elapsed / RAMP` times the step, rounded down.
pub open spec fn fall(e: Enemy, dt: u64, elapsed: u64) -> int {
    (e.speed * dt * (RAMP + elapsed)) / (RAMP as int)
}

/// What a step does to one enemy: it falls, and is dropped unless it is then
/// on the visible field.
pub open spec fn enemy_step(dt: u64, elapsed: u64, height: u16) -> spec_fn(Enemy) -> Option<
    Enemy,
> {
    |e: Enemy|
        if on_screen(e.y + fall(e, dt, elapsed), height as int) {
            Some(Enemy { y: (e.y + fall(e, dt, elapsed)) as u64, ..e })
        } else {
            None
        }
}

/// How far a projectile climbs in a step of `dt` milliseconds, in millionths
/// of a row: its speed times the step.
pub open spec fn climb(p: Projectile, dt: u64) -> int {
    p.speed * dt
}

/// What a step does to one projectile: it climbs, and is dropped if it is
/// then above row 1.
pub open spec fn projectile_step(dt: u64) -> spec_fn(Projectile) -> Option<Projectile> {
    |p: Projectile|
        if p.y - climb(p, dt) >= ROW {
            Some(Projectile { y: (p.y - climb(p, dt)) as u64, ..p })
        } else {
            None
        }
}

/// Moves one enemy by a step.
pub fn step_enemy(e: Enemy, dt: u64, elapsed: u64, height: u16) -> (out: Option<Enemy>)
    ensures
        out == enemy_step(dt, elapsed, height)(e),
{
    let speed: u128 = e.speed as u128;
    let span: u128 = dt as u128;
    assert(speed * span <= 0xffff_ffff * 0xffff_ffff_ffff_ffff) by (nonlinear_arith)
        requires
            speed <= 0xffff_ffff,
            span <= 0xffff_ffff_ffff_ffff,
    ;
    let pace: u128 = speed * span;
    let scale: u128 = RAMP as u128 + elapsed as u128;
    match pace.checked_mul(scale) {
        None => {
            proof {
                let product: int = pace * scale;
                assert(product / 50_000 >= 0x1_0000_0000_0000_0000) by (nonlinear_arith)
                    requires
                        product > 0xffff_ffff_ffff_ffff_ffff_ffff_ffff_ffff,
                ;
                assert((height - 1) * ROW < 0x1_0000_0000_0000_0000) by (nonlinear_arith)
                    requires
                        height <= 0xffff,
                ;
            }
            None
        },
        Some(product) => {
            let drop: u128 = product / (RAMP as u128);
            let y: u128 = e.y as u128 + drop;
            if y > u64::MAX as u128 {
                proof {
                    assert((height - 1) * ROW < 0x1_0000_0000_0000_0000) by (nonlinear_arith)
                        requires
                            height <= 0xffff,
                    ;
                }
                None
            } else if is_on_screen(y as u64, height) {
                Some(Enemy { x: e.x, y: y as u64, speed: e.speed, w: e.w, h: e.h })
            } else {
                None
            }
        },
    }
}

/// Moves one projectile by a step.
pub fn step_projectile(p: Projectile, dt: u64) -> (out: Option<Projectile>)
    ensures
        out == projectile_step(dt)(p),
{
    let speed: u128 = p.speed as u128;
    let span: u128 = dt as u128;
    assert(speed * span <= 0xffff_ffff * 0xffff_ffff_ffff_ffff) by (nonlinear_arith)
        requires
            speed <= 0xffff_ffff,
            span <= 0xffff_ffff_ffff_ffff,
    ;
    let rise: u128 = speed * span;
    if p.y as u128 >= rise + ROW as u128 {
        Some(Projectile { x: p.x, y: (p.y as u128 - rise) as u64, speed: p.speed })
    } else {
        None
    }
}

/// Moves every enemy by a step and keeps, in their order, those that are
/// then on the visible field.
pub fn step_enemies(all: &Vec<Enemy>, dt: u64, elapsed: u64, height: u16) -> (kept: Vec<Enemy>)
    ensures
        kept@ == all@.filter_map(enemy_step(dt, elapsed, height)),
{
    let mut kept: Vec<Enemy> = Vec::new();
    let mut i: usize = 0;
    proof {
        assert(all@.take(0) =~= Seq::<Enemy>::empty());
    }
    while i < all.len()
        invariant
            i <= all.len(),
            kept@ == all@.take(i as int).filter_map(enemy_step(dt, elapsed, height)),
        decreases all.len() - i,
    {
        proof {
            all@.lemma_filter_map_take_succ(enemy_step(dt, elapsed, height), i as int);
        }
        match step_enemy(all[i], dt, elapsed, height) {
            Some(e) => {
                kept.push(e);
            },
            None => {},
        }
        i += 1;
    }
    proof {
        assert(all@.take(i as int) =~= all@);
    }
    kept
}

/// Moves every projectile by a step and keeps, in their order, those that
/// are then at or below row 1.
pub fn step_projectiles(all: &Vec<Projectile>, dt: u64) -> (kept: Vec<Projectile>)
    ensures
        kept@ == all@.filter_map(projectile_step(dt)),
{
    let mut kept: Vec<Projectile> = Vec::new();
    let mut i: usize = 0;
    proof {
        assert(all@.take(0) =~= Seq::<Projectile>::empty());
    }
    while i < all.len()
        invariant
            i <= all.len(),
            kept@ == all@.take(i as int).filter_map(projectile_step(dt)),
        decreases all.len() - i,
    {
        proof {
            all@.lemma_filter_map_take_succ(projectile_step(dt), i as int);
        }
        match step_projectile(all[i], dt) {
            Some(p) => {
                kept.push(p);
            },
            None => {},
        }
        i += 1;
    }
    proof {
        assert(all@.take(i as int) =~= all@);
    }
    kept
}

} // verus!

use crate::game::entities::{is_on_screen, on_screen, Enemy, Player, Projectile};
use crate::game::dice::seeded;
use crate::game::lane::{lane_center, lane_column, LAST_LANE};
use crate::game::scene::GameScene;
use rand::rngs::StdRng;
use vstd::prelude::*;

verus! {

/// Smallest width and height of a playfield; smaller rectangles are widened.
pub const MIN_SIDE: u16 = 10;

/// Lives at the start of a session.
pub const START_LIVES: u8 = 3;

/// Spawn cooldown at the start of a session, in milliseconds.
pub const FIRST_COOLDOWN: u64 = 600;

/// The spawn cooldown never drops below this many milliseconds.
pub const COOLDOWN_FLOOR: u64 = 150;

/// Baseline fall speed of enemies, in thousandths of a row per second.
pub const BASE_SPEED: u32 = 10_000;

/// A rectangle of character cells.
#[derive(Debug, Clone, Copy, PartialEq, Eq, Structural)]
pub struct Rect {
    pub x: u16,
    pub y: u16,
    pub width: u16,
    pub height: u16,
}

impl Rect {
    /// A rectangle with the given corner and size.
    pub fn new(x: u16, y: u16, width: u16, height: u16) -> (area: Rect)
        ensures
            area == (Rect { x, y, width, height }),
    {
        Rect { x, y, width, height }
    }
}

/// The whole state of one game session.
pub struct GameState {
    pub width: u16,
    pub height: u16,
    pub scene: GameScene,
    pub player: Player,
    pub enemies: Vec<Enemy>,
    pub projectiles: Vec<Projectile>,
    pub score: u64,
    pub lives: u8,
    /// Clock reading, in milliseconds, before which the player takes no damage.
    pub invuln_until: Option<u64>,
    pub rng: StdRng,
    /// Clock reading, in milliseconds, of the last spawn opportunity taken.
    pub last_spawn: u64,
    /// Least time between spawn opportunities, in milliseconds.
    pub spawn_cooldown: u64,
    /// Baseline fall speed, in thousandths of a row per second.
    pub base_speed: u32,
    /// Simulated time so far, in milliseconds.
    pub elapsed: u64,
}

/// What a session holds, as mathematical values: every field of `GameState`
/// but the generator.
pub struct Snapshot {
    pub width: u16,
    pub height: u16,
    pub scene: GameScene,
    pub player: Player,
    pub enemies: Seq<Enemy>,
    pub projectiles: Seq<Projectile>,
    pub score: u64,
    pub lives: u8,
    pub invuln_until: Option<u64>,
    pub last_spawn: u64,
    pub spawn_cooldown: u64,
    pub base_speed: u32,
    pub elapsed: u64,
}

impl View for GameState {
    type V = Snapshot;

    open spec fn view(&self) -> Snapshot {
        Snapshot {
            width: self.width,
            height: self.height,
            scene: self.scene,
            player: self.player,
            enemies: self.enemies@,
            projectiles: self.projectiles@,
            score: self.score,
            lives: self.lives,
            invuln_until: self.invuln_until,
            last_spawn: self.last_spawn,
            spawn_cooldown: self.spawn_cooldown,
            base_speed: self.base_speed,
            elapsed: self.elapsed,
        }
    }
}

impl Snapshot {
    /// The invariants of a session: the field is at least ten cells each way,
    /// the player sits on the centre of a lane and inside the border rows,
    /// the game is over exactly when no life is left, and the spawn cooldown
    /// lies between its floor and its first value.
    pub open spec fn wf(self) -> bool {
        &&& self.width >= MIN_SIDE
        &&& self.height >= MIN_SIDE
        &&& self.player.lane <= LAST_LANE
        &&& self.player.x == lane_center(self.width, self.player.lane)
        &&& 1 <= self.player.y <= self.height - 2
        &&& self.lives <= START_LIVES
        &&& (self.scene == GameScene::GameOver <==> self.lives == 0)
        &&& COOLDOWN_FLOOR <= self.spawn_cooldown <= FIRST_COOLDOWN
    }
}

/// A side of the field after widening to the minimum.
pub open spec fn widened(side: u16) -> u16 {
    if side < MIN_SIDE {
        MIN_SIDE
    } else {
        side
    }
}

/// A player row brought into the rows between the borders, `1 ..= height - 2`.
pub open spec fn row_inside(y: u16, height: u16) -> u16 {
    if y < 1 {
        1
    } else if y > height - 2 {
        (height - 2) as u16
    } else {
        y
    }
}

/// The test that `resize` keeps an enemy by.
pub open spec fn enemy_visible(height: u16) -> spec_fn(Enemy) -> bool {
    |e: Enemy| on_screen(e.y as int, height as int)
}

/// The test that `resize` keeps a projectile by.
pub open spec fn projectile_visible(height: u16) -> spec_fn(Projectile) -> bool {
    |p: Projectile| on_screen(p.y as int, height as int)
}

/// The session that `GameState::new` opens on the rectangle `area` at the
/// clock reading `now`.
pub open spec fn opening(area: Rect, now: u64) -> Snapshot {
    let width = widened(area.width);
    let height = widened(area.height);
    Snapshot {
        width,
        height,
        scene: GameScene::Running,
        player: Player {
            lane: 1,
            x: lane_center(width, 1),
            y: (height - 3) as u16,
            fire_cooldown_until: now,
        },
        enemies: Seq::empty(),
        projectiles: Seq::empty(),
        score: 0,
        lives: START_LIVES,
        invuln_until: None,
        last_spawn: now,
        spawn_cooldown: FIRST_COOLDOWN,
        base_speed: BASE_SPEED,
        elapsed: 0,
    }
}

/// The session `s` after a resize to the rectangle `area`: both sides are
/// widened to the minimum, the player is brought back inside the border rows
/// and onto the centre of its lane, and only the entities on the visible
/// field are kept, in their order.
pub open spec fn resized(s: Snapshot, area: Rect) -> Snapshot {
    let width = widened(area.width);
    let height = widened(area.height);
    Snapshot {
        width,
        height,
        player: Player {
            x: lane_center(width, s.player.lane),
            y: row_inside(s.player.y, height),
            ..s.player
        },
        enemies: s.enemies.filter(enemy_visible(height)),
        projectiles: s.projectiles.filter(projectile_visible(height)),
        ..s
    }
}

/// The session `s` with the player brought back inside the border rows and
/// onto the centre of its lane.
pub open spec fn player_clamped(s: Snapshot) -> Snapshot {
    Snapshot {
        player: Player {
            x: lane_center(s.width, s.player.lane),
            y: row_inside(s.player.y, s.height),
            ..s.player
        },
        ..s
    }
}

proof fn filter_twice<A>(items: Seq<A>, keep: spec_fn(A) -> bool)
    ensures
        items.filter(keep).filter(keep) == items.filter(keep),
    decreases items.len(),
{
    reveal(Seq::filter);
    if items.len() > 0 {
        let head = items.drop_last();
        filter_twice(head, keep);
        if keep(items.last()) {
            head.filter(keep).lemma_filter_push(items.last(), keep);
        }
    }
}

/// Resizing a second time to the same rectangle changes nothing: the player's
/// position, and with it the whole session, is what the first resize left.
pub proof fn resize_is_idempotent(s: Snapshot, area: Rect)
    ensures
        resized(resized(s, area), area) == resized(s, area),
        resized(resized(s, area), area).player == resized(s, area).player,
{
    let height = widened(area.height);
    filter_twice(s.enemies, enemy_visible(height));
    filter_twice(s.projectiles, projectile_visible(height));
}

fn widen(side: u16) -> (out: u16)
    ensures
        out == widened(side),
{
    if side < MIN_SIDE {
        MIN_SIDE
    } else {
        side
    }
}

fn bring_inside(y: u16, height: u16) -> (out: u16)
    requires
        height >= 3,
    ensures
        out == row_inside(y, height),
{
    if y < 1 {
        1
    } else if y > height - 2 {
        height - 2
    } else {
        y
    }
}

fn visible_enemies(all: &Vec<Enemy>, height: u16) -> (kept: Vec<Enemy>)
    ensures
        kept@ == all@.filter(enemy_visible(height)),
{
    let mut kept: Vec<Enemy> = Vec::new();
    let mut i: usize = 0;
    proof {
        reveal(Seq::filter);
        assert(all@.take(0) =~= Seq::<Enemy>::empty());
    }
    while i < all.len()
        invariant
            i <= all.len(),
            kept@ == all@.take(i as int).filter(enemy_visible(height)),
        decreases all.len() - i,
    {
        let e = all[i];
        proof {
            assert(all@.take(i + 1) =~= all@.take(i as int).push(e));
            all@.take(i as int).lemma_filter_push(e, enemy_visible(height));
        }
        if is_on_screen(e.y, height) {
            kept.push(e);
        }
        i += 1;
    }
    proof {
        assert(all@.take(i as int) =~= all@);
    }
    kept
}

fn visible_projectiles(all: &Vec<Projectile>, height: u16) -> (kept: Vec<Projectile>)
    ensures
        kept@ == all@.filter(projectile_visible(height)),
{
    let mut kept: Vec<Projectile> = Vec::new();
    let mut i: usize = 0;
    proof {
        reveal(Seq::filter);
        assert(all@.take(0) =~= Seq::<Projectile>::empty());
    }
    while i < all.len()
        invariant
            i <= all.len(),
            kept@ == all@.take(i as int).filter(projectile_visible(height)),
        decreases all.len() - i,
    {
        let p = all[i];
        proof {
            assert(all@.take(i + 1) =~= all@.take(i as int).push(p));
            all@.take(i as int).lemma_filter_push(p, projectile_visible(height));
        }
        if is_on_screen(p.y, height) {
            kept.push(p);
        }
        i += 1;
    }
    proof {
        assert(all@.take(i as int) =~= all@);
    }
    kept
}

impl GameState {
    /// Opens a session on the rectangle `area`, with a generator seeded by
    /// `seed`, at the clock reading `now` (milliseconds).
    pub fn new(area: Rect, seed: u64, now: u64) -> (s: GameState)
        ensures
            s@ == opening(area, now),
            s@.wf(),
    {
        let width: u16 = widen(area.width);
        let height: u16 = widen(area.height);
        let s = GameState {
            width,
            height,
            scene: GameScene::Running,
            player: Player {
                lane: 1,
                x: lane_column(width, 1),
                y: height - 3,
                fire_cooldown_until: now,
            },
            enemies: Vec::new(),
            projectiles: Vec::new(),
            score: 0,
            lives: START_LIVES,
            invuln_until: None,
            rng: seeded(seed),
            last_spawn: now,
            spawn_cooldown: FIRST_COOLDOWN,
            base_speed: BASE_SPEED,
            elapsed: 0,
        };
        proof {
            assert(s@.enemies =~= Seq::<Enemy>::empty());
            assert(s@.projectiles =~= Seq::<Projectile>::empty());
        }
        s
    }

    /// Tests the invariants of a session.
    pub fn is_valid(&self) -> (valid: bool)
        ensures
            valid == self@.wf(),
    {
        self.width >= MIN_SIDE && self.height >= MIN_SIDE && self.player.lane <= LAST_LANE
            && self.player.x == lane_column(self.width, self.player.lane) && 1 <= self.player.y
            && self.player.y <= self.height - 2 && self.lives <= START_LIVES && ((self.scene
            == GameScene::GameOver) == (self.lives == 0)) && COOLDOWN_FLOOR <= self.spawn_cooldown
            && self.spawn_cooldown <= FIRST_COOLDOWN
    }

    /// The centre column of a lane on this session's field.
    pub fn lane_x(&self, lane: u8) -> (x: u16)
        ensures
            x == lane_center(self.width, lane),
    {
        lane_column(self.width, lane)
    }

    /// Brings the player back inside the border rows and onto the centre of
    /// its lane.
    pub fn clamp_player(&mut self)
        requires
            old(self).height >= 3,
        ensures
            final(self)@ == player_clamped(old(self)@),
            final(self).rng == old(self).rng,
            old(self)@.wf() ==> final(self)@.wf(),
    {
        self.player.y = bring_inside(self.player.y, self.height);
        self.player.x = lane_column(self.width, self.player.lane);
    }

    /// Fits the session to a new rectangle.
    pub fn resize(&mut self, area: Rect)
        ensures
            final(self)@ == resized(old(self)@, area),
            final(self).rng == old(self).rng,
            old(self)@.wf() ==> final(self)@.wf(),
    {
        self.width = widen(area.width);
        self.height = widen(area.height);
        self.player.y = bring_inside(self.player.y, self.height);
        self.player.x = lane_column(self.width, self.player.lane);
        self.enemies = visible_enemies(&self.enemies, self.height);
        self.projectiles = visible_projectiles(&self.projectiles, self.height);
    }
}

} // verus!

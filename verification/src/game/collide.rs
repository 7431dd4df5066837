use crate::game::entities::{cell_row, resolve_row, Enemy, Projectile};
use vstd::prelude::*;

verus! {

/// The last cell that a footprint covers along one axis, from its first cell
/// and its extent. An extent of zero covers one cell, as an extent of one.
pub open spec fn far_edge(start: u16, extent: u16) -> int {
    if extent >= 1 {
        start + extent - 1
    } else {
        start as int
    }
}

/// Whether two axis-aligned boxes of cells share a cell. Each box is given by
/// its first column and row and by its width and height.
pub open spec fn boxes_overlap(
    ax: u16,
    ay: u16,
    aw: u16,
    ah: u16,
    bx: u16,
    by: u16,
    bw: u16,
    bh: u16,
) -> bool {
    &&& far_edge(ax, aw) >= bx
    &&& far_edge(bx, bw) >= ax
    &&& far_edge(ay, ah) >= by
    &&& far_edge(by, bh) >= ay
}

/// Tests whether two axis-aligned boxes of cells share a cell.
pub fn aabb_intersect(
    ax: u16,
    ay: u16,
    aw: u16,
    ah: u16,
    bx: u16,
    by: u16,
    bw: u16,
    bh: u16,
) -> (hit: bool)
    ensures
        hit == boxes_overlap(ax, ay, aw, ah, bx, by, bw, bh),
{
    let ax2: u16 = ax.saturating_add(aw.saturating_sub(1));
    let ay2: u16 = ay.saturating_add(ah.saturating_sub(1));
    let bx2: u16 = bx.saturating_add(bw.saturating_sub(1));
    let by2: u16 = by.saturating_add(bh.saturating_sub(1));
    !(ax2 < bx || bx2 < ax || ay2 < by || by2 < ay)
}

/// The test "this enemy's footprint covers the cell at column `x`, row
/// `row`", on a field of the given height. The enemy's row is resolved from
/// its vertical position.
pub open spec fn covers(x: u16, row: u16, height: u16) -> spec_fn(Enemy) -> bool {
    |e: Enemy|
        boxes_overlap(x, row, 1, 1, e.x, cell_row(e.y as int, height as int) as u16, e.w, e.h)
}

/// The test "this enemy's footprint covers the cell that the projectile `p`
/// resolves to".
pub open spec fn meets(p: Projectile, height: u16) -> spec_fn(Enemy) -> bool {
    covers(p.x, cell_row(p.y as int, height as int) as u16, height)
}

/// Whether `j` is the first index at which an item passes the test.
pub open spec fn first_at<T>(items: Seq<T>, test: spec_fn(T) -> bool, j: int) -> bool {
    &&& 0 <= j < items.len()
    &&& test(items[j])
    &&& forall|i: int| 0 <= i < j ==> !test(#[trigger] items[i])
}

/// Whether any item passes the test.
pub open spec fn any_passes<T>(items: Seq<T>, test: spec_fn(T) -> bool) -> bool {
    exists|i: int| 0 <= i < items.len() && test(#[trigger] items[i])
}

/// The first index at which an item passes the test, if any does.
pub open spec fn first_index<T>(items: Seq<T>, test: spec_fn(T) -> bool) -> Option<int> {
    if exists|j: int| first_at(items, test, j) {
        Some(choose|j: int| first_at(items, test, j))
    } else {
        None
    }
}

/// At most one index is the first.
pub proof fn first_is_unique<T>(items: Seq<T>, test: spec_fn(T) -> bool, j: int, k: int)
    requires
        first_at(items, test, j),
        first_at(items, test, k),
    ensures
        j == k,
{
    if j < k {
        assert(!test(items[j]));
    } else if k < j {
        assert(!test(items[k]));
    }
}

/// An index that is the first is the one that `first_index` names.
pub proof fn first_index_is<T>(items: Seq<T>, test: spec_fn(T) -> bool, j: int)
    requires
        first_at(items, test, j),
    ensures
        first_index(items, test) == Some(j),
{
    let c = choose|c: int| first_at(items, test, c);
    first_is_unique(items, test, j, c);
}

/// Where no item passes the test, `first_index` names none.
pub proof fn first_index_none<T>(items: Seq<T>, test: spec_fn(T) -> bool)
    requires
        !any_passes(items, test),
    ensures
        first_index(items, test).is_none(),
{
    if exists|j: int| first_at(items, test, j) {
        let j = choose|j: int| first_at(items, test, j);
        assert(test(items[j]));
    }
}

/// Finds the first enemy, in the order of the collection, whose footprint
/// covers the cell at column `x`, row `row`.
pub fn first_enemy_at(x: u16, row: u16, enemies: &Vec<Enemy>, height: u16) -> (found: Option<
    usize,
>)
    requires
        height >= 3,
    ensures
        first_index(enemies@, covers(x, row, height)) == match found {
            Some(j) => Some(j as int),
            None => None,
        },
        found is Some <==> any_passes(enemies@, covers(x, row, height)),
        found matches Some(j) ==> first_at(enemies@, covers(x, row, height), j as int),
{
    let mut i: usize = 0;
    while i < enemies.len()
        invariant
            i <= enemies.len(),
            height >= 3,
            forall|k: int| 0 <= k < i ==> !covers(x, row, height)(#[trigger] enemies@[k]),
        decreases enemies.len() - i,
    {
        let e = enemies[i];
        let e_row: u16 = resolve_row(e.y, height);
        if aabb_intersect(x, row, 1, 1, e.x, e_row, e.w, e.h) {
            proof {
                assert(first_at(enemies@, covers(x, row, height), i as int));
                first_index_is(enemies@, covers(x, row, height), i as int);
                assert(covers(x, row, height)(enemies@[i as int]));
            }
            return Some(i);
        }
        i += 1;
    }
    proof {
        first_index_none(enemies@, covers(x, row, height));
    }
    None
}

/// Whether the projectile `p` hits an enemy: some enemy's footprint covers
/// its cell.
pub open spec fn spent(p: Projectile, enemies: Seq<Enemy>, height: u16) -> bool {
    any_passes(enemies, meets(p, height))
}

/// Whether enemy `j` is hit by one of the first `upto` projectiles: it is the
/// first enemy, in the order of the collection, whose footprint covers that
/// projectile's cell.
pub open spec fn struck_by(
    enemies: Seq<Enemy>,
    j: int,
    shots: Seq<Projectile>,
    upto: int,
    height: u16,
) -> bool {
    exists|k: int| 0 <= k < upto && first_at(enemies, meets(#[trigger] shots[k], height), j)
}

/// For each projectile, whether it hits an enemy.
pub open spec fn spent_marks(shots: Seq<Projectile>, enemies: Seq<Enemy>, height: u16) -> Seq<
    bool,
> {
    Seq::new(shots.len(), |k: int| spent(shots[k], enemies, height))
}

/// For each enemy, whether a projectile hits it.
pub open spec fn struck_marks(enemies: Seq<Enemy>, shots: Seq<Projectile>, height: u16) -> Seq<
    bool,
> {
    Seq::new(enemies.len(), |j: int| struck_by(enemies, j, shots, shots.len() as int, height))
}

/// The items that are not marked, in their order.
pub open spec fn unmarked<T>(items: Seq<T>, marks: Seq<bool>) -> Seq<T>
    decreases items.len(),
{
    if items.len() == 0 {
        Seq::empty()
    } else if marks.last() {
        unmarked(items.drop_last(), marks.drop_last())
    } else {
        unmarked(items.drop_last(), marks.drop_last()).push(items.last())
    }
}

/// How many marks are set.
pub open spec fn count_marked(marks: Seq<bool>) -> nat
    decreases marks.len(),
{
    if marks.len() == 0 {
        0
    } else if marks.last() {
        count_marked(marks.drop_last()) + 1
    } else {
        count_marked(marks.drop_last())
    }
}

/// Marks, in one scan, the projectiles that hit an enemy and the enemies
/// that are hit. Each projectile, in order, is tested against every enemy and
/// hits the first one that covers its cell; nothing is removed meanwhile.
pub fn mark_hits(shots: &Vec<Projectile>, enemies: &Vec<Enemy>, height: u16) -> (marks: (
    Vec<bool>,
    Vec<bool>,
))
    requires
        height >= 3,
    ensures
        marks.0@ == spent_marks(shots@, enemies@, height),
        marks.1@ == struck_marks(enemies@, shots@, height),
{
    let mut struck: Vec<bool> = Vec::new();
    let mut j: usize = 0;
    while j < enemies.len()
        invariant
            j <= enemies.len(),
            struck.len() == j,
            forall|i: int| 0 <= i < j ==> !#[trigger] struck@[i],
        decreases enemies.len() - j,
    {
        struck.push(false);
        j += 1;
    }
    let mut used: Vec<bool> = Vec::new();
    let mut k: usize = 0;
    while k < shots.len()
        invariant
            k <= shots.len(),
            height >= 3,
            used.len() == k,
            struck.len() == enemies.len(),
            forall|i: int| 0 <= i < k ==> #[trigger] used@[i] == spent(shots@[i], enemies@, height),
            forall|i: int|
                0 <= i < enemies.len() ==> #[trigger] struck@[i] == struck_by(
                    enemies@,
                    i,
                    shots@,
                    k as int,
                    height,
                ),
        decreases shots.len() - k,
    {
        let p = shots[k];
        let row: u16 = resolve_row(p.y, height);
        let found = first_enemy_at(p.x, row, enemies, height);
        let ghost before = struck@;
        match found {
            Some(at) => {
                used.push(true);
                struck.set(at, true);
            },
            None => {
                used.push(false);
            },
        }
        proof {
            assert forall|i: int| 0 <= i < enemies.len() implies #[trigger] struck@[i]
                == struck_by(enemies@, i, shots@, k + 1, height) by {
                let now_first = first_at(enemies@, meets(shots@[k as int], height), i);
                if struck_by(enemies@, i, shots@, k as int, height) {
                    let w = choose|w: int|
                        0 <= w < k && first_at(enemies@, meets(#[trigger] shots@[w], height), i);
                    assert(0 <= w < k + 1 && first_at(enemies@, meets(shots@[w], height), i));
                }
                if struck_by(enemies@, i, shots@, k + 1, height) {
                    let w = choose|w: int|
                        0 <= w < k + 1 && first_at(
                            enemies@,
                            meets(#[trigger] shots@[w], height),
                            i,
                        );
                    if w < k {
                        assert(struck_by(enemies@, i, shots@, k as int, height));
                    } else {
                        assert(now_first);
                    }
                }
                match found {
                    Some(at) => {
                        if i == at as int {
                            assert(now_first);
                            assert(struck_by(enemies@, i, shots@, k + 1, height));
                        } else if now_first {
                            first_is_unique(
                                enemies@,
                                meets(shots@[k as int], height),
                                i,
                                at as int,
                            );
                        }
                    },
                    None => {
                        if now_first {
                            assert(meets(shots@[k as int], height)(enemies@[i]));
                        }
                    },
                }
            }
        }
        k += 1;
    }
    proof {
        assert(used@ =~= spent_marks(shots@, enemies@, height));
        assert(struck@ =~= struck_marks(enemies@, shots@, height));
    }
    (used, struck)
}

/// Copies the items that are not marked into a new collection, in one pass
/// and in their order.
pub fn compact<T: Copy>(items: &Vec<T>, marks: &Vec<bool>) -> (kept: Vec<T>)
    requires
        marks.len() == items.len(),
    ensures
        kept@ == unmarked(items@, marks@),
{
    let mut kept: Vec<T> = Vec::new();
    let mut i: usize = 0;
    while i < items.len()
        invariant
            i <= items.len(),
            marks.len() == items.len(),
            kept@ == unmarked(items@.take(i as int), marks@.take(i as int)),
        decreases items.len() - i,
    {
        proof {
            assert(items@.take(i + 1).drop_last() =~= items@.take(i as int));
            assert(marks@.take(i + 1).drop_last() =~= marks@.take(i as int));
        }
        if !marks[i] {
            kept.push(items[i]);
        }
        i += 1;
    }
    proof {
        assert(items@.take(i as int) =~= items@);
        assert(marks@.take(i as int) =~= marks@);
    }
    kept
}

/// Counts the marks that are set.
pub fn count_set(marks: &Vec<bool>) -> (n: usize)
    ensures
        n == count_marked(marks@),
{
    let mut n: usize = 0;
    let mut i: usize = 0;
    while i < marks.len()
        invariant
            i <= marks.len(),
            n <= i,
            n == count_marked(marks@.take(i as int)),
        decreases marks.len() - i,
    {
        proof {
            assert(marks@.take(i + 1).drop_last() =~= marks@.take(i as int));
        }
        if marks[i] {
            n += 1;
        }
        i += 1;
    }
    proof {
        assert(marks@.take(i as int) =~= marks@);
    }
    n
}

} // verus!

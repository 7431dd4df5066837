use vstd::prelude::*;

verus! {

/// Vertical positions are held in millionths of a row: one row is `ROW` units.
pub const ROW: u64 = 1_000_000;

/// The player's car.
#[derive(Debug, Clone, Copy, PartialEq, Eq, Structural)]
pub struct Player {
    /// Lane index, 0 to 2.
    pub lane: u8,
    /// Column inside the game area.
    pub x: u16,
    /// Row inside the game area.
    pub y: u16,
    /// Clock reading, in milliseconds, from which the next shot is allowed.
    pub fire_cooldown_until: u64,
}

/// A falling enemy.
#[derive(Debug, Clone, Copy, PartialEq, Eq, Structural)]
pub struct Enemy {
    /// Column inside the game area.
    pub x: u16,
    /// Vertical position in millionths of a row.
    pub y: u64,
    /// Fall speed in thousandths of a row per second.
    pub speed: u32,
    /// Footprint width in cells.
    pub w: u16,
    /// Footprint height in cells.
    pub h: u16,
}

/// A shot travelling upward.
#[derive(Debug, Clone, Copy, PartialEq, Eq, Structural)]
pub struct Projectile {
    /// Column inside the game area.
    pub x: u16,
    /// Vertical position in millionths of a row.
    pub y: u64,
    /// Climb speed in thousandths of a row per second.
    pub speed: u32,
}

/// Whether a vertical position lies on the visible field: from row 1 up to,
/// but not including, the bottom border row `height - 1`.
pub open spec fn on_screen(y: int, height: int) -> bool {
    ROW <= y < (height - 1) * ROW
}

/// Tests whether a vertical position lies on the visible field.
pub fn is_on_screen(y: u64, height: u16) -> (visible: bool)
    ensures
        visible == on_screen(y as int, height as int),
{
    if height == 0 {
        assert((height - 1) * ROW < ROW) by (nonlinear_arith)
            requires
                height == 0,
        ;
        return false;
    }
    let rows: u64 = (height - 1) as u64;
    assert(rows * 1_000_000 <= 65_534 * 1_000_000) by (nonlinear_arith)
        requires
            rows <= 65_534,
    ;
    ROW <= y && y < rows * ROW
}

/// The cell row that a vertical position resolves to on a field of the given
/// height: the nearest row, halves rounding up, brought into `1 ..= height - 2`.
pub open spec fn cell_row(y: int, height: int) -> int {
    let nearest = (y + ROW / 2) / (ROW as int);
    if nearest < 1 {
        1
    } else if nearest > height - 2 {
        height - 2
    } else {
        nearest
    }
}

/// Resolves a vertical position to its cell row.
pub fn resolve_row(y: u64, height: u16) -> (row: u16)
    requires
        height >= 3,
    ensures
        row == cell_row(y as int, height as int),
        1 <= row <= height - 2,
{
    let top: u16 = height - 2;
    if y / ROW >= top as u64 {
        assert(y >= top * 1_000_000) by (nonlinear_arith)
            requires
                y / 1_000_000 >= top,
        ;
        return top;
    }
    assert(y < top * 1_000_000) by (nonlinear_arith)
        requires
            y / 1_000_000 < top,
    ;
    let nearest: u64 = (y + ROW / 2) / ROW;
    if nearest < 1 {
        1
    } else {
        nearest as u16
    }
}

} // verus!

use vstd::prelude::*;

verus! {

/// Index of the rightmost lane; lanes are numbered from zero.
pub const LAST_LANE: u8 = 2;

/// The centre column of a lane on a field `width` cells wide. The lane index
/// is first brought into `0 ..= 2`. One border cell on each side is left out,
/// and the lane centres sit at one, three and five sixths of what remains.
pub open spec fn lane_center(width: u16, lane: u8) -> u16 {
    let l: int = if lane > LAST_LANE { LAST_LANE as int } else { lane as int };
    if width <= 2 {
        0
    } else {
        let center: int = 1 + ((width - 2) * (2 * l + 1)) / 6;
        if center > width - 1 {
            (width - 1) as u16
        } else {
            center as u16
        }
    }
}

/// Computes the centre column of a lane.
pub fn lane_column(width: u16, lane: u8) -> (x: u16)
    ensures
        x == lane_center(width, lane),
{
    let l: u32 = if lane > LAST_LANE { LAST_LANE as u32 } else { lane as u32 };
    if width <= 2 {
        return 0;
    }
    let inner: u32 = (width - 2) as u32;
    assert(inner * (2 * l + 1) <= 65_533 * 5) by (nonlinear_arith)
        requires
            inner <= 65_533,
            l <= 2,
    ;
    let center: u32 = 1 + (inner * (2 * l + 1)) / 6;
    let last: u32 = (width - 1) as u32;
    if center > last {
        last as u16
    } else {
        center as u16
    }
}

/// Lane centres grow strictly with the lane index and stay strictly between
/// the two border columns, on every field at least ten cells wide.
pub proof fn lane_centers_increase(width: u16)
    requires
        width >= 10,
    ensures
        0 < lane_center(width, 0),
        lane_center(width, 0) < lane_center(width, 1),
        lane_center(width, 1) < lane_center(width, 2),
        lane_center(width, 2) < width - 1,
{
    lane_center_formula(width, 0);
    lane_center_formula(width, 1);
    lane_center_formula(width, 2);
    let inner: int = width - 2;
    assert(inner * (2 * 0u8 + 1) == inner) by (nonlinear_arith);
    assert(inner * (2 * 1u8 + 1) == 3 * inner) by (nonlinear_arith);
    assert(inner * (2 * 2u8 + 1) == 5 * inner) by (nonlinear_arith);
}

/// On a field at least ten cells wide the centre is the plain formula: the
/// final bound to the right border never takes effect.
pub proof fn lane_center_formula(width: u16, lane: u8)
    requires
        width >= 10,
        lane <= LAST_LANE,
    ensures
        lane_center(width, lane) == 1 + ((width - 2) * (2 * lane + 1)) / 6,
{
    let inner: int = width - 2;
    let odd: int = 2 * lane + 1;
    assert(inner * odd <= inner * 6) by (nonlinear_arith)
        requires
            inner >= 0,
            odd <= 6,
    ;
}

} // verus!

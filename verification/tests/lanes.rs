use jukebox_cli::game::lane::lane_column;
use jukebox_cli::game::state::{GameState, Rect};

#[test]
fn lane_centers_monotonic() {
    let s = GameState::new(Rect::new(0, 0, 80, 24), 42, 0);
    let x0 = s.lane_x(0);
    let x1 = s.lane_x(1);
    let x2 = s.lane_x(2);
    assert!(x0 < x1 && x1 < x2);
    assert!(x0 > 0 && x2 < s.width - 1);
}

#[test]
fn lane_centers_on_a_field_eighty_wide() {
    let s = GameState::new(Rect::new(0, 0, 80, 24), 7, 0);
    assert_eq!(s.lane_x(0), 14);
    assert_eq!(s.lane_x(1), 40);
    assert_eq!(s.lane_x(2), 66);
}

#[test]
fn lane_centers_on_the_narrowest_field() {
    assert_eq!(lane_column(10, 0), 2);
    assert_eq!(lane_column(10, 1), 5);
    assert_eq!(lane_column(10, 2), 7);
}

#[test]
fn lane_index_above_two_counts_as_two() {
    assert_eq!(lane_column(80, 3), 66);
    assert_eq!(lane_column(80, 255), 66);
}

#[test]
fn lane_centers_increase_on_every_width() {
    let mut width: u16 = 10;
    loop {
        let x0 = lane_column(width, 0);
        let x1 = lane_column(width, 1);
        let x2 = lane_column(width, 2);
        assert!(0 < x0 && x0 < x1 && x1 < x2 && x2 < width - 1, "width {}", width);
        if width == u16::MAX {
            break;
        }
        width += 1;
    }
}

#[test]
fn lane_center_of_a_field_without_inside_is_zero() {
    assert_eq!(lane_column(0, 1), 0);
    assert_eq!(lane_column(2, 2), 0);
    assert_eq!(lane_column(3, 0), 1);
}

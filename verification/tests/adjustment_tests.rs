//! The coordinate arithmetic and its laws on concrete values.

use sheetdraw::adjustment::{adjust_insert_coordinate, adjust_remove_coordinate,
    coordinate_in_window};
use sheetdraw::anchor::Anchor;
use sheetdraw::marker::{FromMarker, ToMarker};

#[test]
fn insert_moves_at_or_past_pivot() {
    // Insert monotonicity: c >= pivot gains exactly count, c < pivot stays.
    assert_eq!(adjust_insert_coordinate(10, 10, 3), 13);
    assert_eq!(adjust_insert_coordinate(11, 10, 3), 14);
    assert_eq!(adjust_insert_coordinate(9, 10, 3), 9);
    assert_eq!(adjust_insert_coordinate(1, 10, 3), 1);
}

#[test]
fn insert_with_pivot_zero_is_noop() {
    assert_eq!(adjust_insert_coordinate(5, 0, 3), 5);
}

#[test]
fn insert_with_count_zero_is_noop() {
    assert_eq!(adjust_insert_coordinate(5, 2, 0), 5);
    assert_eq!(adjust_remove_coordinate(5, 2, 0), 5);
}

#[test]
fn remove_shifts_past_window_and_clamps_inside() {
    // Window [10, 12): 12 and later shift down by 2, 10 and 11 clamp to 1.
    assert_eq!(adjust_remove_coordinate(12, 10, 2), 10);
    assert_eq!(adjust_remove_coordinate(13, 10, 2), 11);
    assert_eq!(adjust_remove_coordinate(10, 10, 2), 1);
    assert_eq!(adjust_remove_coordinate(11, 10, 2), 1);
    assert_eq!(adjust_remove_coordinate(9, 10, 2), 9);
}

#[test]
fn remove_clamp_floor_holds_on_extremes() {
    // Every result is at least 1, whatever the magnitudes.
    assert_eq!(adjust_remove_coordinate(1, 1, u32::MAX), 1);
    assert_eq!(adjust_remove_coordinate(u32::MAX, 1, u32::MAX), 1);
    assert!(adjust_remove_coordinate(u32::MAX, 5, 17) >= 1);
    assert_eq!(adjust_remove_coordinate(2, 1, 1), 1);
}

#[test]
fn insert_then_remove_restores() {
    for c in [1u32, 2, 9, 10, 11, 1000] {
        let up = adjust_insert_coordinate(c, 10, 4);
        assert_eq!(adjust_remove_coordinate(up, 10, 4), c);
    }
}

#[test]
fn remove_then_insert_is_not_an_identity() {
    // 5 lies inside the removed window [3, 13), clamps to 1, and the insert
    // cannot undo the clamp.
    let down = adjust_remove_coordinate(5, 3, 10);
    assert_eq!(down, 1);
    assert_eq!(adjust_insert_coordinate(down, 3, 10), 1);
    assert_ne!(adjust_insert_coordinate(down, 3, 10), 5);
}

#[test]
fn window_test_is_half_open() {
    assert!(!coordinate_in_window(9, 10, 2));
    assert!(coordinate_in_window(10, 10, 2));
    assert!(coordinate_in_window(11, 10, 2));
    assert!(!coordinate_in_window(12, 10, 2));
    assert!(!coordinate_in_window(10, 0, 2));
    assert!(!coordinate_in_window(10, 10, 0));
}

#[test]
fn marker_adjustments_follow_the_rules() {
    let mut m = ToMarker::default();
    m.set_col(4);
    m.set_row(12);
    m.adjustment_insert_coordinate(2, 3, 10, 5);
    assert_eq!(*m.get_col(), 7);
    assert_eq!(*m.get_row(), 17);
    m.adjustment_remove_coordinate(2, 3, 10, 5);
    assert_eq!(*m.get_col(), 4);
    assert_eq!(*m.get_row(), 12);
}

#[test]
fn marker_setters_clamp_to_one() {
    let mut m = FromMarker::default();
    m.set_col(0);
    m.set_row(0);
    assert_eq!(*m.get_col(), 1);
    assert_eq!(*m.get_row(), 1);
    m.set_col_off(250);
    m.set_row_off(375);
    assert_eq!(*m.get_col_off(), 250);
    assert_eq!(*m.get_row_off(), 375);
}

#[test]
fn legacy_anchor_moves_whole_rectangle() {
    let mut a = Anchor::default();
    a.set_left_column(2);
    a.set_right_column(5);
    a.set_top_row(3);
    a.set_bottom_row(8);
    a._adjustment_insert_row(&4);
    assert_eq!(*a.get_top_row(), 7);
    assert_eq!(*a.get_bottom_row(), 12);
    a._adjustment_insert_column(&1);
    assert_eq!(*a.get_left_column(), 3);
    assert_eq!(*a.get_right_column(), 6);
    a._adjustment_remove_row(&10);
    assert_eq!(*a.get_top_row(), 1);
    assert_eq!(*a.get_bottom_row(), 2);
    a._adjustment_remove_column(&10);
    assert_eq!(*a.get_left_column(), 1);
    assert_eq!(*a.get_right_column(), 1);
}

#[test]
fn legacy_anchor_offsets_untouched_by_adjustment() {
    let mut a = Anchor::default();
    a.set_left_offset(11);
    a.set_top_offset(22);
    a.set_right_offset(33);
    a.set_bottom_offset(44);
    a._adjustment_insert_row(&4);
    a._adjustment_remove_column(&2);
    assert_eq!(*a.get_left_offset(), 11);
    assert_eq!(*a.get_top_offset(), 22);
    assert_eq!(*a.get_right_offset(), 33);
    assert_eq!(*a.get_bottom_offset(), 44);
}

//! Coordinate arithmetic for structural sheet edits.
//!
//! A sheet edit is described by a pivot (the 1-based row or column index at
//! which the edit begins) and a count (how many rows or columns are inserted
//! or removed).  Every position-bearing object applies the same three
//! operations to each of its grid coordinates:
//!
//! * shift on insert: a coordinate at or past the pivot moves up by `count`;
//! * shift or clamp on remove: a coordinate past the removed window moves
//!   down by `count`, a coordinate at or past the pivot but not past the
//!   window collapses to the minimum valid index 1;
//! * window test: whether a coordinate lies inside the removed window
//!   `[pivot, pivot + count)`.
//!
//! A pivot of 0 never matches any coordinate, so an edit on one axis leaves
//! the other axis untouched by passing pivot 0 for it.

use vstd::prelude::*;

verus! {

/// The value of one grid coordinate after `count` rows or columns are
/// inserted at `pivot`: coordinates at or past the pivot move up by `count`,
/// the rest stay.
pub open spec fn spec_shift_insert(c: int, pivot: int, count: int) -> int {
    if pivot >= 1 && c >= pivot {
        c + count
    } else {
        c
    }
}

/// The value of one grid coordinate after `count` rows or columns are
/// removed starting at `pivot`: a coordinate past the removed window moves
/// down by `count`, a coordinate at or past the pivot inside the window
/// clamps to the minimum valid index 1, and a coordinate before the pivot
/// stays.
pub open spec fn spec_shift_remove(c: int, pivot: int, count: int) -> int {
    if pivot >= 1 && c >= pivot {
        if c >= pivot + count {
            c - count
        } else {
            1
        }
    } else {
        c
    }
}

/// Whether coordinate `c` lies inside the removed window `[pivot, pivot + count)`.
pub open spec fn spec_in_window(c: int, pivot: int, count: int) -> bool {
    pivot >= 1 && pivot <= c && c < pivot + count
}

/// Shift one coordinate for an insert of `count` rows or columns at `pivot`.
pub fn adjust_insert_coordinate(c: u32, pivot: u32, count: u32) -> (r: u32)
    requires
        pivot >= 1 && c >= pivot ==> c + count <= u32::MAX,
    ensures
        r as int == spec_shift_insert(c as int, pivot as int, count as int),
{
    if pivot >= 1 && c >= pivot {
        c + count
    } else {
        c
    }
}

/// Shift or clamp one coordinate for a removal of `count` rows or columns
/// starting at `pivot`.
pub fn adjust_remove_coordinate(c: u32, pivot: u32, count: u32) -> (r: u32)
    ensures
        r as int == spec_shift_remove(c as int, pivot as int, count as int),
{
    if pivot >= 1 && c >= pivot {
        if count <= c && c - count >= pivot {
            c - count
        } else {
            1
        }
    } else {
        c
    }
}

/// Test whether one coordinate lies inside the removed window.
pub fn coordinate_in_window(c: u32, pivot: u32, count: u32) -> (r: bool)
    ensures
        r == spec_in_window(c as int, pivot as int, count as int),
{
    pivot >= 1 && pivot <= c && c - pivot < count
}

} // verus!

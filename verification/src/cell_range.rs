//! A rectangular cell-range coordinate: the area a chart's data reference
//! names on some sheet.  Its four grid indices follow the same shift and
//! clamp rules as every other coordinate when the named sheet is edited.

use vstd::prelude::*;
use crate::adjustment::{spec_shift_insert, spec_shift_remove};
use crate::adjustment::{adjust_insert_coordinate, adjust_remove_coordinate};

verus! {

/// Mathematical model of a cell range: the four corner indices as integers.
pub struct CellRangeView {
    pub start_col: int,
    pub start_row: int,
    pub end_col: int,
    pub end_row: int,
}

/// The range after an insert of `off_col` columns at `root_col` and
/// `off_row` rows at `root_row`.
pub open spec fn range_after_insert(
    r: CellRangeView,
    root_col: int,
    off_col: int,
    root_row: int,
    off_row: int,
) -> CellRangeView {
    CellRangeView {
        start_col: spec_shift_insert(r.start_col, root_col, off_col),
        start_row: spec_shift_insert(r.start_row, root_row, off_row),
        end_col: spec_shift_insert(r.end_col, root_col, off_col),
        end_row: spec_shift_insert(r.end_row, root_row, off_row),
    }
}

/// The range after a removal of `off_col` columns at `root_col` and
/// `off_row` rows at `root_row`.
pub open spec fn range_after_remove(
    r: CellRangeView,
    root_col: int,
    off_col: int,
    root_row: int,
    off_row: int,
) -> CellRangeView {
    CellRangeView {
        start_col: spec_shift_remove(r.start_col, root_col, off_col),
        start_row: spec_shift_remove(r.start_row, root_row, off_row),
        end_col: spec_shift_remove(r.end_col, root_col, off_col),
        end_row: spec_shift_remove(r.end_row, root_row, off_row),
    }
}

/// Whether an insert of the given extent keeps all four shifted indices
/// within the machine range of `u32`.
pub open spec fn range_insert_fits(
    r: CellRangeView,
    root_col: int,
    off_col: int,
    root_row: int,
    off_row: int,
) -> bool {
    &&& (root_col >= 1 && r.start_col >= root_col ==> r.start_col + off_col <= u32::MAX)
    &&& (root_col >= 1 && r.end_col >= root_col ==> r.end_col + off_col <= u32::MAX)
    &&& (root_row >= 1 && r.start_row >= root_row ==> r.start_row + off_row <= u32::MAX)
    &&& (root_row >= 1 && r.end_row >= root_row ==> r.end_row + off_row <= u32::MAX)
}

/// A rectangular cell range, 1-based on both axes.
#[derive(Clone, Debug)]
pub struct CellRange {
    start_col: u32,
    start_row: u32,
    end_col: u32,
    end_row: u32,
}

impl View for CellRange {
    type V = CellRangeView;

    closed spec fn view(&self) -> CellRangeView {
        CellRangeView {
            start_col: self.start_col as int,
            start_row: self.start_row as int,
            end_col: self.end_col as int,
            end_row: self.end_row as int,
        }
    }
}

impl Default for CellRange {
    /// The default range covers the first cell.
    fn default() -> (r: Self)
        ensures
            r@ == (CellRangeView { start_col: 1, start_row: 1, end_col: 1, end_row: 1 }),
    {
        CellRange { start_col: 1, start_row: 1, end_col: 1, end_row: 1 }
    }
}

impl CellRange {
    /// Build a range from its four corner indices, each clamped to the
    /// minimum valid index 1.
    pub fn new(start_col: u32, start_row: u32, end_col: u32, end_row: u32) -> (r: Self)
        ensures
            r@ == (CellRangeView {
                start_col: if start_col >= 1 { start_col as int } else { 1 },
                start_row: if start_row >= 1 { start_row as int } else { 1 },
                end_col: if end_col >= 1 { end_col as int } else { 1 },
                end_row: if end_row >= 1 { end_row as int } else { 1 },
            }),
    {
        CellRange {
            start_col: if start_col >= 1 { start_col } else { 1 },
            start_row: if start_row >= 1 { start_row } else { 1 },
            end_col: if end_col >= 1 { end_col } else { 1 },
            end_row: if end_row >= 1 { end_row } else { 1 },
        }
    }

    pub fn get_start_col(&self) -> (r: u32)
        ensures
            r as int == self@.start_col,
    {
        self.start_col
    }

    pub fn get_start_row(&self) -> (r: u32)
        ensures
            r as int == self@.start_row,
    {
        self.start_row
    }

    pub fn get_end_col(&self) -> (r: u32)
        ensures
            r as int == self@.end_col,
    {
        self.end_col
    }

    pub fn get_end_row(&self) -> (r: u32)
        ensures
            r as int == self@.end_row,
    {
        self.end_row
    }

    /// Shift the range for an insert of columns and rows at the given
    /// pivots.
    pub fn adjustment_insert_coordinate(
        &mut self,
        root_col_num: u32,
        offset_col_num: u32,
        root_row_num: u32,
        offset_row_num: u32,
    )
        requires
            range_insert_fits(
                old(self)@,
                root_col_num as int,
                offset_col_num as int,
                root_row_num as int,
                offset_row_num as int,
            ),
        ensures
            final(self)@ == range_after_insert(
                old(self)@,
                root_col_num as int,
                offset_col_num as int,
                root_row_num as int,
                offset_row_num as int,
            ),
    {
        self.start_col = adjust_insert_coordinate(self.start_col, root_col_num, offset_col_num);
        self.start_row = adjust_insert_coordinate(self.start_row, root_row_num, offset_row_num);
        self.end_col = adjust_insert_coordinate(self.end_col, root_col_num, offset_col_num);
        self.end_row = adjust_insert_coordinate(self.end_row, root_row_num, offset_row_num);
    }

    /// Shift or clamp the range for a removal of columns and rows at the
    /// given pivots.
    pub fn adjustment_remove_coordinate(
        &mut self,
        root_col_num: u32,
        offset_col_num: u32,
        root_row_num: u32,
        offset_row_num: u32,
    )
        ensures
            final(self)@ == range_after_remove(
                old(self)@,
                root_col_num as int,
                offset_col_num as int,
                root_row_num as int,
                offset_row_num as int,
            ),
    {
        self.start_col = adjust_remove_coordinate(self.start_col, root_col_num, offset_col_num);
        self.start_row = adjust_remove_coordinate(self.start_row, root_row_num, offset_row_num);
        self.end_col = adjust_remove_coordinate(self.end_col, root_col_num, offset_col_num);
        self.end_row = adjust_remove_coordinate(self.end_row, root_row_num, offset_row_num);
    }
}

} // verus!

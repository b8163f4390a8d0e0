//! A chart: a composite object that owns a range anchor for its visual
//! position and, in addition, a data reference — the name of the sheet its
//! plotted range lives on plus that range's cell coordinates.
//!
//! The two halves are adjusted independently.  A structural edit on the
//! sheet hosting the chart moves the anchor; a structural edit on the sheet
//! the data reference names rewrites only the referenced range.  The two
//! must never be conflated.

use vstd::prelude::*;
use crate::cell_range::{range_after_insert, range_after_remove, range_insert_fits};
use crate::cell_range::{CellRange, CellRangeView};
use crate::strutil::str_eq;
use crate::two_cell_anchor::{two_cell_after_insert, two_cell_after_remove, two_cell_insert_fits,
    two_cell_is_removed};
use crate::two_cell_anchor::{spec_two_cell_events, TwoCellAnchor, TwoCellAnchorView};
use crate::xml::{event_views, XmlEvent};

verus! {

/// Mathematical model of a chart: its anchor, the sheet name its data
/// reference points at, and the referenced range.
pub struct ChartView {
    pub anchor: TwoCellAnchorView,
    pub data_sheet_name: Seq<char>,
    pub data_range: CellRangeView,
}

/// The chart after an insert on its hosting sheet: only the anchor moves.
pub open spec fn chart_after_insert(
    c: ChartView,
    root_col: int,
    off_col: int,
    root_row: int,
    off_row: int,
) -> ChartView {
    ChartView { anchor: two_cell_after_insert(c.anchor, root_col, off_col, root_row, off_row), ..c }
}

/// The chart after a removal on its hosting sheet: only the anchor moves or
/// clamps.
pub open spec fn chart_after_remove(
    c: ChartView,
    root_col: int,
    off_col: int,
    root_row: int,
    off_row: int,
) -> ChartView {
    ChartView { anchor: two_cell_after_remove(c.anchor, root_col, off_col, root_row, off_row), ..c }
}

/// Whether an insert keeps the shifted anchor within the machine range.
pub open spec fn chart_insert_fits(
    c: ChartView,
    root_col: int,
    off_col: int,
    root_row: int,
    off_row: int,
) -> bool {
    two_cell_insert_fits(c.anchor, root_col, off_col, root_row, off_row)
}

/// Whether a removal on the hosting sheet deletes the chart: its anchor is
/// removal-eligible.
pub open spec fn chart_is_removed(
    c: ChartView,
    root_col: int,
    off_col: int,
    root_row: int,
    off_row: int,
) -> bool {
    two_cell_is_removed(c.anchor, root_col, off_col, root_row, off_row)
}

/// The chart after an insert on the sheet named `sheet`: its data reference
/// is rewritten exactly when it names that sheet, and its anchor never
/// moves.
pub open spec fn chart_after_insert_with_sheet(
    c: ChartView,
    sheet: Seq<char>,
    root_col: int,
    off_col: int,
    root_row: int,
    off_row: int,
) -> ChartView {
    if c.data_sheet_name == sheet {
        ChartView { data_range: range_after_insert(c.data_range, root_col, off_col, root_row, off_row), ..c }
    } else {
        c
    }
}

/// The chart after a removal on the sheet named `sheet`: its data reference
/// is rewritten exactly when it names that sheet, and its anchor never
/// moves.
pub open spec fn chart_after_remove_with_sheet(
    c: ChartView,
    sheet: Seq<char>,
    root_col: int,
    off_col: int,
    root_row: int,
    off_row: int,
) -> ChartView {
    if c.data_sheet_name == sheet {
        ChartView { data_range: range_after_remove(c.data_range, root_col, off_col, root_row, off_row), ..c }
    } else {
        c
    }
}

/// A chart anchored to a from/to pair of grid points, plotting a data range
/// that may live on another sheet.
#[derive(Clone, Debug)]
pub struct Chart {
    two_cell_anchor: TwoCellAnchor,
    data_sheet_name: String,
    data_range: CellRange,
}

impl View for Chart {
    type V = ChartView;

    closed spec fn view(&self) -> ChartView {
        ChartView {
            anchor: self.two_cell_anchor@,
            data_sheet_name: self.data_sheet_name@,
            data_range: self.data_range@,
        }
    }
}

impl Default for Chart {
    /// The default chart spans the first cell and references the first cell
    /// of an unnamed sheet.
    fn default() -> (r: Self)
        ensures
            r@.anchor.from == (crate::marker::MarkerView { col: 1, col_off: 0, row: 1, row_off: 0 }),
            r@.anchor.to == (crate::marker::MarkerView { col: 1, col_off: 0, row: 1, row_off: 0 }),
            !r@.anchor.is_alternate_content,
            r@.anchor.content is Empty,
            r@.data_sheet_name == Seq::<char>::empty(),
            r@.data_range == (CellRangeView { start_col: 1, start_row: 1, end_col: 1, end_row: 1 }),
    {
        Chart {
            two_cell_anchor: TwoCellAnchor::default(),
            data_sheet_name: String::new(),
            data_range: CellRange::default(),
        }
    }
}

impl Chart {
    pub fn get_two_cell_anchor(&self) -> (r: &TwoCellAnchor)
        ensures
            r@ == self@.anchor,
    {
        &self.two_cell_anchor
    }

    pub fn set_two_cell_anchor(&mut self, value: TwoCellAnchor)
        ensures
            final(self)@ == (ChartView { anchor: value@, ..old(self)@ }),
    {
        self.two_cell_anchor = value;
    }

    pub fn get_data_sheet_name(&self) -> (r: &str)
        ensures
            r@ == self@.data_sheet_name,
    {
        self.data_sheet_name.as_str()
    }

    pub fn set_data_sheet_name(&mut self, value: String)
        ensures
            final(self)@ == (ChartView { data_sheet_name: value@, ..old(self)@ }),
    {
        self.data_sheet_name = value;
    }

    pub fn get_data_range(&self) -> (r: &CellRange)
        ensures
            r@ == self@.data_range,
    {
        &self.data_range
    }

    pub fn set_data_range(&mut self, value: CellRange)
        ensures
            final(self)@ == (ChartView { data_range: value@, ..old(self)@ }),
    {
        self.data_range = value;
    }

    /// The column of the anchor's top-left marker.
    pub fn get_col(&self) -> (r: u32)
        ensures
            r as int == self@.anchor.from.col,
    {
        *self.two_cell_anchor.get_from_marker().get_col()
    }

    /// The row of the anchor's top-left marker.
    pub fn get_row(&self) -> (r: u32)
        ensures
            r as int == self@.anchor.from.row,
    {
        *self.two_cell_anchor.get_from_marker().get_row()
    }

    /// Shift the chart's visual anchor for an insert on its hosting sheet;
    /// the data reference is untouched.
    pub fn adjustment_insert_coordinate(
        &mut self,
        root_col_num: u32,
        offset_col_num: u32,
        root_row_num: u32,
        offset_row_num: u32,
    )
        requires
            chart_insert_fits(
                old(self)@,
                root_col_num as int,
                offset_col_num as int,
                root_row_num as int,
                offset_row_num as int,
            ),
        ensures
            final(self)@ == chart_after_insert(
                old(self)@,
                root_col_num as int,
                offset_col_num as int,
                root_row_num as int,
                offset_row_num as int,
            ),
    {
        self.two_cell_anchor.adjustment_insert_coordinate(
            root_col_num,
            offset_col_num,
            root_row_num,
            offset_row_num,
        );
    }

    /// Shift or clamp the chart's visual anchor for a removal on its hosting
    /// sheet; the data reference is untouched.
    pub fn adjustment_remove_coordinate(
        &mut self,
        root_col_num: u32,
        offset_col_num: u32,
        root_row_num: u32,
        offset_row_num: u32,
    )
        ensures
            final(self)@ == chart_after_remove(
                old(self)@,
                root_col_num as int,
                offset_col_num as int,
                root_row_num as int,
                offset_row_num as int,
            ),
    {
        self.two_cell_anchor.adjustment_remove_coordinate(
            root_col_num,
            offset_col_num,
            root_row_num,
            offset_row_num,
        );
    }

    /// Whether a removal on the hosting sheet deletes the chart.
    pub fn is_remove_coordinate(
        &self,
        root_col_num: u32,
        offset_col_num: u32,
        root_row_num: u32,
        offset_row_num: u32,
    ) -> (r: bool)
        ensures
            r == chart_is_removed(
                self@,
                root_col_num as int,
                offset_col_num as int,
                root_row_num as int,
                offset_row_num as int,
            ),
    {
        self.two_cell_anchor.is_remove_coordinate(
            root_col_num,
            offset_col_num,
            root_row_num,
            offset_row_num,
        )
    }

    /// Rewrite the data reference for an insert on the sheet named
    /// `sheet_name`; the visual anchor is untouched, and a reference naming
    /// any other sheet is untouched.
    pub fn adjustment_insert_coordinate_with_sheet(
        &mut self,
        sheet_name: &str,
        root_col_num: u32,
        offset_col_num: u32,
        root_row_num: u32,
        offset_row_num: u32,
    )
        requires
            old(self)@.data_sheet_name == sheet_name@ ==> range_insert_fits(
                old(self)@.data_range,
                root_col_num as int,
                offset_col_num as int,
                root_row_num as int,
                offset_row_num as int,
            ),
        ensures
            final(self)@ == chart_after_insert_with_sheet(
                old(self)@,
                sheet_name@,
                root_col_num as int,
                offset_col_num as int,
                root_row_num as int,
                offset_row_num as int,
            ),
    {
        if str_eq(self.data_sheet_name.as_str(), sheet_name) {
            self.data_range.adjustment_insert_coordinate(
                root_col_num,
                offset_col_num,
                root_row_num,
                offset_row_num,
            );
        }
    }

    /// Rewrite the data reference for a removal on the sheet named
    /// `sheet_name`; the visual anchor is untouched, and a reference naming
    /// any other sheet is untouched.
    pub fn adjustment_remove_coordinate_with_sheet(
        &mut self,
        sheet_name: &str,
        root_col_num: u32,
        offset_col_num: u32,
        root_row_num: u32,
        offset_row_num: u32,
    )
        ensures
            final(self)@ == chart_after_remove_with_sheet(
                old(self)@,
                sheet_name@,
                root_col_num as int,
                offset_col_num as int,
                root_row_num as int,
                offset_row_num as int,
            ),
    {
        if str_eq(self.data_sheet_name.as_str(), sheet_name) {
            self.data_range.adjustment_remove_coordinate(
                root_col_num,
                offset_col_num,
                root_row_num,
                offset_row_num,
            );
        }
    }

    /// Append the canonical element-stream encoding of the chart's visual
    /// anchor to `events`; the data reference is not part of the drawing
    /// element.
    pub fn write_to(&self, events: &mut Vec<XmlEvent>)
        ensures
            event_views(final(events)@) == event_views(old(events)@) + spec_two_cell_events(
                self@.anchor,
            ),
    {
        self.two_cell_anchor.write_to(events);
    }
}

} // verus!

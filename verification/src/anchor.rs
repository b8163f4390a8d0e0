//! The legacy comment-shape anchor: a bounding rectangle given by left/top
//! and right/bottom cell indices, each with a sub-cell offset.
//!
//! Its adjustment operations take only a count: the whole rectangle moves by
//! the count on insert, and moves down with a floor of 1 on remove.

use vstd::prelude::*;

verus! {

/// Mathematical model of an anchor rectangle: the eight coordinates as
/// integers.
pub struct AnchorView {
    pub left_column: int,
    pub left_offset: int,
    pub top_row: int,
    pub top_offset: int,
    pub right_column: int,
    pub right_offset: int,
    pub bottom_row: int,
    pub bottom_offset: int,
}

/// One anchor coordinate after a removal of `count` rows or columns: it
/// moves down by `count` but never below the minimum valid index 1.
pub open spec fn anchor_coordinate_after_remove(c: int, count: int) -> int {
    if c > count {
        c - count
    } else {
        1
    }
}

#[derive(Clone, Debug)]
pub struct Anchor {
    left_column: u32,
    left_offset: u32,
    top_row: u32,
    top_offset: u32,
    right_column: u32,
    right_offset: u32,
    bottom_row: u32,
    bottom_offset: u32,
}

impl View for Anchor {
    type V = AnchorView;

    closed spec fn view(&self) -> AnchorView {
        AnchorView {
            left_column: self.left_column as int,
            left_offset: self.left_offset as int,
            top_row: self.top_row as int,
            top_offset: self.top_offset as int,
            right_column: self.right_column as int,
            right_offset: self.right_offset as int,
            bottom_row: self.bottom_row as int,
            bottom_offset: self.bottom_offset as int,
        }
    }
}

impl Default for Anchor {
    fn default() -> (r: Self)
        ensures
            r@ == (AnchorView {
                left_column: 0,
                left_offset: 0,
                top_row: 0,
                top_offset: 0,
                right_column: 0,
                right_offset: 0,
                bottom_row: 0,
                bottom_offset: 0,
            }),
    {
        Anchor {
            left_column: 0,
            left_offset: 0,
            top_row: 0,
            top_offset: 0,
            right_column: 0,
            right_offset: 0,
            bottom_row: 0,
            bottom_offset: 0,
        }
    }
}

impl Anchor {
    pub fn get_left_column(&self) -> (r: &u32)
        ensures
            *r as int == self@.left_column,
    {
        &self.left_column
    }

    pub fn set_left_column(&mut self, value: u32)
        ensures
            final(self)@ == (AnchorView { left_column: value as int, ..old(self)@ }),
    {
        self.left_column = value;
    }

    pub fn get_left_offset(&self) -> (r: &u32)
        ensures
            *r as int == self@.left_offset,
    {
        &self.left_offset
    }

    pub fn set_left_offset(&mut self, value: u32)
        ensures
            final(self)@ == (AnchorView { left_offset: value as int, ..old(self)@ }),
    {
        self.left_offset = value;
    }

    pub fn get_top_row(&self) -> (r: &u32)
        ensures
            *r as int == self@.top_row,
    {
        &self.top_row
    }

    pub fn set_top_row(&mut self, value: u32)
        ensures
            final(self)@ == (AnchorView { top_row: value as int, ..old(self)@ }),
    {
        self.top_row = value;
    }

    pub fn get_top_offset(&self) -> (r: &u32)
        ensures
            *r as int == self@.top_offset,
    {
        &self.top_offset
    }

    pub fn set_top_offset(&mut self, value: u32)
        ensures
            final(self)@ == (AnchorView { top_offset: value as int, ..old(self)@ }),
    {
        self.top_offset = value;
    }

    pub fn get_right_column(&self) -> (r: &u32)
        ensures
            *r as int == self@.right_column,
    {
        &self.right_column
    }

    pub fn set_right_column(&mut self, value: u32)
        ensures
            final(self)@ == (AnchorView { right_column: value as int, ..old(self)@ }),
    {
        self.right_column = value;
    }

    pub fn get_right_offset(&self) -> (r: &u32)
        ensures
            *r as int == self@.right_offset,
    {
        &self.right_offset
    }

    pub fn set_right_offset(&mut self, value: u32)
        ensures
            final(self)@ == (AnchorView { right_offset: value as int, ..old(self)@ }),
    {
        self.right_offset = value;
    }

    pub fn get_bottom_row(&self) -> (r: &u32)
        ensures
            *r as int == self@.bottom_row,
    {
        &self.bottom_row
    }

    pub fn set_bottom_row(&mut self, value: u32)
        ensures
            final(self)@ == (AnchorView { bottom_row: value as int, ..old(self)@ }),
    {
        self.bottom_row = value;
    }

    pub fn get_bottom_offset(&self) -> (r: &u32)
        ensures
            *r as int == self@.bottom_offset,
    {
        &self.bottom_offset
    }

    pub fn set_bottom_offset(&mut self, value: u32)
        ensures
            final(self)@ == (AnchorView { bottom_offset: value as int, ..old(self)@ }),
    {
        self.bottom_offset = value;
    }

    /// Move the whole rectangle down the sheet by `num_rows`.
    pub fn _adjustment_insert_row(&mut self, num_rows: &u32)
        requires
            old(self)@.top_row + *num_rows <= u32::MAX,
            old(self)@.bottom_row + *num_rows <= u32::MAX,
        ensures
            final(self)@ == (AnchorView {
                top_row: old(self)@.top_row + *num_rows,
                bottom_row: old(self)@.bottom_row + *num_rows,
                ..old(self)@
            }),
    {
        self.top_row = self.top_row + *num_rows;
        self.bottom_row = self.bottom_row + *num_rows;
    }

    /// Move the whole rectangle right by `num_cols`.
    pub fn _adjustment_insert_column(&mut self, num_cols: &u32)
        requires
            old(self)@.left_column + *num_cols <= u32::MAX,
            old(self)@.right_column + *num_cols <= u32::MAX,
        ensures
            final(self)@ == (AnchorView {
                left_column: old(self)@.left_column + *num_cols,
                right_column: old(self)@.right_column + *num_cols,
                ..old(self)@
            }),
    {
        self.left_column = self.left_column + *num_cols;
        self.right_column = self.right_column + *num_cols;
    }

    /// Move the whole rectangle up the sheet by `num_rows`, never above the
    /// minimum valid index 1.
    pub fn _adjustment_remove_row(&mut self, num_rows: &u32)
        ensures
            final(self)@ == (AnchorView {
                top_row: anchor_coordinate_after_remove(old(self)@.top_row, *num_rows as int),
                bottom_row: anchor_coordinate_after_remove(old(self)@.bottom_row, *num_rows as int),
                ..old(self)@
            }),
    {
        self.top_row = if self.top_row > *num_rows {
            self.top_row - *num_rows
        } else {
            1
        };
        self.bottom_row = if self.bottom_row > *num_rows {
            self.bottom_row - *num_rows
        } else {
            1
        };
    }

    /// Move the whole rectangle left by `num_cols`, never past the minimum
    /// valid index 1.
    pub fn _adjustment_remove_column(&mut self, num_cols: &u32)
        ensures
            final(self)@ == (AnchorView {
                left_column: anchor_coordinate_after_remove(old(self)@.left_column, *num_cols as int),
                right_column: anchor_coordinate_after_remove(old(self)@.right_column, *num_cols as int),
                ..old(self)@
            }),
    {
        self.left_column = if self.left_column > *num_cols {
            self.left_column - *num_cols
        } else {
            1
        };
        self.right_column = if self.right_column > *num_cols {
            self.right_column - *num_cols
        } else {
            1
        };
    }
}

} // verus!

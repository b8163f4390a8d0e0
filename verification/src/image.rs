//! An image: a floating picture anchored either to one grid point with an
//! explicit extent or to a from/to pair of grid points.  Whichever anchor is
//! present receives every adjustment call.

use vstd::prelude::*;
use crate::one_cell_anchor::{one_cell_after_insert, one_cell_after_remove, one_cell_insert_fits,
    one_cell_is_removed};
use crate::one_cell_anchor::{OneCellAnchor, OneCellAnchorView};
use crate::two_cell_anchor::{two_cell_after_insert, two_cell_after_remove, two_cell_insert_fits,
    two_cell_is_removed};
use crate::one_cell_anchor::spec_one_cell_events;
use crate::two_cell_anchor::{spec_two_cell_events, TwoCellAnchor, TwoCellAnchorView};
use crate::xml::{event_views, XmlEvent, XmlEventView};

verus! {

/// Mathematical model of an image: at most one anchor of each shape.
pub struct ImageView {
    pub one_cell: Option<OneCellAnchorView>,
    pub two_cell: Option<TwoCellAnchorView>,
}

impl ImageView {
    /// Whether the image carries an anchor at all.
    pub open spec fn has_anchor(self) -> bool {
        self.one_cell is Some || self.two_cell is Some
    }

    /// The column of the image's anchor point: the point anchor's marker
    /// when present, otherwise the range anchor's top-left marker.
    pub open spec fn col(self) -> int {
        match self.one_cell {
            Some(a) => a.from.col,
            None => match self.two_cell {
                Some(a) => a.from.col,
                None => 0,
            },
        }
    }

    /// The row of the image's anchor point, chosen as for `col`.
    pub open spec fn row(self) -> int {
        match self.one_cell {
            Some(a) => a.from.row,
            None => match self.two_cell {
                Some(a) => a.from.row,
                None => 0,
            },
        }
    }
}

/// The image after an insert of columns and rows at the given pivots:
/// whichever anchors are present move.
pub open spec fn image_after_insert(
    v: ImageView,
    root_col: int,
    off_col: int,
    root_row: int,
    off_row: int,
) -> ImageView {
    ImageView {
        one_cell: match v.one_cell {
            Some(a) => Some(one_cell_after_insert(a, root_col, off_col, root_row, off_row)),
            None => None,
        },
        two_cell: match v.two_cell {
            Some(a) => Some(two_cell_after_insert(a, root_col, off_col, root_row, off_row)),
            None => None,
        },
    }
}

/// The image after a removal of columns and rows at the given pivots.
pub open spec fn image_after_remove(
    v: ImageView,
    root_col: int,
    off_col: int,
    root_row: int,
    off_row: int,
) -> ImageView {
    ImageView {
        one_cell: match v.one_cell {
            Some(a) => Some(one_cell_after_remove(a, root_col, off_col, root_row, off_row)),
            None => None,
        },
        two_cell: match v.two_cell {
            Some(a) => Some(two_cell_after_remove(a, root_col, off_col, root_row, off_row)),
            None => None,
        },
    }
}

/// Whether an insert of the given extent keeps every present anchor within
/// the machine range of `u32`.
pub open spec fn image_insert_fits(
    v: ImageView,
    root_col: int,
    off_col: int,
    root_row: int,
    off_row: int,
) -> bool {
    &&& match v.one_cell {
        Some(a) => one_cell_insert_fits(a, root_col, off_col, root_row, off_row),
        None => true,
    }
    &&& match v.two_cell {
        Some(a) => two_cell_insert_fits(a, root_col, off_col, root_row, off_row),
        None => true,
    }
}

/// Whether a removal deletes the image: some present anchor is
/// removal-eligible.
pub open spec fn image_is_removed(
    v: ImageView,
    root_col: int,
    off_col: int,
    root_row: int,
    off_row: int,
) -> bool {
    ||| match v.one_cell {
        Some(a) => one_cell_is_removed(a, root_col, off_col, root_row, off_row),
        None => false,
    }
    ||| match v.two_cell {
        Some(a) => two_cell_is_removed(a, root_col, off_col, root_row, off_row),
        None => false,
    }
}


/// The canonical element-stream encoding of an image: whichever anchors are
/// present, the range anchor first.
pub open spec fn spec_image_events(v: ImageView) -> Seq<XmlEventView> {
    (match v.two_cell {
        Some(a) => spec_two_cell_events(a),
        None => Seq::empty(),
    }) + (match v.one_cell {
        Some(a) => spec_one_cell_events(a),
        None => Seq::empty(),
    })
}

/// A floating picture with its anchor.
#[derive(Clone, Debug)]
pub struct Image {
    one_cell_anchor: Option<OneCellAnchor>,
    two_cell_anchor: Option<TwoCellAnchor>,
}

impl View for Image {
    type V = ImageView;

    closed spec fn view(&self) -> ImageView {
        ImageView {
            one_cell: match self.one_cell_anchor {
                Some(a) => Some(a@),
                None => None,
            },
            two_cell: match self.two_cell_anchor {
                Some(a) => Some(a@),
                None => None,
            },
        }
    }
}

impl Default for Image {
    /// The default image has no anchor yet.
    fn default() -> (r: Self)
        ensures
            r@.one_cell is None,
            r@.two_cell is None,
    {
        Image { one_cell_anchor: None, two_cell_anchor: None }
    }
}

impl Image {
    pub fn get_one_cell_anchor(&self) -> (r: Option<&OneCellAnchor>)
        ensures
            match r {
                Some(a) => self@.one_cell == Some(a@),
                None => self@.one_cell is None,
            },
    {
        self.one_cell_anchor.as_ref()
    }

    pub fn set_one_cell_anchor(&mut self, value: OneCellAnchor)
        ensures
            final(self)@ == (ImageView { one_cell: Some(value@), ..old(self)@ }),
    {
        self.one_cell_anchor = Some(value);
    }

    pub fn get_two_cell_anchor(&self) -> (r: Option<&TwoCellAnchor>)
        ensures
            match r {
                Some(a) => self@.two_cell == Some(a@),
                None => self@.two_cell is None,
            },
    {
        self.two_cell_anchor.as_ref()
    }

    pub fn set_two_cell_anchor(&mut self, value: TwoCellAnchor)
        ensures
            final(self)@ == (ImageView { two_cell: Some(value@), ..old(self)@ }),
    {
        self.two_cell_anchor = Some(value);
    }

    /// The column of the image's anchor point.
    pub fn get_col(&self) -> (r: u32)
        requires
            self@.has_anchor(),
        ensures
            r as int == self@.col(),
    {
        match &self.one_cell_anchor {
            Some(a) => *a.get_from_marker().get_col(),
            None => match &self.two_cell_anchor {
                Some(a) => *a.get_from_marker().get_col(),
                None => 0,
            },
        }
    }

    /// The row of the image's anchor point.
    pub fn get_row(&self) -> (r: u32)
        requires
            self@.has_anchor(),
        ensures
            r as int == self@.row(),
    {
        match &self.one_cell_anchor {
            Some(a) => *a.get_from_marker().get_row(),
            None => match &self.two_cell_anchor {
                Some(a) => *a.get_from_marker().get_row(),
                None => 0,
            },
        }
    }

    /// Shift every present anchor for an insert of columns and rows at the
    /// given pivots.
    pub fn adjustment_insert_coordinate(
        &mut self,
        root_col_num: u32,
        offset_col_num: u32,
        root_row_num: u32,
        offset_row_num: u32,
    )
        requires
            image_insert_fits(
                old(self)@,
                root_col_num as int,
                offset_col_num as int,
                root_row_num as int,
                offset_row_num as int,
            ),
        ensures
            final(self)@ == image_after_insert(
                old(self)@,
                root_col_num as int,
                offset_col_num as int,
                root_row_num as int,
                offset_row_num as int,
            ),
    {
        match &mut self.one_cell_anchor {
            Some(a) => a.adjustment_insert_coordinate(
                root_col_num,
                offset_col_num,
                root_row_num,
                offset_row_num,
            ),
            None => {},
        }
        match &mut self.two_cell_anchor {
            Some(a) => a.adjustment_insert_coordinate(
                root_col_num,
                offset_col_num,
                root_row_num,
                offset_row_num,
            ),
            None => {},
        }
    }

    /// Shift or clamp every present anchor for a removal of columns and rows
    /// at the given pivots.
    pub fn adjustment_remove_coordinate(
        &mut self,
        root_col_num: u32,
        offset_col_num: u32,
        root_row_num: u32,
        offset_row_num: u32,
    )
        ensures
            final(self)@ == image_after_remove(
                old(self)@,
                root_col_num as int,
                offset_col_num as int,
                root_row_num as int,
                offset_row_num as int,
            ),
    {
        match &mut self.one_cell_anchor {
            Some(a) => a.adjustment_remove_coordinate(
                root_col_num,
                offset_col_num,
                root_row_num,
                offset_row_num,
            ),
            None => {},
        }
        match &mut self.two_cell_anchor {
            Some(a) => a.adjustment_remove_coordinate(
                root_col_num,
                offset_col_num,
                root_row_num,
                offset_row_num,
            ),
            None => {},
        }
    }

    /// Whether a removal of columns and rows at the given pivots deletes
    /// this image.
    pub fn is_remove_coordinate(
        &self,
        root_col_num: u32,
        offset_col_num: u32,
        root_row_num: u32,
        offset_row_num: u32,
    ) -> (r: bool)
        ensures
            r == image_is_removed(
                self@,
                root_col_num as int,
                offset_col_num as int,
                root_row_num as int,
                offset_row_num as int,
            ),
    {
        let one_removed = match &self.one_cell_anchor {
            Some(a) => a.is_remove_coordinate(
                root_col_num,
                offset_col_num,
                root_row_num,
                offset_row_num,
            ),
            None => false,
        };
        let two_removed = match &self.two_cell_anchor {
            Some(a) => a.is_remove_coordinate(
                root_col_num,
                offset_col_num,
                root_row_num,
                offset_row_num,
            ),
            None => false,
        };
        one_removed || two_removed
    }

    /// Append the canonical element-stream encoding of this image's anchors
    /// to `events`.
    pub fn write_to(&self, events: &mut Vec<XmlEvent>)
        ensures
            event_views(final(events)@) == event_views(old(events)@) + spec_image_events(self@),
    {
        match &self.two_cell_anchor {
            Some(a) => a.write_to(events),
            None => {},
        }
        let ghost after_two = event_views(events@);
        match &self.one_cell_anchor {
            Some(a) => a.write_to(events),
            None => {},
        }
        proof {
            assert(event_views(events@) =~= event_views(old(events)@) + spec_image_events(
                self@,
            ));
        }
    }
}

} // verus!

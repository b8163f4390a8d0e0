//! Grid-point markers: the pixel/EMU-precise corners of a drawing anchor.
//!
//! A marker names a cell by 1-based column and row index plus a sub-cell
//! offset on each axis.  Index 0 is not a valid anchored position, so the
//! setters clamp the index to the minimum valid value 1; the offsets are
//! unconstrained.

use vstd::prelude::*;
use crate::adjustment::{spec_shift_insert, spec_shift_remove};
use crate::adjustment::{adjust_insert_coordinate, adjust_remove_coordinate};
use crate::strutil::str_eq;
use crate::xml::{event_views, XmlEvent, XmlEventView, XmlTag, XmlTagView};
use vstd::string::StringExecFns;

verus! {

/// Mathematical model of a marker: the four coordinates as integers.
pub struct MarkerView {
    pub col: int,
    pub col_off: int,
    pub row: int,
    pub row_off: int,
}

impl MarkerView {
    /// A marker is well formed when its column and row are valid 1-based
    /// grid indices.
    pub open spec fn wf(self) -> bool {
        self.col >= 1 && self.row >= 1
    }
}

/// The marker after an insert of `off_col` columns at `root_col` and
/// `off_row` rows at `root_row`; a pivot of 0 leaves that axis untouched.
pub open spec fn marker_after_insert(
    m: MarkerView,
    root_col: int,
    off_col: int,
    root_row: int,
    off_row: int,
) -> MarkerView {
    MarkerView {
        col: spec_shift_insert(m.col, root_col, off_col),
        row: spec_shift_insert(m.row, root_row, off_row),
        ..m
    }
}

/// The marker after a removal of `off_col` columns at `root_col` and
/// `off_row` rows at `root_row`; a pivot of 0 leaves that axis untouched.
pub open spec fn marker_after_remove(
    m: MarkerView,
    root_col: int,
    off_col: int,
    root_row: int,
    off_row: int,
) -> MarkerView {
    MarkerView {
        col: spec_shift_remove(m.col, root_col, off_col),
        row: spec_shift_remove(m.row, root_row, off_row),
        ..m
    }
}

/// Whether an insert of the given extent keeps both shifted coordinates
/// within the machine range of `u32`.
pub open spec fn marker_insert_fits(
    m: MarkerView,
    root_col: int,
    off_col: int,
    root_row: int,
    off_row: int,
) -> bool {
    &&& (root_col >= 1 && m.col >= root_col ==> m.col + off_col <= u32::MAX)
    &&& (root_row >= 1 && m.row >= root_row ==> m.row + off_row <= u32::MAX)
}

/// The top-left grid point of a range anchor (the `xdr:from` element).
#[derive(Clone, Debug)]
pub struct FromMarker {
    col: u32,
    col_off: u32,
    row: u32,
    row_off: u32,
}

/// The bottom-right grid point of a range anchor (the `xdr:to` element).
#[derive(Clone, Debug)]
pub struct ToMarker {
    col: u32,
    col_off: u32,
    row: u32,
    row_off: u32,
}

impl View for FromMarker {
    type V = MarkerView;

    closed spec fn view(&self) -> MarkerView {
        MarkerView {
            col: self.col as int,
            col_off: self.col_off as int,
            row: self.row as int,
            row_off: self.row_off as int,
        }
    }
}

impl View for ToMarker {
    type V = MarkerView;

    closed spec fn view(&self) -> MarkerView {
        MarkerView {
            col: self.col as int,
            col_off: self.col_off as int,
            row: self.row as int,
            row_off: self.row_off as int,
        }
    }
}

impl Default for FromMarker {
    /// The default marker sits at the first cell with zero offsets.
    fn default() -> (r: Self)
        ensures
            r@ == (MarkerView { col: 1, col_off: 0, row: 1, row_off: 0 }),
    {
        FromMarker { col: 1, col_off: 0, row: 1, row_off: 0 }
    }
}

impl Default for ToMarker {
    /// The default marker sits at the first cell with zero offsets.
    fn default() -> (r: Self)
        ensures
            r@ == (MarkerView { col: 1, col_off: 0, row: 1, row_off: 0 }),
    {
        ToMarker { col: 1, col_off: 0, row: 1, row_off: 0 }
    }
}

impl FromMarker {
    pub fn get_col(&self) -> (r: &u32)
        ensures
            *r as int == self@.col,
    {
        &self.col
    }

    /// Set the column index, clamped to the minimum valid index 1.
    pub fn set_col(&mut self, value: u32)
        ensures
            final(self)@ == (MarkerView { col: if value >= 1 { value as int } else { 1 }, ..old(self)@ }),
    {
        self.col = if value >= 1 { value } else { 1 };
    }

    pub fn get_col_off(&self) -> (r: &u32)
        ensures
            *r as int == self@.col_off,
    {
        &self.col_off
    }

    pub fn set_col_off(&mut self, value: u32)
        ensures
            final(self)@ == (MarkerView { col_off: value as int, ..old(self)@ }),
    {
        self.col_off = value;
    }

    pub fn get_row(&self) -> (r: &u32)
        ensures
            *r as int == self@.row,
    {
        &self.row
    }

    /// Set the row index, clamped to the minimum valid index 1.
    pub fn set_row(&mut self, value: u32)
        ensures
            final(self)@ == (MarkerView { row: if value >= 1 { value as int } else { 1 }, ..old(self)@ }),
    {
        self.row = if value >= 1 { value } else { 1 };
    }

    pub fn get_row_off(&self) -> (r: &u32)
        ensures
            *r as int == self@.row_off,
    {
        &self.row_off
    }

    pub fn set_row_off(&mut self, value: u32)
        ensures
            final(self)@ == (MarkerView { row_off: value as int, ..old(self)@ }),
    {
        self.row_off = value;
    }

    /// Shift the marker for an insert of columns and rows at the given pivots.
    pub fn adjustment_insert_coordinate(
        &mut self,
        root_col_num: u32,
        offset_col_num: u32,
        root_row_num: u32,
        offset_row_num: u32,
    )
        requires
            marker_insert_fits(
                old(self)@,
                root_col_num as int,
                offset_col_num as int,
                root_row_num as int,
                offset_row_num as int,
            ),
        ensures
            final(self)@ == marker_after_insert(
                old(self)@,
                root_col_num as int,
                offset_col_num as int,
                root_row_num as int,
                offset_row_num as int,
            ),
    {
        self.col = adjust_insert_coordinate(self.col, root_col_num, offset_col_num);
        self.row = adjust_insert_coordinate(self.row, root_row_num, offset_row_num);
    }

    /// Shift or clamp the marker for a removal of columns and rows at the
    /// given pivots.
    pub fn adjustment_remove_coordinate(
        &mut self,
        root_col_num: u32,
        offset_col_num: u32,
        root_row_num: u32,
        offset_row_num: u32,
    )
        ensures
            final(self)@ == marker_after_remove(
                old(self)@,
                root_col_num as int,
                offset_col_num as int,
                root_row_num as int,
                offset_row_num as int,
            ),
    {
        self.col = adjust_remove_coordinate(self.col, root_col_num, offset_col_num);
        self.row = adjust_remove_coordinate(self.row, root_row_num, offset_row_num);
    }
}

impl ToMarker {
    pub fn get_col(&self) -> (r: &u32)
        ensures
            *r as int == self@.col,
    {
        &self.col
    }

    /// Set the column index, clamped to the minimum valid index 1.
    pub fn set_col(&mut self, value: u32)
        ensures
            final(self)@ == (MarkerView { col: if value >= 1 { value as int } else { 1 }, ..old(self)@ }),
    {
        self.col = if value >= 1 { value } else { 1 };
    }

    pub fn get_col_off(&self) -> (r: &u32)
        ensures
            *r as int == self@.col_off,
    {
        &self.col_off
    }

    pub fn set_col_off(&mut self, value: u32)
        ensures
            final(self)@ == (MarkerView { col_off: value as int, ..old(self)@ }),
    {
        self.col_off = value;
    }

    pub fn get_row(&self) -> (r: &u32)
        ensures
            *r as int == self@.row,
    {
        &self.row
    }

    /// Set the row index, clamped to the minimum valid index 1.
    pub fn set_row(&mut self, value: u32)
        ensures
            final(self)@ == (MarkerView { row: if value >= 1 { value as int } else { 1 }, ..old(self)@ }),
    {
        self.row = if value >= 1 { value } else { 1 };
    }

    pub fn get_row_off(&self) -> (r: &u32)
        ensures
            *r as int == self@.row_off,
    {
        &self.row_off
    }

    pub fn set_row_off(&mut self, value: u32)
        ensures
            final(self)@ == (MarkerView { row_off: value as int, ..old(self)@ }),
    {
        self.row_off = value;
    }

    /// Shift the marker for an insert of columns and rows at the given pivots.
    pub fn adjustment_insert_coordinate(
        &mut self,
        root_col_num: u32,
        offset_col_num: u32,
        root_row_num: u32,
        offset_row_num: u32,
    )
        requires
            marker_insert_fits(
                old(self)@,
                root_col_num as int,
                offset_col_num as int,
                root_row_num as int,
                offset_row_num as int,
            ),
        ensures
            final(self)@ == marker_after_insert(
                old(self)@,
                root_col_num as int,
                offset_col_num as int,
                root_row_num as int,
                offset_row_num as int,
            ),
    {
        self.col = adjust_insert_coordinate(self.col, root_col_num, offset_col_num);
        self.row = adjust_insert_coordinate(self.row, root_row_num, offset_row_num);
    }

    /// Shift or clamp the marker for a removal of columns and rows at the
    /// given pivots.
    pub fn adjustment_remove_coordinate(
        &mut self,
        root_col_num: u32,
        offset_col_num: u32,
        root_row_num: u32,
        offset_row_num: u32,
    )
        ensures
            final(self)@ == marker_after_remove(
                old(self)@,
                root_col_num as int,
                offset_col_num as int,
                root_row_num as int,
                offset_row_num as int,
            ),
    {
        self.col = adjust_remove_coordinate(self.col, root_col_num, offset_col_num);
        self.row = adjust_remove_coordinate(self.row, root_row_num, offset_row_num);
    }
}


/// The small-step meaning of parsing one marker element from the typed
/// stream: starting at `pos` with marker state `m` and number buffer `num`,
/// consume events until the end tag named `end_tag` closes the element.
/// The result is whether the element closed properly, the marker read, and
/// the position just past the last event consumed.  A raw text node, the
/// end of the stream, or a coordinate that does not fit the machine range
/// stops the parse.
pub open spec fn spec_parse_marker(
    m: MarkerView,
    num: int,
    end_tag: Seq<char>,
    evs: Seq<XmlEventView>,
    pos: int,
) -> (bool, MarkerView, int)
    decreases evs.len() - pos,
{
    if pos < 0 || pos >= evs.len() {
        (false, m, pos)
    } else {
        match evs[pos] {
            XmlEventView::NumberText(n) => spec_parse_marker(m, n, end_tag, evs, pos + 1),
            XmlEventView::Text(t) => (false, m, pos),
            XmlEventView::Eof => (false, m, pos),
            XmlEventView::EndTag(name) => {
                if name == end_tag {
                    (true, m, pos + 1)
                } else if name == "xdr:col"@ {
                    if num <= u32::MAX {
                        spec_parse_marker(
                            MarkerView { col: if num >= 1 { num } else { 1 }, ..m },
                            num,
                            end_tag,
                            evs,
                            pos + 1,
                        )
                    } else {
                        (false, m, pos)
                    }
                } else if name == "xdr:colOff"@ {
                    if num <= u32::MAX {
                        spec_parse_marker(MarkerView { col_off: num, ..m }, num, end_tag, evs, pos + 1)
                    } else {
                        (false, m, pos)
                    }
                } else if name == "xdr:row"@ {
                    if num <= u32::MAX {
                        spec_parse_marker(
                            MarkerView { row: if num >= 1 { num } else { 1 }, ..m },
                            num,
                            end_tag,
                            evs,
                            pos + 1,
                        )
                    } else {
                        (false, m, pos)
                    }
                } else if name == "xdr:rowOff"@ {
                    if num <= u32::MAX {
                        spec_parse_marker(MarkerView { row_off: num, ..m }, num, end_tag, evs, pos + 1)
                    } else {
                        (false, m, pos)
                    }
                } else {
                    spec_parse_marker(m, num, end_tag, evs, pos + 1)
                }
            },
            XmlEventView::StartTag(t) => spec_parse_marker(m, num, end_tag, evs, pos + 1),
            XmlEventView::EmptyTag(t) => spec_parse_marker(m, num, end_tag, evs, pos + 1),
        }
    }
}

/// The canonical element-stream encoding of one marker under the element
/// name `outer`: the four coordinates in order, each in its own child
/// element.
pub open spec fn spec_marker_events(m: MarkerView, outer: Seq<char>) -> Seq<XmlEventView> {
    seq![
        XmlEventView::StartTag(XmlTagView { name: outer, attributes: Seq::empty() }),
        XmlEventView::StartTag(XmlTagView { name: "xdr:col"@, attributes: Seq::empty() }),
        XmlEventView::NumberText(m.col),
        XmlEventView::EndTag("xdr:col"@),
        XmlEventView::StartTag(XmlTagView { name: "xdr:colOff"@, attributes: Seq::empty() }),
        XmlEventView::NumberText(m.col_off),
        XmlEventView::EndTag("xdr:colOff"@),
        XmlEventView::StartTag(XmlTagView { name: "xdr:row"@, attributes: Seq::empty() }),
        XmlEventView::NumberText(m.row),
        XmlEventView::EndTag("xdr:row"@),
        XmlEventView::StartTag(XmlTagView { name: "xdr:rowOff"@, attributes: Seq::empty() }),
        XmlEventView::NumberText(m.row_off),
        XmlEventView::EndTag("xdr:rowOff"@),
        XmlEventView::EndTag(outer),
    ]
}

impl ToMarker {
    /// Read this marker from the typed element stream, starting at `*pos`,
    /// up to and including the end tag that closes the `xdr:to` element.
    /// Returns whether the element closed properly; on failure `*pos` stays
    /// at the offending event.
    pub fn set_attributes(&mut self, events: &Vec<XmlEvent>, pos: &mut usize) -> (r: bool)
        requires
            *old(pos) <= events@.len(),
        ensures
            (r, final(self)@, *final(pos) as int) == spec_parse_marker(
                old(self)@,
                0,
                "xdr:to"@,
                event_views(events@),
                *old(pos) as int,
            ),
            *final(pos) <= events@.len(),
            *old(pos) <= *final(pos),
            r ==> *old(pos) < *final(pos),
    {
        let ghost evs = event_views(events@);
        let ghost goal = spec_parse_marker(old(self)@, 0, "xdr:to"@, evs, *old(pos) as int);
        let mut num: u64 = 0;
        loop
            invariant
                evs == event_views(events@),
                evs.len() == events@.len(),
                *old(pos) <= events@.len(),
                *old(pos) <= *pos,
                *pos <= events@.len(),
                goal == spec_parse_marker(old(self)@, 0, "xdr:to"@, evs, *old(pos) as int),
                goal == spec_parse_marker(self@, num as int, "xdr:to"@, evs, *pos as int),
            decreases events@.len() - *pos,
        {
            let i = *pos;
            if i >= events.len() {
                return false;
            }
            proof {
                assert(evs[i as int] == events@[i as int]@);
            }
            match &events[i] {
                XmlEvent::NumberText(n) => {
                    num = *n;
                    *pos = i + 1;
                },
                XmlEvent::Text(_) => {
                    return false;
                },
                XmlEvent::Eof => {
                    return false;
                },
                XmlEvent::EndTag(name) => {
                    if str_eq(name.as_str(), "xdr:to") {
                        *pos = i + 1;
                        return true;
                    } else if str_eq(name.as_str(), "xdr:col") {
                        if num > 0xffff_ffffu64 {
                            return false;
                        }
                        self.set_col(num as u32);
                        *pos = i + 1;
                    } else if str_eq(name.as_str(), "xdr:colOff") {
                        if num > 0xffff_ffffu64 {
                            return false;
                        }
                        self.set_col_off(num as u32);
                        *pos = i + 1;
                    } else if str_eq(name.as_str(), "xdr:row") {
                        if num > 0xffff_ffffu64 {
                            return false;
                        }
                        self.set_row(num as u32);
                        *pos = i + 1;
                    } else if str_eq(name.as_str(), "xdr:rowOff") {
                        if num > 0xffff_ffffu64 {
                            return false;
                        }
                        self.set_row_off(num as u32);
                        *pos = i + 1;
                    } else {
                        *pos = i + 1;
                    }
                },
                XmlEvent::StartTag(_) => {
                    *pos = i + 1;
                },
                XmlEvent::EmptyTag(_) => {
                    *pos = i + 1;
                },
            }
        }
    }

    /// Append the canonical element-stream encoding of this marker, as a
    /// `xdr:to` element, to `events`.
    #[verifier::rlimit(50)]
    pub fn write_to(&self, events: &mut Vec<XmlEvent>)
        ensures
            event_views(final(events)@) == event_views(old(events)@) + spec_marker_events(
                self@,
                "xdr:to"@,
            ),
    {
        events.push(XmlEvent::StartTag(XmlTag::new(String::from_str("xdr:to"))));
        events.push(XmlEvent::StartTag(XmlTag::new(String::from_str("xdr:col"))));
        events.push(XmlEvent::NumberText(self.col as u64));
        events.push(XmlEvent::EndTag(String::from_str("xdr:col")));
        events.push(XmlEvent::StartTag(XmlTag::new(String::from_str("xdr:colOff"))));
        events.push(XmlEvent::NumberText(self.col_off as u64));
        events.push(XmlEvent::EndTag(String::from_str("xdr:colOff")));
        events.push(XmlEvent::StartTag(XmlTag::new(String::from_str("xdr:row"))));
        events.push(XmlEvent::NumberText(self.row as u64));
        events.push(XmlEvent::EndTag(String::from_str("xdr:row")));
        events.push(XmlEvent::StartTag(XmlTag::new(String::from_str("xdr:rowOff"))));
        events.push(XmlEvent::NumberText(self.row_off as u64));
        events.push(XmlEvent::EndTag(String::from_str("xdr:rowOff")));
        events.push(XmlEvent::EndTag(String::from_str("xdr:to")));
        proof {
            assert(event_views(events@) =~= event_views(old(events)@) + spec_marker_events(
                self@,
                "xdr:to"@,
            ));
        }
    }
}

impl FromMarker {
    /// Read this marker from the typed element stream, starting at `*pos`,
    /// up to and including the end tag that closes the `xdr:from` element.
    /// Returns whether the element closed properly; on failure `*pos` stays
    /// at the offending event.
    pub fn set_attributes(&mut self, events: &Vec<XmlEvent>, pos: &mut usize) -> (r: bool)
        requires
            *old(pos) <= events@.len(),
        ensures
            (r, final(self)@, *final(pos) as int) == spec_parse_marker(
                old(self)@,
                0,
                "xdr:from"@,
                event_views(events@),
                *old(pos) as int,
            ),
            *final(pos) <= events@.len(),
            *old(pos) <= *final(pos),
            r ==> *old(pos) < *final(pos),
    {
        let ghost evs = event_views(events@);
        let ghost goal = spec_parse_marker(old(self)@, 0, "xdr:from"@, evs, *old(pos) as int);
        let mut num: u64 = 0;
        loop
            invariant
                evs == event_views(events@),
                evs.len() == events@.len(),
                *old(pos) <= events@.len(),
                *old(pos) <= *pos,
                *pos <= events@.len(),
                goal == spec_parse_marker(old(self)@, 0, "xdr:from"@, evs, *old(pos) as int),
                goal == spec_parse_marker(self@, num as int, "xdr:from"@, evs, *pos as int),
            decreases events@.len() - *pos,
        {
            let i = *pos;
            if i >= events.len() {
                return false;
            }
            proof {
                assert(evs[i as int] == events@[i as int]@);
            }
            match &events[i] {
                XmlEvent::NumberText(n) => {
                    num = *n;
                    *pos = i + 1;
                },
                XmlEvent::Text(_) => {
                    return false;
                },
                XmlEvent::Eof => {
                    return false;
                },
                XmlEvent::EndTag(name) => {
                    if str_eq(name.as_str(), "xdr:from") {
                        *pos = i + 1;
                        return true;
                    } else if str_eq(name.as_str(), "xdr:col") {
                        if num > 0xffff_ffffu64 {
                            return false;
                        }
                        self.set_col(num as u32);
                        *pos = i + 1;
                    } else if str_eq(name.as_str(), "xdr:colOff") {
                        if num > 0xffff_ffffu64 {
                            return false;
                        }
                        self.set_col_off(num as u32);
                        *pos = i + 1;
                    } else if str_eq(name.as_str(), "xdr:row") {
                        if num > 0xffff_ffffu64 {
                            return false;
                        }
                        self.set_row(num as u32);
                        *pos = i + 1;
                    } else if str_eq(name.as_str(), "xdr:rowOff") {
                        if num > 0xffff_ffffu64 {
                            return false;
                        }
                        self.set_row_off(num as u32);
                        *pos = i + 1;
                    } else {
                        *pos = i + 1;
                    }
                },
                XmlEvent::StartTag(_) => {
                    *pos = i + 1;
                },
                XmlEvent::EmptyTag(_) => {
                    *pos = i + 1;
                },
            }
        }
    }

    /// Append the canonical element-stream encoding of this marker, as a
    /// `xdr:from` element, to `events`.
    #[verifier::rlimit(50)]
    pub fn write_to(&self, events: &mut Vec<XmlEvent>)
        ensures
            event_views(final(events)@) == event_views(old(events)@) + spec_marker_events(
                self@,
                "xdr:from"@,
            ),
    {
        events.push(XmlEvent::StartTag(XmlTag::new(String::from_str("xdr:from"))));
        events.push(XmlEvent::StartTag(XmlTag::new(String::from_str("xdr:col"))));
        events.push(XmlEvent::NumberText(self.col as u64));
        events.push(XmlEvent::EndTag(String::from_str("xdr:col")));
        events.push(XmlEvent::StartTag(XmlTag::new(String::from_str("xdr:colOff"))));
        events.push(XmlEvent::NumberText(self.col_off as u64));
        events.push(XmlEvent::EndTag(String::from_str("xdr:colOff")));
        events.push(XmlEvent::StartTag(XmlTag::new(String::from_str("xdr:row"))));
        events.push(XmlEvent::NumberText(self.row as u64));
        events.push(XmlEvent::EndTag(String::from_str("xdr:row")));
        events.push(XmlEvent::StartTag(XmlTag::new(String::from_str("xdr:rowOff"))));
        events.push(XmlEvent::NumberText(self.row_off as u64));
        events.push(XmlEvent::EndTag(String::from_str("xdr:rowOff")));
        events.push(XmlEvent::EndTag(String::from_str("xdr:from")));
        proof {
            assert(event_views(events@) =~= event_views(old(events)@) + spec_marker_events(
                self@,
                "xdr:from"@,
            ));
        }
    }
}

} // verus!

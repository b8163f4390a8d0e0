//! The range anchor: a from/to pair of grid points.  An object on a range
//! anchor resizes as the rows and columns between its corners change; both
//! markers are adjusted independently, and the object is removal-eligible
//! exactly when both markers lie inside the removed window on the edited
//! axis.

use vstd::prelude::*;
use crate::adjustment::spec_in_window;
use crate::content::{ConnectionShape, GraphicFrame, Picture, Shape};
use crate::marker::{marker_after_insert, marker_after_remove, marker_insert_fits};
use crate::marker::{spec_marker_events, spec_parse_marker, FromMarker, MarkerView, ToMarker};
use crate::strutil::str_eq;
use crate::xml::{event_views, spec_get_attribute, XmlAttributeView, XmlEvent, XmlEventView,
    XmlTag, XmlTagView};
use vstd::string::StringExecFns;

verus! {

/// The payload carried by a range anchor.
#[derive(Clone, Debug)]
pub enum TwoCellContent {
    Empty,
    ShapeContent(Shape),
    GraphicFrameContent(GraphicFrame),
    ConnectionShapeContent(ConnectionShape),
    PictureContent(Picture),
}

/// Mathematical model of a range-anchor payload.
pub enum TwoCellContentView {
    Empty,
    ShapeContent(Seq<char>),
    GraphicFrameContent(Seq<char>),
    ConnectionShapeContent(Seq<char>),
    PictureContent(Seq<char>),
}

impl View for TwoCellContent {
    type V = TwoCellContentView;

    closed spec fn view(&self) -> TwoCellContentView {
        match self {
            TwoCellContent::Empty => TwoCellContentView::Empty,
            TwoCellContent::ShapeContent(s) => TwoCellContentView::ShapeContent(s@),
            TwoCellContent::GraphicFrameContent(g) => TwoCellContentView::GraphicFrameContent(g@),
            TwoCellContent::ConnectionShapeContent(c) => TwoCellContentView::ConnectionShapeContent(
                c@,
            ),
            TwoCellContent::PictureContent(p) => TwoCellContentView::PictureContent(p@),
        }
    }
}

/// Mathematical model of a range anchor: both markers, the alternate-content
/// flag, and the payload.
pub struct TwoCellAnchorView {
    pub from: MarkerView,
    pub to: MarkerView,
    pub is_alternate_content: bool,
    pub content: TwoCellContentView,
}

/// The range anchor after an insert of columns and rows at the given pivots:
/// both markers move independently.
pub open spec fn two_cell_after_insert(
    a: TwoCellAnchorView,
    root_col: int,
    off_col: int,
    root_row: int,
    off_row: int,
) -> TwoCellAnchorView {
    TwoCellAnchorView {
        from: marker_after_insert(a.from, root_col, off_col, root_row, off_row),
        to: marker_after_insert(a.to, root_col, off_col, root_row, off_row),
        ..a
    }
}

/// The range anchor after a removal of columns and rows at the given pivots:
/// both markers move or clamp independently.
pub open spec fn two_cell_after_remove(
    a: TwoCellAnchorView,
    root_col: int,
    off_col: int,
    root_row: int,
    off_row: int,
) -> TwoCellAnchorView {
    TwoCellAnchorView {
        from: marker_after_remove(a.from, root_col, off_col, root_row, off_row),
        to: marker_after_remove(a.to, root_col, off_col, root_row, off_row),
        ..a
    }
}

/// Whether an insert of the given extent keeps both shifted markers within
/// the machine range of `u32`.
pub open spec fn two_cell_insert_fits(
    a: TwoCellAnchorView,
    root_col: int,
    off_col: int,
    root_row: int,
    off_row: int,
) -> bool {
    &&& marker_insert_fits(a.from, root_col, off_col, root_row, off_row)
    &&& marker_insert_fits(a.to, root_col, off_col, root_row, off_row)
}

/// Whether a removal deletes the anchored object: both markers lie inside
/// the removed window on the edited axis.  An object straddling the window
/// boundary is kept.
pub open spec fn two_cell_is_removed(
    a: TwoCellAnchorView,
    root_col: int,
    off_col: int,
    root_row: int,
    off_row: int,
) -> bool {
    ||| (spec_in_window(a.from.col, root_col, off_col) && spec_in_window(
        a.to.col,
        root_col,
        off_col,
    ))
    ||| (spec_in_window(a.from.row, root_row, off_row) && spec_in_window(
        a.to.row,
        root_row,
        off_row,
    ))
}


/// The canonical element-stream encoding of a range-anchor payload: one
/// empty tag named for the kind, carrying the payload name, or nothing for
/// an empty payload.
pub open spec fn spec_two_cell_content_events(c: TwoCellContentView) -> Seq<XmlEventView> {
    match c {
        TwoCellContentView::Empty => Seq::empty(),
        TwoCellContentView::ShapeContent(n) => seq![
            XmlEventView::EmptyTag(
                XmlTagView {
                    name: "xdr:sp"@,
                    attributes: seq![XmlAttributeView { key: "name"@, value: n }],
                },
            ),
        ],
        TwoCellContentView::GraphicFrameContent(n) => seq![
            XmlEventView::EmptyTag(
                XmlTagView {
                    name: "xdr:graphicFrame"@,
                    attributes: seq![XmlAttributeView { key: "name"@, value: n }],
                },
            ),
        ],
        TwoCellContentView::ConnectionShapeContent(n) => seq![
            XmlEventView::EmptyTag(
                XmlTagView {
                    name: "xdr:cxnSp"@,
                    attributes: seq![XmlAttributeView { key: "name"@, value: n }],
                },
            ),
        ],
        TwoCellContentView::PictureContent(n) => seq![
            XmlEventView::EmptyTag(
                XmlTagView {
                    name: "xdr:pic"@,
                    attributes: seq![XmlAttributeView { key: "name"@, value: n }],
                },
            ),
        ],
    }
}

/// The canonical element-stream encoding of a range anchor: its two markers,
/// its payload, and the closing client-data element.
pub open spec fn spec_two_cell_events(a: TwoCellAnchorView) -> Seq<XmlEventView> {
    seq![
        XmlEventView::StartTag(
            XmlTagView { name: "xdr:twoCellAnchor"@, attributes: Seq::empty() },
        ),
    ] + spec_marker_events(a.from, "xdr:from"@) + spec_marker_events(a.to, "xdr:to"@)
        + spec_two_cell_content_events(a.content) + seq![
        XmlEventView::EmptyTag(XmlTagView { name: "xdr:clientData"@, attributes: Seq::empty() }),
        XmlEventView::EndTag("xdr:twoCellAnchor"@),
    ]
}


/// The payload read from one empty child element: the four payload kinds
/// each carry their name in a `name` attribute; any other element changes
/// nothing.
pub open spec fn spec_two_cell_with_content(a: TwoCellAnchorView, t: XmlTagView) -> TwoCellAnchorView {
    let nm = match spec_get_attribute(t.attributes, "name"@) {
        Some(v) => v,
        None => Seq::<char>::empty(),
    };
    if t.name == "xdr:sp"@ {
        TwoCellAnchorView { content: TwoCellContentView::ShapeContent(nm), ..a }
    } else if t.name == "xdr:graphicFrame"@ {
        TwoCellAnchorView { content: TwoCellContentView::GraphicFrameContent(nm), ..a }
    } else if t.name == "xdr:cxnSp"@ {
        TwoCellAnchorView { content: TwoCellContentView::ConnectionShapeContent(nm), ..a }
    } else if t.name == "xdr:pic"@ {
        TwoCellAnchorView { content: TwoCellContentView::PictureContent(nm), ..a }
    } else {
        a
    }
}

/// The small-step meaning of parsing one range-anchor element from the
/// typed stream: its `xdr:from` and `xdr:to` children are read by the
/// marker parser, empty payload children set the content, and the matching
/// end tag closes the element.  A failing marker parse, or the end of the
/// stream, stops the parse.
pub open spec fn spec_parse_two_cell(
    a: TwoCellAnchorView,
    evs: Seq<XmlEventView>,
    pos: int,
) -> (bool, TwoCellAnchorView, int)
    decreases evs.len() - pos,
{
    if pos < 0 || pos >= evs.len() {
        (false, a, pos)
    } else {
        match evs[pos] {
            XmlEventView::StartTag(t) => {
                if t.name == "xdr:from"@ {
                    let m = spec_parse_marker(a.from, 0, "xdr:from"@, evs, pos + 1);
                    if m.0 {
                        let next0 = if m.2 > pos + 1 {
                            m.2
                        } else {
                            pos + 2
                        };
                        let next = if next0 <= evs.len() {
                            next0
                        } else {
                            evs.len() as int
                        };
                        spec_parse_two_cell(TwoCellAnchorView { from: m.1, ..a }, evs, next)
                    } else {
                        (false, TwoCellAnchorView { from: m.1, ..a }, m.2)
                    }
                } else if t.name == "xdr:to"@ {
                    let m = spec_parse_marker(a.to, 0, "xdr:to"@, evs, pos + 1);
                    if m.0 {
                        let next0 = if m.2 > pos + 1 {
                            m.2
                        } else {
                            pos + 2
                        };
                        let next = if next0 <= evs.len() {
                            next0
                        } else {
                            evs.len() as int
                        };
                        spec_parse_two_cell(TwoCellAnchorView { to: m.1, ..a }, evs, next)
                    } else {
                        (false, TwoCellAnchorView { to: m.1, ..a }, m.2)
                    }
                } else {
                    spec_parse_two_cell(a, evs, pos + 1)
                }
            },
            XmlEventView::EmptyTag(t) => spec_parse_two_cell(
                spec_two_cell_with_content(a, t),
                evs,
                pos + 1,
            ),
            XmlEventView::EndTag(n) => {
                if n == "xdr:twoCellAnchor"@ {
                    (true, a, pos + 1)
                } else {
                    spec_parse_two_cell(a, evs, pos + 1)
                }
            },
            XmlEventView::Text(t) => spec_parse_two_cell(a, evs, pos + 1),
            XmlEventView::NumberText(n) => spec_parse_two_cell(a, evs, pos + 1),
            XmlEventView::Eof => (false, a, pos),
        }
    }
}

/// A drawing object anchored to a from/to pair of grid points.
#[derive(Clone, Debug)]
pub struct TwoCellAnchor {
    from_marker: FromMarker,
    to_marker: ToMarker,
    is_alternate_content: bool,
    content: TwoCellContent,
}

impl View for TwoCellAnchor {
    type V = TwoCellAnchorView;

    closed spec fn view(&self) -> TwoCellAnchorView {
        TwoCellAnchorView {
            from: self.from_marker@,
            to: self.to_marker@,
            is_alternate_content: self.is_alternate_content,
            content: self.content@,
        }
    }
}

impl Default for TwoCellAnchor {
    /// The default anchor spans the first cell with no payload.
    fn default() -> (r: Self)
        ensures
            r@.from == (MarkerView { col: 1, col_off: 0, row: 1, row_off: 0 }),
            r@.to == (MarkerView { col: 1, col_off: 0, row: 1, row_off: 0 }),
            !r@.is_alternate_content,
            r@.content is Empty,
    {
        TwoCellAnchor {
            from_marker: FromMarker::default(),
            to_marker: ToMarker::default(),
            is_alternate_content: false,
            content: TwoCellContent::Empty,
        }
    }
}

impl TwoCellAnchor {
    pub fn get_from_marker(&self) -> (r: &FromMarker)
        ensures
            r@ == self@.from,
    {
        &self.from_marker
    }

    pub fn set_from_marker(&mut self, value: FromMarker)
        ensures
            final(self)@ == (TwoCellAnchorView { from: value@, ..old(self)@ }),
    {
        self.from_marker = value;
    }

    pub fn get_to_marker(&self) -> (r: &ToMarker)
        ensures
            r@ == self@.to,
    {
        &self.to_marker
    }

    pub fn set_to_marker(&mut self, value: ToMarker)
        ensures
            final(self)@ == (TwoCellAnchorView { to: value@, ..old(self)@ }),
    {
        self.to_marker = value;
    }

    pub fn get_is_alternate_content(&self) -> (r: bool)
        ensures
            r == self@.is_alternate_content,
    {
        self.is_alternate_content
    }

    pub fn set_is_alternate_content(&mut self, value: bool)
        ensures
            final(self)@ == (TwoCellAnchorView { is_alternate_content: value, ..old(self)@ }),
    {
        self.is_alternate_content = value;
    }

    pub fn get_shape(&self) -> (r: Option<&Shape>)
        ensures
            match r {
                Some(s) => self@.content == TwoCellContentView::ShapeContent(s@),
                None => !(self@.content is ShapeContent),
            },
    {
        match &self.content {
            TwoCellContent::ShapeContent(s) => Some(s),
            _ => None,
        }
    }

    pub fn set_shape(&mut self, value: Shape)
        ensures
            final(self)@ == (TwoCellAnchorView {
                content: TwoCellContentView::ShapeContent(value@),
                ..old(self)@
            }),
    {
        self.content = TwoCellContent::ShapeContent(value);
    }

    pub fn get_graphic_frame(&self) -> (r: Option<&GraphicFrame>)
        ensures
            match r {
                Some(g) => self@.content == TwoCellContentView::GraphicFrameContent(g@),
                None => !(self@.content is GraphicFrameContent),
            },
    {
        match &self.content {
            TwoCellContent::GraphicFrameContent(g) => Some(g),
            _ => None,
        }
    }

    pub fn set_graphic_frame(&mut self, value: GraphicFrame)
        ensures
            final(self)@ == (TwoCellAnchorView {
                content: TwoCellContentView::GraphicFrameContent(value@),
                ..old(self)@
            }),
    {
        self.content = TwoCellContent::GraphicFrameContent(value);
    }

    pub fn get_connection_shape(&self) -> (r: Option<&ConnectionShape>)
        ensures
            match r {
                Some(c) => self@.content == TwoCellContentView::ConnectionShapeContent(c@),
                None => !(self@.content is ConnectionShapeContent),
            },
    {
        match &self.content {
            TwoCellContent::ConnectionShapeContent(c) => Some(c),
            _ => None,
        }
    }

    pub fn set_connection_shape(&mut self, value: ConnectionShape)
        ensures
            final(self)@ == (TwoCellAnchorView {
                content: TwoCellContentView::ConnectionShapeContent(value@),
                ..old(self)@
            }),
    {
        self.content = TwoCellContent::ConnectionShapeContent(value);
    }

    pub fn get_picture(&self) -> (r: Option<&Picture>)
        ensures
            match r {
                Some(p) => self@.content == TwoCellContentView::PictureContent(p@),
                None => !(self@.content is PictureContent),
            },
    {
        match &self.content {
            TwoCellContent::PictureContent(p) => Some(p),
            _ => None,
        }
    }

    pub fn set_picture(&mut self, value: Picture)
        ensures
            final(self)@ == (TwoCellAnchorView {
                content: TwoCellContentView::PictureContent(value@),
                ..old(self)@
            }),
    {
        self.content = TwoCellContent::PictureContent(value);
    }

    /// Whether the anchor carries a payload this model supports.
    pub fn is_support(&self) -> (r: bool)
        ensures
            r == !(self@.content is Empty),
    {
        match &self.content {
            TwoCellContent::Empty => false,
            _ => true,
        }
    }

    /// Whether the anchor hosts a chart's graphic frame.
    pub fn is_chart(&self) -> (r: bool)
        ensures
            r == (self@.content is GraphicFrameContent),
    {
        match &self.content {
            TwoCellContent::GraphicFrameContent(_) => true,
            _ => false,
        }
    }

    /// Whether the anchor carries a picture and therefore stands for an
    /// image.
    pub fn is_image(&self) -> (r: bool)
        ensures
            r == (self@.content is PictureContent),
    {
        match &self.content {
            TwoCellContent::PictureContent(_) => true,
            _ => false,
        }
    }

    /// Shift both markers for an insert of columns and rows at the given
    /// pivots.
    pub fn adjustment_insert_coordinate(
        &mut self,
        root_col_num: u32,
        offset_col_num: u32,
        root_row_num: u32,
        offset_row_num: u32,
    )
        requires
            two_cell_insert_fits(
                old(self)@,
                root_col_num as int,
                offset_col_num as int,
                root_row_num as int,
                offset_row_num as int,
            ),
        ensures
            final(self)@ == two_cell_after_insert(
                old(self)@,
                root_col_num as int,
                offset_col_num as int,
                root_row_num as int,
                offset_row_num as int,
            ),
    {
        self.from_marker.adjustment_insert_coordinate(
            root_col_num,
            offset_col_num,
            root_row_num,
            offset_row_num,
        );
        self.to_marker.adjustment_insert_coordinate(
            root_col_num,
            offset_col_num,
            root_row_num,
            offset_row_num,
        );
    }

    /// Shift or clamp both markers for a removal of columns and rows at the
    /// given pivots.
    pub fn adjustment_remove_coordinate(
        &mut self,
        root_col_num: u32,
        offset_col_num: u32,
        root_row_num: u32,
        offset_row_num: u32,
    )
        ensures
            final(self)@ == two_cell_after_remove(
                old(self)@,
                root_col_num as int,
                offset_col_num as int,
                root_row_num as int,
                offset_row_num as int,
            ),
    {
        self.from_marker.adjustment_remove_coordinate(
            root_col_num,
            offset_col_num,
            root_row_num,
            offset_row_num,
        );
        self.to_marker.adjustment_remove_coordinate(
            root_col_num,
            offset_col_num,
            root_row_num,
            offset_row_num,
        );
    }

    /// Whether a removal of columns and rows at the given pivots deletes
    /// this object: both markers lie inside the removed window on the edited
    /// axis.
    pub fn is_remove_coordinate(
        &self,
        root_col_num: u32,
        offset_col_num: u32,
        root_row_num: u32,
        offset_row_num: u32,
    ) -> (r: bool)
        ensures
            r == two_cell_is_removed(
                self@,
                root_col_num as int,
                offset_col_num as int,
                root_row_num as int,
                offset_row_num as int,
            ),
    {
        let from_col = *self.from_marker.get_col();
        let from_row = *self.from_marker.get_row();
        let to_col = *self.to_marker.get_col();
        let to_row = *self.to_marker.get_row();
        (crate::adjustment::coordinate_in_window(from_col, root_col_num, offset_col_num)
            && crate::adjustment::coordinate_in_window(to_col, root_col_num, offset_col_num)) || (
        crate::adjustment::coordinate_in_window(from_row, root_row_num, offset_row_num)
            && crate::adjustment::coordinate_in_window(to_row, root_row_num, offset_row_num))
    }


    /// Read this anchor from the typed element stream, starting at `*pos`
    /// just inside its element, up to and including the end tag that closes
    /// it.  Returns whether the element closed properly; on failure `*pos`
    /// stays at the offending event.
    pub fn set_attributes(&mut self, events: &Vec<XmlEvent>, pos: &mut usize) -> (r: bool)
        requires
            *old(pos) <= events@.len(),
        ensures
            (r, final(self)@, *final(pos) as int) == spec_parse_two_cell(
                old(self)@,
                event_views(events@),
                *old(pos) as int,
            ),
            *final(pos) <= events@.len(),
            *old(pos) <= *final(pos),
            r ==> *old(pos) < *final(pos),
    {
        let ghost evs = event_views(events@);
        let ghost goal = spec_parse_two_cell(old(self)@, evs, *old(pos) as int);
        loop
            invariant
                evs == event_views(events@),
                evs.len() == events@.len(),
                *old(pos) <= events@.len(),
                *old(pos) <= *pos,
                *pos <= events@.len(),
                goal == spec_parse_two_cell(old(self)@, evs, *old(pos) as int),
                goal == spec_parse_two_cell(self@, evs, *pos as int),
            decreases events@.len() - *pos,
        {
            let i = *pos;
            if i >= events.len() {
                return false;
            }
            proof {
                assert(evs[i as int] == events@[i as int]@);
            }
            match &events[i] {
                XmlEvent::StartTag(t) => {
                    if str_eq(t.get_name(), "xdr:from") {
                        *pos = i + 1;
                        let ok = self.from_marker.set_attributes(events, pos);
                        if !ok {
                            return false;
                        }
                    } else if str_eq(t.get_name(), "xdr:to") {
                        *pos = i + 1;
                        let ok = self.to_marker.set_attributes(events, pos);
                        if !ok {
                            return false;
                        }
                    } else {
                        *pos = i + 1;
                    }
                },
                XmlEvent::EmptyTag(t) => {
                    let ghost prev = self@;
                    let payload_name = match t.get_attribute("name") {
                        Some(v) => String::from_str(v),
                        None => String::new(),
                    };
                    if str_eq(t.get_name(), "xdr:sp") {
                        let mut payload = Shape::default();
                        payload.set_name(payload_name);
                        self.content = TwoCellContent::ShapeContent(payload);
                    } else if str_eq(t.get_name(), "xdr:graphicFrame") {
                        let mut payload = GraphicFrame::default();
                        payload.set_name(payload_name);
                        self.content = TwoCellContent::GraphicFrameContent(payload);
                    } else if str_eq(t.get_name(), "xdr:cxnSp") {
                        let mut payload = ConnectionShape::default();
                        payload.set_name(payload_name);
                        self.content = TwoCellContent::ConnectionShapeContent(payload);
                    } else if str_eq(t.get_name(), "xdr:pic") {
                        let mut payload = Picture::default();
                        payload.set_name(payload_name);
                        self.content = TwoCellContent::PictureContent(payload);
                    }
                    proof {
                        assert(self@ == spec_two_cell_with_content(prev, t@));
                    }
                    *pos = i + 1;
                },
                XmlEvent::EndTag(name) => {
                    if str_eq(name.as_str(), "xdr:twoCellAnchor") {
                        *pos = i + 1;
                        return true;
                    } else {
                        *pos = i + 1;
                    }
                },
                XmlEvent::Text(_) => {
                    *pos = i + 1;
                },
                XmlEvent::NumberText(_) => {
                    *pos = i + 1;
                },
                XmlEvent::Eof => {
                    return false;
                },
            }
        }
    }

    /// Append the canonical element-stream encoding of this anchor to
    /// `events`.
    #[verifier::rlimit(50)]
    pub fn write_to(&self, events: &mut Vec<XmlEvent>)
        ensures
            event_views(final(events)@) == event_views(old(events)@) + spec_two_cell_events(
                self@,
            ),
    {
        events.push(XmlEvent::StartTag(XmlTag::new(String::from_str("xdr:twoCellAnchor"))));
        let ghost after_start = event_views(events@);
        proof {
            assert(after_start =~= event_views(old(events)@) + seq![
                XmlEventView::StartTag(
                    XmlTagView { name: "xdr:twoCellAnchor"@, attributes: Seq::empty() },
                ),
            ]);
        }
        self.from_marker.write_to(events);
        let ghost after_from = event_views(events@);
        self.to_marker.write_to(events);
        let ghost after_to = event_views(events@);
        match &self.content {
            TwoCellContent::Empty => {
                proof {
                    assert(event_views(events@) =~~= after_to + spec_two_cell_content_events(
                        self@.content,
                    ));
                }
            },
            TwoCellContent::ShapeContent(p) => {
                let mut tag = XmlTag::new(String::from_str("xdr:sp"));
                tag.add_attribute(String::from_str("name"), String::from_str(p.get_name()));
                events.push(XmlEvent::EmptyTag(tag));
                proof {
                    assert(event_views(events@) =~~= after_to + spec_two_cell_content_events(
                        self@.content,
                    ));
                }
            },
            TwoCellContent::GraphicFrameContent(p) => {
                let mut tag = XmlTag::new(String::from_str("xdr:graphicFrame"));
                tag.add_attribute(String::from_str("name"), String::from_str(p.get_name()));
                events.push(XmlEvent::EmptyTag(tag));
                proof {
                    assert(event_views(events@) =~~= after_to + spec_two_cell_content_events(
                        self@.content,
                    ));
                }
            },
            TwoCellContent::ConnectionShapeContent(p) => {
                let mut tag = XmlTag::new(String::from_str("xdr:cxnSp"));
                tag.add_attribute(String::from_str("name"), String::from_str(p.get_name()));
                events.push(XmlEvent::EmptyTag(tag));
                proof {
                    assert(event_views(events@) =~~= after_to + spec_two_cell_content_events(
                        self@.content,
                    ));
                }
            },
            TwoCellContent::PictureContent(p) => {
                let mut tag = XmlTag::new(String::from_str("xdr:pic"));
                tag.add_attribute(String::from_str("name"), String::from_str(p.get_name()));
                events.push(XmlEvent::EmptyTag(tag));
                proof {
                    assert(event_views(events@) =~~= after_to + spec_two_cell_content_events(
                        self@.content,
                    ));
                }
            },
        }
        events.push(XmlEvent::EmptyTag(XmlTag::new(String::from_str("xdr:clientData"))));
        events.push(XmlEvent::EndTag(String::from_str("xdr:twoCellAnchor")));
        proof {
            let head = seq![
                XmlEventView::StartTag(
                    XmlTagView { name: "xdr:twoCellAnchor"@, attributes: Seq::empty() },
                ),
            ];
            let from_events = spec_marker_events(self@.from, "xdr:from"@);
            let to_events = spec_marker_events(self@.to, "xdr:to"@);
            let content_events = spec_two_cell_content_events(self@.content);
            let tail = seq![
                XmlEventView::EmptyTag(
                    XmlTagView { name: "xdr:clientData"@, attributes: Seq::empty() },
                ),
                XmlEventView::EndTag("xdr:twoCellAnchor"@),
            ];
            assert(event_views(events@) =~~= after_to + content_events + tail);
            assert(after_to =~= after_start + from_events + to_events);
            assert(spec_two_cell_events(self@) == head + from_events + to_events + content_events
                + tail);
            assert(event_views(events@) =~~= event_views(old(events)@) + spec_two_cell_events(
                self@,
            ));
        }
    }
}

} // verus!

//! The point anchor: one grid point plus an explicit extent.  An object on
//! a point anchor keeps its size when the grid changes; only its single
//! marker is adjusted, and it is removal-eligible exactly when that marker
//! lies inside the removed window on the edited axis.

use vstd::prelude::*;
use crate::adjustment::spec_in_window;
use crate::content::{Picture, Shape};
use crate::marker::{marker_after_insert, marker_after_remove, marker_insert_fits};
use crate::marker::{spec_marker_events, spec_parse_marker, FromMarker, MarkerView};
use crate::strutil::{parse_u64, spec_decimal, spec_digits_value, spec_is_digits, str_eq,
    u64_to_string};
use crate::xml::{event_views, spec_get_attribute, XmlAttributeView, XmlEvent, XmlEventView,
    XmlTag, XmlTagView};
use vstd::string::StringExecFns;

verus! {

/// The payload carried by a point anchor.
#[derive(Clone, Debug)]
pub enum OneCellContent {
    Empty,
    ShapeContent(Shape),
    PictureContent(Picture),
}

/// Mathematical model of a point-anchor payload.
pub enum OneCellContentView {
    Empty,
    ShapeContent(Seq<char>),
    PictureContent(Seq<char>),
}

impl View for OneCellContent {
    type V = OneCellContentView;

    closed spec fn view(&self) -> OneCellContentView {
        match self {
            OneCellContent::Empty => OneCellContentView::Empty,
            OneCellContent::ShapeContent(s) => OneCellContentView::ShapeContent(s@),
            OneCellContent::PictureContent(p) => OneCellContentView::PictureContent(p@),
        }
    }
}

/// Mathematical model of a point anchor: the marker, the extent in EMU, and
/// the payload.
pub struct OneCellAnchorView {
    pub from: MarkerView,
    pub width: int,
    pub height: int,
    pub content: OneCellContentView,
}

/// The point anchor after an insert of columns and rows at the given pivots:
/// only the marker moves.
pub open spec fn one_cell_after_insert(
    a: OneCellAnchorView,
    root_col: int,
    off_col: int,
    root_row: int,
    off_row: int,
) -> OneCellAnchorView {
    OneCellAnchorView { from: marker_after_insert(a.from, root_col, off_col, root_row, off_row), ..a }
}

/// The point anchor after a removal of columns and rows at the given pivots:
/// only the marker moves or clamps.
pub open spec fn one_cell_after_remove(
    a: OneCellAnchorView,
    root_col: int,
    off_col: int,
    root_row: int,
    off_row: int,
) -> OneCellAnchorView {
    OneCellAnchorView { from: marker_after_remove(a.from, root_col, off_col, root_row, off_row), ..a }
}

/// Whether an insert of the given extent keeps the shifted marker within the
/// machine range of `u32`.
pub open spec fn one_cell_insert_fits(
    a: OneCellAnchorView,
    root_col: int,
    off_col: int,
    root_row: int,
    off_row: int,
) -> bool {
    marker_insert_fits(a.from, root_col, off_col, root_row, off_row)
}

/// Whether a removal deletes the anchored object: its single marker lies
/// inside the removed window on the edited axis.
pub open spec fn one_cell_is_removed(
    a: OneCellAnchorView,
    root_col: int,
    off_col: int,
    root_row: int,
    off_row: int,
) -> bool {
    spec_in_window(a.from.col, root_col, off_col) || spec_in_window(a.from.row, root_row, off_row)
}


/// The canonical element-stream encoding of a point-anchor payload: one
/// empty tag named for the kind, carrying the payload name, or nothing for
/// an empty payload.
pub open spec fn spec_one_cell_content_events(c: OneCellContentView) -> Seq<XmlEventView> {
    match c {
        OneCellContentView::Empty => Seq::empty(),
        OneCellContentView::ShapeContent(n) => seq![
            XmlEventView::EmptyTag(
                XmlTagView {
                    name: "xdr:sp"@,
                    attributes: seq![XmlAttributeView { key: "name"@, value: n }],
                },
            ),
        ],
        OneCellContentView::PictureContent(n) => seq![
            XmlEventView::EmptyTag(
                XmlTagView {
                    name: "xdr:pic"@,
                    attributes: seq![XmlAttributeView { key: "name"@, value: n }],
                },
            ),
        ],
    }
}

/// The canonical element-stream encoding of a point anchor: its marker, its
/// extent in decimal EMU, its payload, and the closing client-data element.
pub open spec fn spec_one_cell_events(a: OneCellAnchorView) -> Seq<XmlEventView> {
    seq![
        XmlEventView::StartTag(
            XmlTagView { name: "xdr:oneCellAnchor"@, attributes: Seq::empty() },
        ),
    ] + spec_marker_events(a.from, "xdr:from"@) + seq![
        XmlEventView::EmptyTag(
            XmlTagView {
                name: "xdr:ext"@,
                attributes: seq![
                    XmlAttributeView { key: "cx"@, value: spec_decimal(a.width) },
                    XmlAttributeView { key: "cy"@, value: spec_decimal(a.height) },
                ],
            },
        ),
    ] + spec_one_cell_content_events(a.content) + seq![
        XmlEventView::EmptyTag(XmlTagView { name: "xdr:clientData"@, attributes: Seq::empty() }),
        XmlEventView::EndTag("xdr:oneCellAnchor"@),
    ]
}


/// The number carried by one attribute, when the attribute is present, all
/// digits, and within the machine range.
pub open spec fn spec_attr_number(t: XmlTagView, key: Seq<char>) -> Option<int> {
    match spec_get_attribute(t.attributes, key) {
        Some(v) => if spec_is_digits(v) && v.len() > 0 && spec_digits_value(v) <= u64::MAX {
            Some(spec_digits_value(v))
        } else {
            None
        },
        None => None,
    }
}

/// The effect of one empty child element on a point anchor: the extent
/// element carries the size in its two attributes (and is malformed without
/// them), the payload kinds carry their name, and any other element changes
/// nothing.
pub open spec fn spec_one_cell_with_empty_tag(a: OneCellAnchorView, t: XmlTagView) -> (
    bool,
    OneCellAnchorView,
) {
    let nm = match spec_get_attribute(t.attributes, "name"@) {
        Some(v) => v,
        None => Seq::<char>::empty(),
    };
    if t.name == "xdr:ext"@ {
        match (spec_attr_number(t, "cx"@), spec_attr_number(t, "cy"@)) {
            (Some(cx), Some(cy)) => (true, OneCellAnchorView { width: cx, height: cy, ..a }),
            _ => (false, a),
        }
    } else if t.name == "xdr:sp"@ {
        (true, OneCellAnchorView { content: OneCellContentView::ShapeContent(nm), ..a })
    } else if t.name == "xdr:pic"@ {
        (true, OneCellAnchorView { content: OneCellContentView::PictureContent(nm), ..a })
    } else {
        (true, a)
    }
}

/// The small-step meaning of parsing one point-anchor element from the
/// typed stream: its `xdr:from` child is read by the marker parser, its
/// extent and payload come from empty child elements, and the matching end
/// tag closes the element.  A failing marker parse, a malformed extent, or
/// the end of the stream stops the parse.
pub open spec fn spec_parse_one_cell(
    a: OneCellAnchorView,
    evs: Seq<XmlEventView>,
    pos: int,
) -> (bool, OneCellAnchorView, int)
    decreases evs.len() - pos,
{
    if pos < 0 || pos >= evs.len() {
        (false, a, pos)
    } else {
        match evs[pos] {
            XmlEventView::StartTag(t) => {
                if t.name == "xdr:from"@ {
                    let m = spec_parse_marker(a.from, 0, "xdr:from"@, evs, pos + 1);
                    if m.0 {
                        let next0 = if m.2 > pos + 1 {
                            m.2
                        } else {
                            pos + 2
                        };
                        let next = if next0 <= evs.len() {
                            next0
                        } else {
                            evs.len() as int
                        };
                        spec_parse_one_cell(OneCellAnchorView { from: m.1, ..a }, evs, next)
                    } else {
                        (false, OneCellAnchorView { from: m.1, ..a }, m.2)
                    }
                } else {
                    spec_parse_one_cell(a, evs, pos + 1)
                }
            },
            XmlEventView::EmptyTag(t) => {
                let step = spec_one_cell_with_empty_tag(a, t);
                if step.0 {
                    spec_parse_one_cell(step.1, evs, pos + 1)
                } else {
                    (false, a, pos)
                }
            },
            XmlEventView::EndTag(n) => {
                if n == "xdr:oneCellAnchor"@ {
                    (true, a, pos + 1)
                } else {
                    spec_parse_one_cell(a, evs, pos + 1)
                }
            },
            XmlEventView::Text(t) => spec_parse_one_cell(a, evs, pos + 1),
            XmlEventView::NumberText(n) => spec_parse_one_cell(a, evs, pos + 1),
            XmlEventView::Eof => (false, a, pos),
        }
    }
}

/// A drawing object anchored to one grid point with an explicit extent.
#[derive(Clone, Debug)]
pub struct OneCellAnchor {
    from_marker: FromMarker,
    extent_width: u64,
    extent_height: u64,
    content: OneCellContent,
}

impl View for OneCellAnchor {
    type V = OneCellAnchorView;

    closed spec fn view(&self) -> OneCellAnchorView {
        OneCellAnchorView {
            from: self.from_marker@,
            width: self.extent_width as int,
            height: self.extent_height as int,
            content: self.content@,
        }
    }
}

impl Default for OneCellAnchor {
    /// The default anchor sits at the first cell with no extent and no
    /// payload.
    fn default() -> (r: Self)
        ensures
            r@.from == (MarkerView { col: 1, col_off: 0, row: 1, row_off: 0 }),
            r@.width == 0,
            r@.height == 0,
            r@.content is Empty,
    {
        OneCellAnchor {
            from_marker: FromMarker::default(),
            extent_width: 0,
            extent_height: 0,
            content: OneCellContent::Empty,
        }
    }
}

impl OneCellAnchor {
    pub fn get_from_marker(&self) -> (r: &FromMarker)
        ensures
            r@ == self@.from,
    {
        &self.from_marker
    }

    pub fn set_from_marker(&mut self, value: FromMarker)
        ensures
            final(self)@ == (OneCellAnchorView { from: value@, ..old(self)@ }),
    {
        self.from_marker = value;
    }

    pub fn get_extent_width(&self) -> (r: u64)
        ensures
            r as int == self@.width,
    {
        self.extent_width
    }

    pub fn get_extent_height(&self) -> (r: u64)
        ensures
            r as int == self@.height,
    {
        self.extent_height
    }

    pub fn set_extent(&mut self, width: u64, height: u64)
        ensures
            final(self)@ == (OneCellAnchorView {
                width: width as int,
                height: height as int,
                ..old(self)@
            }),
    {
        self.extent_width = width;
        self.extent_height = height;
    }

    pub fn get_shape(&self) -> (r: Option<&Shape>)
        ensures
            match r {
                Some(s) => self@.content == OneCellContentView::ShapeContent(s@),
                None => !(self@.content is ShapeContent),
            },
    {
        match &self.content {
            OneCellContent::ShapeContent(s) => Some(s),
            _ => None,
        }
    }

    pub fn set_shape(&mut self, value: Shape)
        ensures
            final(self)@ == (OneCellAnchorView {
                content: OneCellContentView::ShapeContent(value@),
                ..old(self)@
            }),
    {
        self.content = OneCellContent::ShapeContent(value);
    }

    pub fn get_picture(&self) -> (r: Option<&Picture>)
        ensures
            match r {
                Some(p) => self@.content == OneCellContentView::PictureContent(p@),
                None => !(self@.content is PictureContent),
            },
    {
        match &self.content {
            OneCellContent::PictureContent(p) => Some(p),
            _ => None,
        }
    }

    pub fn set_picture(&mut self, value: Picture)
        ensures
            final(self)@ == (OneCellAnchorView {
                content: OneCellContentView::PictureContent(value@),
                ..old(self)@
            }),
    {
        self.content = OneCellContent::PictureContent(value);
    }

    /// Whether this anchor carries a picture and therefore stands for an
    /// image.
    pub fn is_image(&self) -> (r: bool)
        ensures
            r == (self@.content is PictureContent),
    {
        match &self.content {
            OneCellContent::PictureContent(_) => true,
            _ => false,
        }
    }

    /// Shift the anchor for an insert of columns and rows at the given
    /// pivots.
    pub fn adjustment_insert_coordinate(
        &mut self,
        root_col_num: u32,
        offset_col_num: u32,
        root_row_num: u32,
        offset_row_num: u32,
    )
        requires
            one_cell_insert_fits(
                old(self)@,
                root_col_num as int,
                offset_col_num as int,
                root_row_num as int,
                offset_row_num as int,
            ),
        ensures
            final(self)@ == one_cell_after_insert(
                old(self)@,
                root_col_num as int,
                offset_col_num as int,
                root_row_num as int,
                offset_row_num as int,
            ),
    {
        self.from_marker.adjustment_insert_coordinate(
            root_col_num,
            offset_col_num,
            root_row_num,
            offset_row_num,
        );
    }

    /// Shift or clamp the anchor for a removal of columns and rows at the
    /// given pivots.
    pub fn adjustment_remove_coordinate(
        &mut self,
        root_col_num: u32,
        offset_col_num: u32,
        root_row_num: u32,
        offset_row_num: u32,
    )
        ensures
            final(self)@ == one_cell_after_remove(
                old(self)@,
                root_col_num as int,
                offset_col_num as int,
                root_row_num as int,
                offset_row_num as int,
            ),
    {
        self.from_marker.adjustment_remove_coordinate(
            root_col_num,
            offset_col_num,
            root_row_num,
            offset_row_num,
        );
    }

    /// Whether a removal of columns and rows at the given pivots deletes
    /// this object: its marker lies inside the removed window.
    pub fn is_remove_coordinate(
        &self,
        root_col_num: u32,
        offset_col_num: u32,
        root_row_num: u32,
        offset_row_num: u32,
    ) -> (r: bool)
        ensures
            r == one_cell_is_removed(
                self@,
                root_col_num as int,
                offset_col_num as int,
                root_row_num as int,
                offset_row_num as int,
            ),
    {
        let col = *self.from_marker.get_col();
        let row = *self.from_marker.get_row();
        crate::adjustment::coordinate_in_window(col, root_col_num, offset_col_num)
            || crate::adjustment::coordinate_in_window(row, root_row_num, offset_row_num)
    }


    /// Read this anchor from the typed element stream, starting at `*pos`
    /// just inside its element, up to and including the end tag that closes
    /// it.  Returns whether the element closed properly; on failure `*pos`
    /// stays at the offending event.
    pub fn set_attributes(&mut self, events: &Vec<XmlEvent>, pos: &mut usize) -> (r: bool)
        requires
            *old(pos) <= events@.len(),
        ensures
            (r, final(self)@, *final(pos) as int) == spec_parse_one_cell(
                old(self)@,
                event_views(events@),
                *old(pos) as int,
            ),
            *final(pos) <= events@.len(),
            *old(pos) <= *final(pos),
            r ==> *old(pos) < *final(pos),
    {
        let ghost evs = event_views(events@);
        let ghost goal = spec_parse_one_cell(old(self)@, evs, *old(pos) as int);
        loop
            invariant
                evs == event_views(events@),
                evs.len() == events@.len(),
                *old(pos) <= events@.len(),
                *old(pos) <= *pos,
                *pos <= events@.len(),
                goal == spec_parse_one_cell(old(self)@, evs, *old(pos) as int),
                goal == spec_parse_one_cell(self@, evs, *pos as int),
            decreases events@.len() - *pos,
        {
            let i = *pos;
            if i >= events.len() {
                return false;
            }
            proof {
                assert(evs[i as int] == events@[i as int]@);
            }
            match &events[i] {
                XmlEvent::StartTag(t) => {
                    if str_eq(t.get_name(), "xdr:from") {
                        *pos = i + 1;
                        let ok = self.from_marker.set_attributes(events, pos);
                        if !ok {
                            return false;
                        }
                    } else {
                        *pos = i + 1;
                    }
                },
                XmlEvent::EmptyTag(t) => {
                    let ghost prev = self@;
                    if str_eq(t.get_name(), "xdr:ext") {
                        let cx = match t.get_attribute("cx") {
                            Some(v) => parse_u64(v),
                            None => None,
                        };
                        let cy = match t.get_attribute("cy") {
                            Some(v) => parse_u64(v),
                            None => None,
                        };
                        match (cx, cy) {
                            (Some(width), Some(height)) => {
                                self.set_extent(width, height);
                                proof {
                                    assert(spec_one_cell_with_empty_tag(prev, t@) == (
                                        true,
                                        self@,
                                    ));
                                }
                                *pos = i + 1;
                            },
                            _ => {
                                return false;
                            },
                        }
                    } else {
                        let payload_name = match t.get_attribute("name") {
                            Some(v) => String::from_str(v),
                            None => String::new(),
                        };
                        if str_eq(t.get_name(), "xdr:sp") {
                            let mut payload = Shape::default();
                            payload.set_name(payload_name);
                            self.content = OneCellContent::ShapeContent(payload);
                        } else if str_eq(t.get_name(), "xdr:pic") {
                            let mut payload = Picture::default();
                            payload.set_name(payload_name);
                            self.content = OneCellContent::PictureContent(payload);
                        }
                        proof {
                            assert(spec_one_cell_with_empty_tag(prev, t@) == (true, self@));
                        }
                        *pos = i + 1;
                    }
                },
                XmlEvent::EndTag(name) => {
                    if str_eq(name.as_str(), "xdr:oneCellAnchor") {
                        *pos = i + 1;
                        return true;
                    } else {
                        *pos = i + 1;
                    }
                },
                XmlEvent::Text(_) => {
                    *pos = i + 1;
                },
                XmlEvent::NumberText(_) => {
                    *pos = i + 1;
                },
                XmlEvent::Eof => {
                    return false;
                },
            }
        }
    }

    /// Append the canonical element-stream encoding of this anchor to
    /// `events`.
    #[verifier::rlimit(50)]
    pub fn write_to(&self, events: &mut Vec<XmlEvent>)
        ensures
            event_views(final(events)@) == event_views(old(events)@) + spec_one_cell_events(
                self@,
            ),
    {
        events.push(XmlEvent::StartTag(XmlTag::new(String::from_str("xdr:oneCellAnchor"))));
        let ghost after_start = event_views(events@);
        proof {
            assert(after_start =~= event_views(old(events)@) + seq![
                XmlEventView::StartTag(
                    XmlTagView { name: "xdr:oneCellAnchor"@, attributes: Seq::empty() },
                ),
            ]);
        }
        self.from_marker.write_to(events);
        let ghost after_from = event_views(events@);
        let mut ext_tag = XmlTag::new(String::from_str("xdr:ext"));
        ext_tag.add_attribute(String::from_str("cx"), u64_to_string(self.extent_width));
        ext_tag.add_attribute(String::from_str("cy"), u64_to_string(self.extent_height));
        proof {
            assert(ext_tag@.name == "xdr:ext"@);
            assert(ext_tag@.attributes =~~= seq![
                XmlAttributeView { key: "cx"@, value: spec_decimal(self@.width) },
                XmlAttributeView { key: "cy"@, value: spec_decimal(self@.height) },
            ]);
        }
        events.push(XmlEvent::EmptyTag(ext_tag));
        let ghost after_ext = event_views(events@);
        proof {
            assert(after_ext =~~= after_from + seq![
                XmlEventView::EmptyTag(
                    XmlTagView {
                        name: "xdr:ext"@,
                        attributes: seq![
                            XmlAttributeView { key: "cx"@, value: spec_decimal(self@.width) },
                            XmlAttributeView { key: "cy"@, value: spec_decimal(self@.height) },
                        ],
                    },
                ),
            ]);
        }
        match &self.content {
            OneCellContent::Empty => {
                proof {
                    assert(event_views(events@) =~~= after_ext + spec_one_cell_content_events(
                        self@.content,
                    ));
                }
            },
            OneCellContent::ShapeContent(p) => {
                let mut tag = XmlTag::new(String::from_str("xdr:sp"));
                tag.add_attribute(String::from_str("name"), String::from_str(p.get_name()));
                events.push(XmlEvent::EmptyTag(tag));
                proof {
                    assert(event_views(events@) =~~= after_ext + spec_one_cell_content_events(
                        self@.content,
                    ));
                }
            },
            OneCellContent::PictureContent(p) => {
                let mut tag = XmlTag::new(String::from_str("xdr:pic"));
                tag.add_attribute(String::from_str("name"), String::from_str(p.get_name()));
                events.push(XmlEvent::EmptyTag(tag));
                proof {
                    assert(event_views(events@) =~~= after_ext + spec_one_cell_content_events(
                        self@.content,
                    ));
                }
            },
        }
        events.push(XmlEvent::EmptyTag(XmlTag::new(String::from_str("xdr:clientData"))));
        events.push(XmlEvent::EndTag(String::from_str("xdr:oneCellAnchor")));
        proof {
            let head = seq![
                XmlEventView::StartTag(
                    XmlTagView { name: "xdr:oneCellAnchor"@, attributes: Seq::empty() },
                ),
            ];
            let from_events = spec_marker_events(self@.from, "xdr:from"@);
            let ext_events = seq![
                XmlEventView::EmptyTag(
                    XmlTagView {
                        name: "xdr:ext"@,
                        attributes: seq![
                            XmlAttributeView { key: "cx"@, value: spec_decimal(self@.width) },
                            XmlAttributeView { key: "cy"@, value: spec_decimal(self@.height) },
                        ],
                    },
                ),
            ];
            let content_events = spec_one_cell_content_events(self@.content);
            let tail = seq![
                XmlEventView::EmptyTag(
                    XmlTagView { name: "xdr:clientData"@, attributes: Seq::empty() },
                ),
                XmlEventView::EndTag("xdr:oneCellAnchor"@),
            ];
            assert(event_views(events@) =~~= after_ext + content_events + tail);
            assert(after_ext =~~= after_start + from_events + ext_events);
            assert(spec_one_cell_events(self@) == head + from_events + ext_events + content_events
                + tail);
            assert(event_views(events@) =~~= event_views(old(events)@) + spec_one_cell_events(
                self@,
            ));
        }
    }
}

} // verus!

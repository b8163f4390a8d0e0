//! An embedded OLE object: a composite that owns a range anchor for its
//! visual position, the embedded payload bytes, and a legacy shape.  Every
//! structural adjustment is delegated to the owned range anchor.

use vstd::prelude::*;
use crate::anchor::AnchorView;
use crate::embedded_object_properties::{spec_embedded_properties_events,
    EmbeddedObjectProperties, EmbeddedObjectPropertiesView};
use crate::strutil::{parse_u64, spec_decimal, spec_digits_value, spec_is_digits, u64_to_string};
use crate::xml::spec_get_attribute;
use crate::xml::{event_views, XmlAttributeView, XmlEvent, XmlEventView, XmlTag, XmlTagView};
use vstd::string::StringExecFns;
use crate::strutil::str_eq;
use crate::two_cell_anchor::{spec_parse_two_cell, two_cell_after_insert, two_cell_after_remove,
    two_cell_insert_fits, two_cell_is_removed, TwoCellAnchor, TwoCellAnchorView};
use crate::vml_shape::VmlShape;

verus! {

/// Mathematical model of an embedded object.
pub struct OleObjectView {
    pub alternate_content_requires: Seq<char>,
    pub prog_id: Seq<char>,
    pub object_extension: Seq<char>,
    pub object_data: Option<Seq<u8>>,
    pub properties: EmbeddedObjectPropertiesView,
    pub anchor: TwoCellAnchorView,
    pub shape: AnchorView,
}

/// The embedded object after an insert on its hosting sheet: only the range
/// anchor moves.
pub open spec fn ole_after_insert(
    v: OleObjectView,
    root_col: int,
    off_col: int,
    root_row: int,
    off_row: int,
) -> OleObjectView {
    OleObjectView { anchor: two_cell_after_insert(v.anchor, root_col, off_col, root_row, off_row), ..v }
}

/// The embedded object after a removal on its hosting sheet.
pub open spec fn ole_after_remove(
    v: OleObjectView,
    root_col: int,
    off_col: int,
    root_row: int,
    off_row: int,
) -> OleObjectView {
    OleObjectView { anchor: two_cell_after_remove(v.anchor, root_col, off_col, root_row, off_row), ..v }
}

/// Whether an insert keeps the shifted anchor within the machine range.
pub open spec fn ole_insert_fits(
    v: OleObjectView,
    root_col: int,
    off_col: int,
    root_row: int,
    off_row: int,
) -> bool {
    two_cell_insert_fits(v.anchor, root_col, off_col, root_row, off_row)
}

/// Whether a removal deletes the embedded object: its range anchor is
/// removal-eligible.
pub open spec fn ole_is_removed(
    v: OleObjectView,
    root_col: int,
    off_col: int,
    root_row: int,
    off_row: int,
) -> bool {
    two_cell_is_removed(v.anchor, root_col, off_col, root_row, off_row)
}


/// The attributes of a serialized embedded-object element: the program
/// identifier, the shape number, and the relationship reference.
pub open spec fn spec_ole_tag_attributes(
    v: OleObjectView,
    r_id: int,
    ole_id: int,
) -> Seq<XmlAttributeView> {
    seq![
        XmlAttributeView { key: "progId"@, value: v.prog_id },
        XmlAttributeView { key: "shapeId"@, value: spec_decimal(ole_id) },
        XmlAttributeView { key: "r:id"@, value: "rId"@ + spec_decimal(r_id) },
    ]
}

/// The canonical element-stream encoding of one embedded object: the
/// alternate-content wrapper holding the full element in its choice branch
/// and a bare element in its fallback branch.
pub open spec fn spec_ole_object_events(v: OleObjectView, r_id: int, ole_id: int) -> Seq<
    XmlEventView,
> {
    seq![
        XmlEventView::StartTag(
            XmlTagView {
                name: "mc:AlternateContent"@,
                attributes: seq![
                    XmlAttributeView {
                        key: "xmlns:mc"@,
                        value: "http://schemas.openxmlformats.org/markup-compatibility/2006"@,
                    },
                ],
            },
        ),
        XmlEventView::StartTag(
            XmlTagView {
                name: "mc:Choice"@,
                attributes: seq![
                    XmlAttributeView {
                        key: "Requires"@,
                        value: v.alternate_content_requires,
                    },
                ],
            },
        ),
        XmlEventView::StartTag(
            XmlTagView { name: "oleObject"@, attributes: spec_ole_tag_attributes(v, r_id, ole_id) },
        ),
    ] + spec_embedded_properties_events(v.properties, r_id + 1) + seq![
        XmlEventView::EndTag("oleObject"@),
        XmlEventView::EndTag("mc:Choice"@),
        XmlEventView::StartTag(XmlTagView { name: "mc:Fallback"@, attributes: Seq::empty() }),
        XmlEventView::EmptyTag(
            XmlTagView { name: "oleObject"@, attributes: spec_ole_tag_attributes(v, r_id, ole_id) },
        ),
        XmlEventView::EndTag("mc:Fallback"@),
        XmlEventView::EndTag("mc:AlternateContent"@),
    ]
}


/// The piece of an embedded object read from one element tag: the choice
/// branch carries the requirement name, the object element carries the
/// program identifier (and is malformed without it), and the properties
/// element carries the program identifier and shape number of the
/// properties block.
pub open spec fn spec_ole_with_tag(v: OleObjectView, t: XmlTagView) -> (bool, OleObjectView) {
    if t.name == "mc:Choice"@ {
        match spec_get_attribute(t.attributes, "Requires"@) {
            Some(req) => (true, OleObjectView { alternate_content_requires: req, ..v }),
            None => (true, v),
        }
    } else if t.name == "oleObject"@ {
        match spec_get_attribute(t.attributes, "progId"@) {
            Some(p) => (true, OleObjectView { prog_id: p, ..v }),
            None => (false, v),
        }
    } else if t.name == "objectPr"@ {
        let p = match spec_get_attribute(t.attributes, "progId"@) {
            Some(x) => x,
            None => Seq::<char>::empty(),
        };
        match spec_get_attribute(t.attributes, "shapeId"@) {
            Some(sv) => if spec_is_digits(sv) && sv.len() > 0 && spec_digits_value(sv)
                <= u32::MAX {
                (
                    true,
                    OleObjectView {
                        properties: EmbeddedObjectPropertiesView {
                            prog_id: p,
                            shape_id: spec_digits_value(sv),
                        },
                        ..v
                    },
                )
            } else {
                (false, v)
            },
            None => (false, v),
        }
    } else {
        (true, v)
    }
}

/// The small-step meaning of parsing one embedded-object element from the
/// typed stream: the choice branch, the object element, and the properties
/// element each contribute their attributes, and the end of the
/// alternate-content wrapper closes the element.  A malformed piece, or the
/// end of the stream, stops the parse.
pub open spec fn spec_parse_ole_object(
    v: OleObjectView,
    evs: Seq<crate::xml::XmlEventView>,
    pos: int,
) -> (bool, OleObjectView, int)
    decreases evs.len() - pos,
{
    if pos < 0 || pos >= evs.len() {
        (false, v, pos)
    } else {
        match evs[pos] {
            crate::xml::XmlEventView::StartTag(t) => {
                let step = spec_ole_with_tag(v, t);
                if step.0 {
                    spec_parse_ole_object(step.1, evs, pos + 1)
                } else {
                    (false, v, pos)
                }
            },
            crate::xml::XmlEventView::EmptyTag(t) => {
                if t.name == "objectPr"@ {
                    let step = spec_ole_with_tag(v, t);
                    if step.0 {
                        spec_parse_ole_object(step.1, evs, pos + 1)
                    } else {
                        (false, v, pos)
                    }
                } else {
                    spec_parse_ole_object(v, evs, pos + 1)
                }
            },
            crate::xml::XmlEventView::EndTag(n) => {
                if n == "mc:AlternateContent"@ {
                    (true, v, pos + 1)
                } else {
                    spec_parse_ole_object(v, evs, pos + 1)
                }
            },
            crate::xml::XmlEventView::Text(t) => spec_parse_ole_object(v, evs, pos + 1),
            crate::xml::XmlEventView::NumberText(n) => spec_parse_ole_object(v, evs, pos + 1),
            crate::xml::XmlEventView::Eof => (false, v, pos),
        }
    }
}

/// An embedded OLE object with its anchor and payload.
#[derive(Clone, Debug)]
pub struct OleObject {
    alternate_content_requires: String,
    prog_id: String,
    object_extension: String,
    object_data: Option<Vec<u8>>,
    embedded_object_properties: EmbeddedObjectProperties,
    two_cell_anchor: TwoCellAnchor,
    shape: VmlShape,
}

impl View for OleObject {
    type V = OleObjectView;

    closed spec fn view(&self) -> OleObjectView {
        OleObjectView {
            alternate_content_requires: self.alternate_content_requires@,
            prog_id: self.prog_id@,
            object_extension: self.object_extension@,
            object_data: match &self.object_data {
                Some(d) => Some(d@),
                None => None,
            },
            properties: self.embedded_object_properties@,
            anchor: self.two_cell_anchor@,
            shape: self.shape@,
        }
    }
}

impl Default for OleObject {
    /// The default embedded object has empty names, no payload, and default
    /// anchors.
    fn default() -> (r: Self)
        ensures
            r@.alternate_content_requires == Seq::<char>::empty(),
            r@.prog_id == Seq::<char>::empty(),
            r@.object_extension == Seq::<char>::empty(),
            r@.object_data is None,
    {
        OleObject {
            alternate_content_requires: String::new(),
            prog_id: String::new(),
            object_extension: String::new(),
            object_data: None,
            embedded_object_properties: EmbeddedObjectProperties::default(),
            two_cell_anchor: TwoCellAnchor::default(),
            shape: VmlShape::default(),
        }
    }
}

impl OleObject {
    pub fn get_requires(&self) -> (r: &str)
        ensures
            r@ == self@.alternate_content_requires,
    {
        self.alternate_content_requires.as_str()
    }

    pub fn set_requires(&mut self, value: String)
        ensures
            final(self)@ == (OleObjectView { alternate_content_requires: value@, ..old(self)@ }),
    {
        self.alternate_content_requires = value;
    }

    pub fn get_prog_id(&self) -> (r: &str)
        ensures
            r@ == self@.prog_id,
    {
        self.prog_id.as_str()
    }

    pub fn set_prog_id(&mut self, value: String)
        ensures
            final(self)@ == (OleObjectView { prog_id: value@, ..old(self)@ }),
    {
        self.prog_id = value;
    }

    pub fn get_object_extension(&self) -> (r: &str)
        ensures
            r@ == self@.object_extension,
    {
        self.object_extension.as_str()
    }

    pub fn set_object_extension(&mut self, value: String)
        ensures
            final(self)@ == (OleObjectView { object_extension: value@, ..old(self)@ }),
    {
        self.object_extension = value;
    }

    pub fn get_object_data(&self) -> (r: Option<&Vec<u8>>)
        ensures
            match r {
                Some(d) => self@.object_data == Some(d@),
                None => self@.object_data is None,
            },
    {
        self.object_data.as_ref()
    }

    pub fn set_object_data(&mut self, value: Vec<u8>)
        ensures
            final(self)@ == (OleObjectView { object_data: Some(value@), ..old(self)@ }),
    {
        self.object_data = Some(value);
    }

    pub fn get_embedded_object_properties(&self) -> (r: &EmbeddedObjectProperties)
        ensures
            r@ == self@.properties,
    {
        &self.embedded_object_properties
    }

    pub fn set_embedded_object_properties(&mut self, value: EmbeddedObjectProperties)
        ensures
            final(self)@ == (OleObjectView { properties: value@, ..old(self)@ }),
    {
        self.embedded_object_properties = value;
    }

    pub fn get_two_cell_anchor(&self) -> (r: &TwoCellAnchor)
        ensures
            r@ == self@.anchor,
    {
        &self.two_cell_anchor
    }

    pub fn set_two_cell_anchor(&mut self, value: TwoCellAnchor)
        ensures
            final(self)@ == (OleObjectView { anchor: value@, ..old(self)@ }),
    {
        self.two_cell_anchor = value;
    }

    pub fn get_shape(&self) -> (r: &VmlShape)
        ensures
            r@ == self@.shape,
    {
        &self.shape
    }

    pub fn set_shape(&mut self, value: VmlShape)
        ensures
            final(self)@ == (OleObjectView { shape: value@, ..old(self)@ }),
    {
        self.shape = value;
    }

    /// Whether the embedded payload is a raw binary object.
    pub fn is_bin(&self) -> (r: bool)
        ensures
            r == (self@.object_extension == "bin"@),
    {
        str_eq(self.object_extension.as_str(), "bin")
    }

    /// Whether the embedded payload is itself a spreadsheet document.
    pub fn is_xlsx(&self) -> (r: bool)
        ensures
            r == (self@.object_extension == "xlsx"@),
    {
        str_eq(self.object_extension.as_str(), "xlsx")
    }

    /// Shift the owned range anchor for an insert on the hosting sheet.
    pub fn adjustment_insert_coordinate(
        &mut self,
        root_col_num: u32,
        offset_col_num: u32,
        root_row_num: u32,
        offset_row_num: u32,
    )
        requires
            ole_insert_fits(
                old(self)@,
                root_col_num as int,
                offset_col_num as int,
                root_row_num as int,
                offset_row_num as int,
            ),
        ensures
            final(self)@ == ole_after_insert(
                old(self)@,
                root_col_num as int,
                offset_col_num as int,
                root_row_num as int,
                offset_row_num as int,
            ),
    {
        self.two_cell_anchor.adjustment_insert_coordinate(
            root_col_num,
            offset_col_num,
            root_row_num,
            offset_row_num,
        );
    }

    /// Shift or clamp the owned range anchor for a removal on the hosting
    /// sheet.
    pub fn adjustment_remove_coordinate(
        &mut self,
        root_col_num: u32,
        offset_col_num: u32,
        root_row_num: u32,
        offset_row_num: u32,
    )
        ensures
            final(self)@ == ole_after_remove(
                old(self)@,
                root_col_num as int,
                offset_col_num as int,
                root_row_num as int,
                offset_row_num as int,
            ),
    {
        self.two_cell_anchor.adjustment_remove_coordinate(
            root_col_num,
            offset_col_num,
            root_row_num,
            offset_row_num,
        );
    }




    /// Read this embedded object from the typed element stream, starting at
    /// `*pos` just inside its alternate-content wrapper, up to and including
    /// the end tag that closes the wrapper.  The embedded payload itself is
    /// not part of the stream; the caller supplies it from the package
    /// relationships.  Returns whether the wrapper closed properly; on
    /// failure `*pos` stays at the offending event.
    pub fn set_attributes(&mut self, events: &Vec<XmlEvent>, pos: &mut usize) -> (r: bool)
        requires
            *old(pos) <= events@.len(),
        ensures
            (r, final(self)@, *final(pos) as int) == spec_parse_ole_object(
                old(self)@,
                event_views(events@),
                *old(pos) as int,
            ),
            *final(pos) <= events@.len(),
    {
        let ghost evs = event_views(events@);
        let ghost goal = spec_parse_ole_object(old(self)@, evs, *old(pos) as int);
        loop
            invariant
                evs == event_views(events@),
                evs.len() == events@.len(),
                *pos <= events@.len(),
                goal == spec_parse_ole_object(old(self)@, evs, *old(pos) as int),
                goal == spec_parse_ole_object(self@, evs, *pos as int),
            decreases events@.len() - *pos,
        {
            let i = *pos;
            if i >= events.len() {
                return false;
            }
            proof {
                assert(evs[i as int] == events@[i as int]@);
            }
            match &events[i] {
                XmlEvent::StartTag(t) => {
                    let ghost prev = self@;
                    if str_eq(t.get_name(), "mc:Choice") {
                        match t.get_attribute("Requires") {
                            Some(v) => {
                                self.alternate_content_requires = String::from_str(v);
                            },
                            None => {},
                        }
                        proof {
                            assert(spec_ole_with_tag(prev, t@) == (true, self@));
                        }
                        *pos = i + 1;
                    } else if str_eq(t.get_name(), "oleObject") {
                        match t.get_attribute("progId") {
                            Some(v) => {
                                self.prog_id = String::from_str(v);
                                proof {
                                    assert(spec_ole_with_tag(prev, t@) == (true, self@));
                                }
                                *pos = i + 1;
                            },
                            None => {
                                return false;
                            },
                        }
                    } else if str_eq(t.get_name(), "objectPr") {
                        if !self.read_object_properties(t) {
                            return false;
                        }
                        proof {
                            assert(spec_ole_with_tag(prev, t@) == (true, self@));
                        }
                        *pos = i + 1;
                    } else {
                        *pos = i + 1;
                    }
                },
                XmlEvent::EmptyTag(t) => {
                    let ghost prev = self@;
                    if str_eq(t.get_name(), "objectPr") {
                        if !self.read_object_properties(t) {
                            return false;
                        }
                        proof {
                            assert(spec_ole_with_tag(prev, t@) == (true, self@));
                        }
                        *pos = i + 1;
                    } else {
                        *pos = i + 1;
                    }
                },
                XmlEvent::EndTag(name) => {
                    if str_eq(name.as_str(), "mc:AlternateContent") {
                        *pos = i + 1;
                        return true;
                    } else {
                        *pos = i + 1;
                    }
                },
                XmlEvent::Text(_) => {
                    *pos = i + 1;
                },
                XmlEvent::NumberText(_) => {
                    *pos = i + 1;
                },
                XmlEvent::Eof => {
                    return false;
                },
            }
        }
    }

    /// Read the properties block from one `objectPr` tag; false when the
    /// shape number is missing or malformed.
    fn read_object_properties(&mut self, t: &XmlTag) -> (r: bool)
        ensures
            t@.name == "objectPr"@ ==> (r, final(self)@) == spec_ole_with_tag(old(self)@, t@),
            !r ==> final(self)@ == old(self)@,
    {
        proof {
            reveal_strlit("objectPr");
            reveal_strlit("mc:Choice");
            reveal_strlit("oleObject");
            assert("objectPr"@.len() == 8);
            assert("mc:Choice"@.len() == 9);
            assert("oleObject"@.len() == 9);
            assert("objectPr"@ != "mc:Choice"@);
            assert("objectPr"@ != "oleObject"@);
        }
        let prog = match t.get_attribute("progId") {
            Some(v) => String::from_str(v),
            None => String::new(),
        };
        let shape = match t.get_attribute("shapeId") {
            Some(v) => parse_u64(v),
            None => None,
        };
        match shape {
            Some(n) => {
                if n > u32::MAX as u64 {
                    return false;
                }
                self.embedded_object_properties.set_prog_id(prog);
                self.embedded_object_properties.set_shape_id(n as u32);
                true
            },
            None => false,
        }
    }

    /// Read this object's anchor from the typed element stream as the
    /// alternate-content branch of its element: mark the anchor as alternate
    /// content, then parse the anchor element.
    pub fn parse_alternate_anchor(&mut self, events: &Vec<XmlEvent>, pos: &mut usize) -> (r: bool)
        requires
            *old(pos) <= events@.len(),
        ensures
            ({
                let start = TwoCellAnchorView {
                    is_alternate_content: true,
                    ..old(self)@.anchor
                };
                let m = spec_parse_two_cell(start, event_views(events@), *old(pos) as int);
                r == m.0 && final(self)@ == (OleObjectView { anchor: m.1, ..old(self)@ })
                    && *final(pos) as int == m.2
            }),
            *final(pos) <= events@.len(),
            *old(pos) <= *final(pos),
            r ==> *old(pos) < *final(pos),
    {
        self.two_cell_anchor.set_is_alternate_content(true);
        self.two_cell_anchor.set_attributes(events, pos)
    }

    /// Append the canonical element-stream encoding of this embedded object
    /// to `events`, under the relationship number `r_id` and the shape
    /// number `ole_id`.
    #[verifier::rlimit(80)]
    pub fn write_to(&self, events: &mut Vec<XmlEvent>, r_id: u64, ole_id: u64)
        requires
            r_id < u64::MAX,
        ensures
            event_views(final(events)@) == event_views(old(events)@) + spec_ole_object_events(
                self@,
                r_id as int,
                ole_id as int,
            ),
    {
        let ghost rid = r_id as int;
        let ghost oid = ole_id as int;
        let mut alt = XmlTag::new(String::from_str("mc:AlternateContent"));
        alt.add_attribute(
            String::from_str("xmlns:mc"),
            String::from_str("http://schemas.openxmlformats.org/markup-compatibility/2006"),
        );
        proof {
            assert(alt@.attributes =~= seq![
                XmlAttributeView {
                    key: "xmlns:mc"@,
                    value: "http://schemas.openxmlformats.org/markup-compatibility/2006"@,
                },
            ]);
        }
        events.push(XmlEvent::StartTag(alt));
        let mut choice = XmlTag::new(String::from_str("mc:Choice"));
        choice.add_attribute(
            String::from_str("Requires"),
            String::from_str(self.alternate_content_requires.as_str()),
        );
        proof {
            assert(choice@.attributes =~= seq![
                XmlAttributeView {
                    key: "Requires"@,
                    value: self@.alternate_content_requires,
                },
            ]);
        }
        events.push(XmlEvent::StartTag(choice));
        let mut ole_open = XmlTag::new(String::from_str("oleObject"));
        ole_open.add_attribute(
            String::from_str("progId"),
            String::from_str(self.prog_id.as_str()),
        );
        ole_open.add_attribute(String::from_str("shapeId"), u64_to_string(ole_id));
        let rid_string = String::from_str("rId").concat(u64_to_string(r_id).as_str());
        ole_open.add_attribute(String::from_str("r:id"), rid_string);
        proof {
            assert(ole_open@.attributes =~~= spec_ole_tag_attributes(self@, rid, oid));
        }
        events.push(XmlEvent::StartTag(ole_open));
        let ghost after_open = event_views(events@);
        self.embedded_object_properties.write_to(events, r_id + 1);
        let ghost after_props = event_views(events@);
        events.push(XmlEvent::EndTag(String::from_str("oleObject")));
        events.push(XmlEvent::EndTag(String::from_str("mc:Choice")));
        events.push(XmlEvent::StartTag(XmlTag::new(String::from_str("mc:Fallback"))));
        let mut ole_fallback = XmlTag::new(String::from_str("oleObject"));
        ole_fallback.add_attribute(
            String::from_str("progId"),
            String::from_str(self.prog_id.as_str()),
        );
        ole_fallback.add_attribute(String::from_str("shapeId"), u64_to_string(ole_id));
        let rid_string2 = String::from_str("rId").concat(u64_to_string(r_id).as_str());
        ole_fallback.add_attribute(String::from_str("r:id"), rid_string2);
        proof {
            assert(ole_fallback@.attributes =~~= spec_ole_tag_attributes(self@, rid, oid));
        }
        events.push(XmlEvent::EmptyTag(ole_fallback));
        events.push(XmlEvent::EndTag(String::from_str("mc:Fallback")));
        events.push(XmlEvent::EndTag(String::from_str("mc:AlternateContent")));
        proof {
            let head = seq![
                XmlEventView::StartTag(
                    XmlTagView {
                        name: "mc:AlternateContent"@,
                        attributes: seq![
                            XmlAttributeView {
                                key: "xmlns:mc"@,
                                value: "http://schemas.openxmlformats.org/markup-compatibility/2006"@,
                            },
                        ],
                    },
                ),
                XmlEventView::StartTag(
                    XmlTagView {
                        name: "mc:Choice"@,
                        attributes: seq![
                            XmlAttributeView {
                                key: "Requires"@,
                                value: self@.alternate_content_requires,
                            },
                        ],
                    },
                ),
                XmlEventView::StartTag(
                    XmlTagView {
                        name: "oleObject"@,
                        attributes: spec_ole_tag_attributes(self@, rid, oid),
                    },
                ),
            ];
            let tail = seq![
                XmlEventView::EndTag("oleObject"@),
                XmlEventView::EndTag("mc:Choice"@),
                XmlEventView::StartTag(
                    XmlTagView { name: "mc:Fallback"@, attributes: Seq::empty() },
                ),
                XmlEventView::EmptyTag(
                    XmlTagView {
                        name: "oleObject"@,
                        attributes: spec_ole_tag_attributes(self@, rid, oid),
                    },
                ),
                XmlEventView::EndTag("mc:Fallback"@),
                XmlEventView::EndTag("mc:AlternateContent"@),
            ];
            assert(after_open =~~= event_views(old(events)@) + head);
            assert(after_props == after_open + spec_embedded_properties_events(
                self@.properties,
                rid + 1,
            ));
            assert(event_views(events@) =~~= after_props + tail);
            assert(spec_ole_object_events(self@, rid, oid) == head
                + spec_embedded_properties_events(self@.properties, rid + 1) + tail);
            assert(event_views(events@) =~~= event_views(old(events)@) + spec_ole_object_events(
                self@,
                rid,
                oid,
            ));
        }
    }

    /// Whether a removal on the hosting sheet deletes this object.
    pub fn is_remove_coordinate(
        &self,
        root_col_num: u32,
        offset_col_num: u32,
        root_row_num: u32,
        offset_row_num: u32,
    ) -> (r: bool)
        ensures
            r == ole_is_removed(
                self@,
                root_col_num as int,
                offset_col_num as int,
                root_row_num as int,
                offset_row_num as int,
            ),
    {
        self.two_cell_anchor.is_remove_coordinate(
            root_col_num,
            offset_col_num,
            root_row_num,
            offset_row_num,
        )
    }
}

} // verus!

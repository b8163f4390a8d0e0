//! The properties block of an embedded object: the program identifier of the
//! embedding application and the shape that displays it.

use vstd::prelude::*;
use vstd::string::StringExecFns;
use crate::strutil::{spec_decimal, u64_to_string};
use crate::xml::{event_views, XmlAttributeView, XmlEvent, XmlEventView, XmlTag, XmlTagView};

verus! {

/// The canonical element-stream encoding of a properties block, linked to
/// the relationship numbered `r_id`.
pub open spec fn spec_embedded_properties_events(
    p: EmbeddedObjectPropertiesView,
    r_id: int,
) -> Seq<XmlEventView> {
    seq![
        XmlEventView::EmptyTag(
            XmlTagView {
                name: "objectPr"@,
                attributes: seq![
                    XmlAttributeView { key: "progId"@, value: p.prog_id },
                    XmlAttributeView { key: "shapeId"@, value: spec_decimal(p.shape_id) },
                    XmlAttributeView { key: "r:id"@, value: "rId"@ + spec_decimal(r_id) },
                ],
            },
        ),
    ]
}

/// Mathematical model of the properties block.
pub struct EmbeddedObjectPropertiesView {
    pub prog_id: Seq<char>,
    pub shape_id: int,
}

/// The properties of one embedded object.
#[derive(Clone, Debug)]
pub struct EmbeddedObjectProperties {
    prog_id: String,
    shape_id: u32,
}

impl View for EmbeddedObjectProperties {
    type V = EmbeddedObjectPropertiesView;

    closed spec fn view(&self) -> EmbeddedObjectPropertiesView {
        EmbeddedObjectPropertiesView { prog_id: self.prog_id@, shape_id: self.shape_id as int }
    }
}

impl Default for EmbeddedObjectProperties {
    fn default() -> (r: Self)
        ensures
            r@.prog_id == Seq::<char>::empty(),
            r@.shape_id == 0,
    {
        EmbeddedObjectProperties { prog_id: String::new(), shape_id: 0 }
    }
}

impl EmbeddedObjectProperties {
    pub fn get_prog_id(&self) -> (r: &str)
        ensures
            r@ == self@.prog_id,
    {
        self.prog_id.as_str()
    }

    pub fn set_prog_id(&mut self, value: String)
        ensures
            final(self)@ == (EmbeddedObjectPropertiesView { prog_id: value@, ..old(self)@ }),
    {
        self.prog_id = value;
    }

    pub fn get_shape_id(&self) -> (r: u32)
        ensures
            r as int == self@.shape_id,
    {
        self.shape_id
    }

    pub fn set_shape_id(&mut self, value: u32)
        ensures
            final(self)@ == (EmbeddedObjectPropertiesView { shape_id: value as int, ..old(self)@ }),
    {
        self.shape_id = value;
    }

    /// Append the canonical element-stream encoding of this properties
    /// block, linked to the relationship numbered `r_id`, to `events`.
    pub fn write_to(&self, events: &mut Vec<XmlEvent>, r_id: u64)
        ensures
            event_views(final(events)@) == event_views(old(events)@)
                + spec_embedded_properties_events(self@, r_id as int),
    {
        let mut tag = XmlTag::new(String::from_str("objectPr"));
        tag.add_attribute(String::from_str("progId"), String::from_str(self.prog_id.as_str()));
        tag.add_attribute(String::from_str("shapeId"), u64_to_string(self.shape_id as u64));
        let rid = String::from_str("rId").concat(u64_to_string(r_id).as_str());
        tag.add_attribute(String::from_str("r:id"), rid);
        proof {
            assert(tag@.name == "objectPr"@);
            assert(tag@.attributes =~~= seq![
                XmlAttributeView { key: "progId"@, value: self@.prog_id },
                XmlAttributeView { key: "shapeId"@, value: spec_decimal(self@.shape_id) },
                XmlAttributeView { key: "r:id"@, value: "rId"@ + spec_decimal(r_id as int) },
            ]);
        }
        events.push(XmlEvent::EmptyTag(tag));
        proof {
            assert(event_views(events@) =~~= event_views(old(events)@)
                + spec_embedded_properties_events(self@, r_id as int));
        }
    }
}

} // verus!

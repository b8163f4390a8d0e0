//! The typed element-stream boundary of the document model.
//!
//! The tokenizing layer outside this crate turns raw XML into a stream of
//! typed events and hands coordinate text along as pre-parsed integers; on
//! the way out it serializes the same events back to XML.  The parsers and
//! writers of this crate work entirely on this stream.

use vstd::prelude::*;
use crate::strutil::str_eq;

verus! {

/// Mathematical model of one attribute: its key and value.
#[verifier::ext_equal]
pub struct XmlAttributeView {
    pub key: Seq<char>,
    pub value: Seq<char>,
}

/// One attribute of a tag.
#[derive(Clone, Debug)]
pub struct XmlAttribute {
    key: String,
    value: String,
}

impl View for XmlAttribute {
    type V = XmlAttributeView;

    closed spec fn view(&self) -> XmlAttributeView {
        XmlAttributeView { key: self.key@, value: self.value@ }
    }
}

impl XmlAttribute {
    pub fn new(key: String, value: String) -> (r: Self)
        ensures
            r@ == (XmlAttributeView { key: key@, value: value@ }),
    {
        XmlAttribute { key, value }
    }

    pub fn get_key(&self) -> (r: &str)
        ensures
            r@ == self@.key,
    {
        self.key.as_str()
    }

    pub fn get_value(&self) -> (r: &str)
        ensures
            r@ == self@.value,
    {
        self.value.as_str()
    }
}

pub open spec fn attribute_views(s: Seq<XmlAttribute>) -> Seq<XmlAttributeView> {
    s.map_values(|a: XmlAttribute| a@)
}

/// Mathematical model of one tag: its name and attributes in order.
#[verifier::ext_equal]
pub struct XmlTagView {
    pub name: Seq<char>,
    pub attributes: Seq<XmlAttributeView>,
}

/// One tag with its attributes.
#[derive(Clone, Debug)]
pub struct XmlTag {
    name: String,
    attributes: Vec<XmlAttribute>,
}

impl View for XmlTag {
    type V = XmlTagView;

    closed spec fn view(&self) -> XmlTagView {
        XmlTagView { name: self.name@, attributes: attribute_views(self.attributes@) }
    }
}

/// The first value among `attrs` stored under `key`, if any.
pub open spec fn spec_get_attribute(attrs: Seq<XmlAttributeView>, key: Seq<char>) -> Option<
    Seq<char>,
>
    decreases attrs.len(),
{
    if attrs.len() == 0 {
        None
    } else if attrs[0].key == key {
        Some(attrs[0].value)
    } else {
        spec_get_attribute(attrs.drop_first(), key)
    }
}

impl XmlTag {
    pub fn new(name: String) -> (r: Self)
        ensures
            r@ == (XmlTagView { name: name@, attributes: Seq::<XmlAttributeView>::empty() }),
    {
        let r = XmlTag { name, attributes: Vec::new() };
        proof {
            assert(attribute_views(r.attributes@) =~= Seq::<XmlAttributeView>::empty());
        }
        r
    }

    pub fn get_name(&self) -> (r: &str)
        ensures
            r@ == self@.name,
    {
        self.name.as_str()
    }

    pub fn get_attributes(&self) -> (r: &Vec<XmlAttribute>)
        ensures
            attribute_views(r@) == self@.attributes,
    {
        &self.attributes
    }

    pub fn add_attribute(&mut self, key: String, value: String)
        ensures
            final(self)@ == (XmlTagView {
                attributes: old(self)@.attributes.push(
                    XmlAttributeView { key: key@, value: value@ },
                ),
                ..old(self)@
            }),
    {
        let ghost k = key@;
        let ghost v = value@;
        self.attributes.push(XmlAttribute::new(key, value));
        proof {
            assert(attribute_views(self.attributes@) =~= attribute_views(
                old(self).attributes@,
            ).push(XmlAttributeView { key: k, value: v }));
        }
    }

    /// The first value stored under `key`, if any.
    pub fn get_attribute(&self, key: &str) -> (r: Option<&str>)
        ensures
            match r {
                Some(v) => spec_get_attribute(self@.attributes, key@) == Some(v@),
                None => spec_get_attribute(self@.attributes, key@) is None,
            },
    {
        let n = self.attributes.len();
        let mut idx: usize = 0;
        proof {
            assert(attribute_views(self.attributes@).subrange(0, n as int) =~= attribute_views(
                self.attributes@,
            ));
        }
        while idx < n
            invariant
                n == self.attributes@.len(),
                idx <= n,
                spec_get_attribute(attribute_views(self.attributes@), key@)
                    == spec_get_attribute(
                    attribute_views(self.attributes@).subrange(idx as int, n as int),
                    key@,
                ),
            decreases n - idx,
        {
            let ghost avs = attribute_views(self.attributes@);
            let a = &self.attributes[idx];
            proof {
                assert(avs.subrange(idx as int, n as int)[0] == a@);
                assert(avs.subrange(idx as int, n as int).drop_first() =~= avs.subrange(
                    idx + 1,
                    n as int,
                ));
            }
            if str_eq(a.get_key(), key) {
                return Some(a.get_value());
            }
            idx += 1;
        }
        proof {
            assert(attribute_views(self.attributes@).subrange(n as int, n as int) =~= Seq::<
                XmlAttributeView,
            >::empty());
        }
        None
    }
}

/// Mathematical model of one stream event.
#[verifier::ext_equal]
pub enum XmlEventView {
    StartTag(XmlTagView),
    EmptyTag(XmlTagView),
    EndTag(Seq<char>),
    Text(Seq<char>),
    NumberText(int),
    Eof,
}

/// One event of the typed element stream.  Text that the tokenizing layer
/// recognized as an integer coordinate arrives pre-parsed as `NumberText`.
#[derive(Clone, Debug)]
pub enum XmlEvent {
    StartTag(XmlTag),
    EmptyTag(XmlTag),
    EndTag(String),
    Text(String),
    NumberText(u64),
    Eof,
}

impl View for XmlEvent {
    type V = XmlEventView;

    open spec fn view(&self) -> XmlEventView {
        match self {
            XmlEvent::StartTag(t) => XmlEventView::StartTag(t@),
            XmlEvent::EmptyTag(t) => XmlEventView::EmptyTag(t@),
            XmlEvent::EndTag(n) => XmlEventView::EndTag(n@),
            XmlEvent::Text(s) => XmlEventView::Text(s@),
            XmlEvent::NumberText(n) => XmlEventView::NumberText(*n as int),
            XmlEvent::Eof => XmlEventView::Eof,
        }
    }
}

pub open spec fn event_views(s: Seq<XmlEvent>) -> Seq<XmlEventView> {
    s.map_values(|e: XmlEvent| e@)
}

} // verus!

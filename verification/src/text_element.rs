//! One run of rich text: the text itself and the optional font that styles
//! it.  Its hash code digests the text followed by the font's digest, with
//! "None" standing for an absent font.

use vstd::prelude::*;
use vstd::string::StrSliceExecFns;
use vstd::string::StringExecFns;
use crate::chart_parts::{spec_bool_of_text, spec_bool_text};
use crate::hashing::{md5_hex, md5_hex_of};
use crate::strutil::str_eq;
use crate::style_parts::{font_hash_input, Font, FontView};
use crate::xml::{event_views, spec_get_attribute, XmlAttributeView, XmlEvent, XmlEventView,
    XmlTag, XmlTagView};

verus! {

/// Mathematical model of a text run.
pub struct TextElementView {
    pub text: Seq<char>,
    pub run_properties: Option<FontView>,
}

/// The canonical string a text run's hash code digests.
pub open spec fn text_element_hash_input(v: TextElementView) -> Seq<char> {
    v.text + (match v.run_properties {
        Some(f) => md5_hex_of(font_hash_input(f)),
        None => "None"@,
    })
}


/// The font read from one `rPr` tag: its name defaults to the empty string
/// and its weight to regular.
pub open spec fn spec_font_of_tag(t: XmlTagView) -> FontView {
    FontView {
        name: match spec_get_attribute(t.attributes, "name"@) {
            Some(v) => v,
            None => Seq::<char>::empty(),
        },
        bold: match spec_get_attribute(t.attributes, "b"@) {
            Some(v) => spec_bool_of_text(v),
            None => false,
        },
    }
}

/// The small-step meaning of parsing one text run from the typed stream:
/// each text node replaces the text, an empty `rPr` child sets the font,
/// and the matching end tag closes the element.  Running out of events
/// stops the parse.
pub open spec fn spec_parse_text_element(
    v: TextElementView,
    evs: Seq<XmlEventView>,
    pos: int,
) -> (bool, TextElementView, int)
    decreases evs.len() - pos,
{
    if pos < 0 || pos >= evs.len() {
        (false, v, pos)
    } else {
        match evs[pos] {
            XmlEventView::Text(t) => spec_parse_text_element(
                TextElementView { text: t, ..v },
                evs,
                pos + 1,
            ),
            XmlEventView::EmptyTag(t) => {
                if t.name == "rPr"@ {
                    spec_parse_text_element(
                        TextElementView { run_properties: Some(spec_font_of_tag(t)), ..v },
                        evs,
                        pos + 1,
                    )
                } else {
                    spec_parse_text_element(v, evs, pos + 1)
                }
            },
            XmlEventView::EndTag(n) => {
                if n == "r"@ {
                    (true, v, pos + 1)
                } else {
                    spec_parse_text_element(v, evs, pos + 1)
                }
            },
            XmlEventView::StartTag(t) => spec_parse_text_element(v, evs, pos + 1),
            XmlEventView::NumberText(n) => spec_parse_text_element(v, evs, pos + 1),
            XmlEventView::Eof => (false, v, pos),
        }
    }
}

/// The canonical element-stream encoding of one text run: the optional font
/// and the text, wrapped in the run element.
pub open spec fn spec_text_element_events(v: TextElementView) -> Seq<XmlEventView> {
    seq![XmlEventView::StartTag(XmlTagView { name: "r"@, attributes: Seq::empty() })] + (
    match v.run_properties {
        Some(f) => seq![
            XmlEventView::EmptyTag(
                XmlTagView {
                    name: "rPr"@,
                    attributes: seq![
                        XmlAttributeView { key: "name"@, value: f.name },
                        XmlAttributeView { key: "b"@, value: spec_bool_text(f.bold) },
                    ],
                },
            ),
        ],
        None => Seq::<XmlEventView>::empty(),
    }) + seq![
        XmlEventView::StartTag(XmlTagView { name: "t"@, attributes: Seq::empty() }),
        XmlEventView::Text(v.text),
        XmlEventView::EndTag("t"@),
        XmlEventView::EndTag("r"@),
    ]
}

/// One run of rich text.
#[derive(Clone, Debug)]
pub struct TextElement {
    text: String,
    run_properties: Option<Box<Font>>,
}

impl View for TextElement {
    type V = TextElementView;

    closed spec fn view(&self) -> TextElementView {
        TextElementView {
            text: self.text@,
            run_properties: match &self.run_properties {
                Some(f) => Some(f@),
                None => None,
            },
        }
    }
}

impl Default for TextElement {
    fn default() -> (r: Self)
        ensures
            r@.text == Seq::<char>::empty(),
            r@.run_properties is None,
    {
        TextElement { text: String::new(), run_properties: None }
    }
}

impl TextElement {
    pub fn get_text(&self) -> (r: &str)
        ensures
            r@ == self@.text,
    {
        self.text.as_str()
    }

    pub fn set_text(&mut self, value: String)
        ensures
            final(self)@ == (TextElementView { text: value@, ..old(self)@ }),
    {
        self.text = value;
    }

    pub fn get_run_properties(&self) -> (r: Option<&Font>)
        ensures
            match r {
                Some(f) => self@.run_properties == Some(f@),
                None => self@.run_properties is None,
            },
    {
        match &self.run_properties {
            Some(f) => Some(&**f),
            None => None,
        }
    }

    /// The run font, created as the default font first if the run had none.
    pub fn get_run_properties_mut(&mut self) -> (r: &mut Font)
        ensures
            r@ == (match old(self)@.run_properties {
                Some(f) => f,
                None => FontView { name: Seq::<char>::empty(), bold: false },
            }),
            final(self)@ == (TextElementView {
                run_properties: Some(final(r)@),
                ..old(self)@
            }),
    {
        if self.run_properties.is_none() {
            self.run_properties = Some(Box::new(Font::default()));
        }
        match &mut self.run_properties {
            Some(f) => &mut **f,
            None => vstd::pervasive::unreached(),
        }
    }


    pub(crate) fn get_run_properties_crate(&mut self) -> (r: Option<&mut Font>)
        ensures
            match r {
                Some(f) => old(self)@.run_properties == Some(f@) && final(self)@ == (
                TextElementView { run_properties: Some(final(f)@), ..old(self)@ }),
                None => old(self)@.run_properties is None && final(self)@ == old(self)@,
            },
    {
        match &mut self.run_properties {
            Some(f) => Some(&mut **f),
            None => None,
        }
    }

    pub fn set_run_properties(&mut self, value: Font)
        ensures
            final(self)@ == (TextElementView { run_properties: Some(value@), ..old(self)@ }),
    {
        self.run_properties = Some(Box::new(value));
    }

    pub fn get_font(&self) -> (r: Option<&Font>)
        ensures
            match r {
                Some(f) => self@.run_properties == Some(f@),
                None => self@.run_properties is None,
            },
    {
        self.get_run_properties()
    }

    /// The run font, created as the default font first if the run had none.
    pub fn get_font_mut(&mut self) -> (r: &mut Font)
        ensures
            r@ == (match old(self)@.run_properties {
                Some(f) => f,
                None => FontView { name: Seq::<char>::empty(), bold: false },
            }),
            final(self)@ == (TextElementView {
                run_properties: Some(final(r)@),
                ..old(self)@
            }),
    {
        self.get_run_properties_mut()
    }

    pub fn set_font(&mut self, value: Font)
        ensures
            final(self)@ == (TextElementView { run_properties: Some(value@), ..old(self)@ }),
    {
        self.set_run_properties(value);
    }

    /// The digest of this text run's canonical string.
    pub fn get_hash_code(&self) -> (r: String)
        ensures
            r@ == md5_hex_of(text_element_hash_input(self@)),
    {
        let mut s = String::from_str(self.text.as_str());
        match &self.run_properties {
            Some(f) => {
                let h = f.get_hash_code();
                s.append(h.as_str());
            },
            None => {
                s.append("None");
            },
        }
        md5_hex(s.as_str())
    }

    /// Read this run from the typed element stream, starting at `*pos` just
    /// inside its element, up to and including the end tag that closes it.
    /// Returns whether the element closed properly; on failure `*pos` stays
    /// at the offending event.
    pub fn set_attributes(&mut self, events: &Vec<XmlEvent>, pos: &mut usize) -> (r: bool)
        requires
            *old(pos) <= events@.len(),
        ensures
            (r, final(self)@, *final(pos) as int) == spec_parse_text_element(
                old(self)@,
                event_views(events@),
                *old(pos) as int,
            ),
            *final(pos) <= events@.len(),
    {
        let ghost evs = event_views(events@);
        let ghost goal = spec_parse_text_element(old(self)@, evs, *old(pos) as int);
        loop
            invariant
                evs == event_views(events@),
                evs.len() == events@.len(),
                *pos <= events@.len(),
                goal == spec_parse_text_element(old(self)@, evs, *old(pos) as int),
                goal == spec_parse_text_element(self@, evs, *pos as int),
            decreases events@.len() - *pos,
        {
            let i = *pos;
            if i >= events.len() {
                return false;
            }
            proof {
                assert(evs[i as int] == events@[i as int]@);
            }
            match &events[i] {
                XmlEvent::Text(t) => {
                    self.text = t.clone();
                    *pos = i + 1;
                },
                XmlEvent::EmptyTag(t) => {
                    if str_eq(t.get_name(), "rPr") {
                        let ghost prev = self@;
                        let mut font = Font::default();
                        match t.get_attribute("name") {
                            Some(v) => font.set_name(String::from_str(v)),
                            None => font.set_name(String::new()),
                        }
                        match t.get_attribute("b") {
                            Some(v) => font.set_bold(str_eq(v, "1") || str_eq(v, "true")),
                            None => font.set_bold(false),
                        }
                        proof {
                            assert(font@ == spec_font_of_tag(t@));
                        }
                        self.run_properties = Some(Box::new(font));
                        *pos = i + 1;
                    } else {
                        *pos = i + 1;
                    }
                },
                XmlEvent::EndTag(name) => {
                    if str_eq(name.as_str(), "r") {
                        *pos = i + 1;
                        return true;
                    } else {
                        *pos = i + 1;
                    }
                },
                XmlEvent::StartTag(_) => {
                    *pos = i + 1;
                },
                XmlEvent::NumberText(_) => {
                    *pos = i + 1;
                },
                XmlEvent::Eof => {
                    return false;
                },
            }
        }
    }

    /// Append the canonical element-stream encoding of this run to `events`.
    #[verifier::rlimit(50)]
    pub fn write_to(&self, events: &mut Vec<XmlEvent>)
        ensures
            event_views(final(events)@) == event_views(old(events)@) + spec_text_element_events(
                self@,
            ),
    {
        events.push(XmlEvent::StartTag(XmlTag::new(String::from_str("r"))));
        match &self.run_properties {
            Some(f) => {
                let mut tag = XmlTag::new(String::from_str("rPr"));
                tag.add_attribute(String::from_str("name"), String::from_str(f.get_name()));
                if f.get_bold() {
                    tag.add_attribute(String::from_str("b"), String::from_str("1"));
                } else {
                    tag.add_attribute(String::from_str("b"), String::from_str("0"));
                }
                proof {
                    assert(tag@.attributes =~= seq![
                        XmlAttributeView { key: "name"@, value: f@.name },
                        XmlAttributeView { key: "b"@, value: spec_bool_text(f@.bold) },
                    ]);
                }
                events.push(XmlEvent::EmptyTag(tag));
            },
            None => {},
        }
        events.push(XmlEvent::StartTag(XmlTag::new(String::from_str("t"))));
        events.push(XmlEvent::Text(self.text.clone()));
        events.push(XmlEvent::EndTag(String::from_str("t")));
        events.push(XmlEvent::EndTag(String::from_str("r")));
        proof {
            assert(event_views(events@) =~~= event_views(old(events)@)
                + spec_text_element_events(self@));
        }
    }
}

} // verus!

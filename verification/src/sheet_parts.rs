//! Small per-sheet settings: the page footer, the legacy resize flag, the
//! manual column breaks, and the data-validation rules.

use vstd::prelude::*;
use vstd::string::StringExecFns;
use crate::chart_parts::{spec_bool_of_text, spec_bool_text};
use crate::hashing::{md5_hex, md5_hex_of};
use crate::strutil::{parse_u64, spec_decimal, spec_digits_value, spec_is_digits, str_eq,
    u64_to_string};
use crate::xml::{event_views, spec_get_attribute, XmlAttributeView, XmlEvent, XmlEventView,
    XmlTag, XmlTagView};

verus! {

/// The footer printed on odd pages.  An empty record (never set) is distinct
/// from one set to the empty string.
#[derive(Clone, Debug)]
pub struct OddFooter {
    value: Option<String>,
}

impl View for OddFooter {
    type V = Option<Seq<char>>;

    closed spec fn view(&self) -> Option<Seq<char>> {
        match &self.value {
            Some(s) => Some(s@),
            None => None,
        }
    }
}

impl Default for OddFooter {
    fn default() -> (r: Self)
        ensures
            r@ is None,
    {
        OddFooter { value: None }
    }
}

impl OddFooter {
    /// The footer text, or the empty string when none was ever set.
    pub fn get_value(&self) -> (r: &str)
        ensures
            r@ == (match self@ {
                Some(s) => s,
                None => Seq::<char>::empty(),
            }),
    {
        match &self.value {
            Some(s) => s.as_str(),
            None => {
                let r = "";
                proof {
                    reveal_strlit("");
                    assert(r@ =~= Seq::<char>::empty());
                }
                r
            },
        }
    }

    pub fn set_value(&mut self, value: String)
        ensures
            final(self)@ == Some(value@),
    {
        self.value = Some(value);
    }

    /// Whether a footer was ever set.
    pub fn has_param(&self) -> (r: bool)
        ensures
            r == (self@ is Some),
    {
        self.value.is_some()
    }

    /// The digest of the footer text.
    pub fn _get_hash_code(&self) -> (r: String)
        ensures
            r@ == md5_hex_of(
                match self@ {
                    Some(s) => s,
                    None => Seq::<char>::empty(),
                },
            ),
    {
        md5_hex(self.get_value())
    }
}

/// The legacy flag that lets a comment shape resize with its cells.  Blank,
/// true and false are three distinct states.
#[derive(Clone, Debug)]
pub struct ResizeWithCells {
    value: Option<bool>,
}

impl View for ResizeWithCells {
    type V = Option<bool>;

    closed spec fn view(&self) -> Option<bool> {
        self.value
    }
}

impl Default for ResizeWithCells {
    fn default() -> (r: Self)
        ensures
            r@ is None,
    {
        ResizeWithCells { value: None }
    }
}

impl ResizeWithCells {
    pub fn get_value(&self) -> (r: Option<&bool>)
        ensures
            match r {
                Some(b) => self@ == Some(*b),
                None => self@ is None,
            },
    {
        self.value.as_ref()
    }

    pub fn set_value(&mut self, value: bool)
        ensures
            final(self)@ == Some(value),
    {
        self.value = Some(value);
    }

    /// Read the flag from the typed element stream, starting at `*pos`,
    /// up to and including the end tag that closes the element; an empty
    /// element (`empty_flag`) consumes nothing and leaves the flag blank.
    /// Returns whether the element closed properly.
    pub fn set_attributes(
        &mut self,
        events: &Vec<XmlEvent>,
        pos: &mut usize,
        empty_flag: bool,
    ) -> (r: bool)
        requires
            *old(pos) <= events@.len(),
        ensures
            empty_flag ==> r && final(self)@ == old(self)@ && *final(pos) == *old(pos),
            !empty_flag ==> (r, final(self)@, *final(pos) as int) == spec_parse_resize_flag(
                old(self)@,
                event_views(events@),
                *old(pos) as int,
            ),
            *final(pos) <= events@.len(),
    {
        if empty_flag {
            return true;
        }
        let ghost evs = event_views(events@);
        let ghost goal = spec_parse_resize_flag(old(self)@, evs, *old(pos) as int);
        loop
            invariant
                !empty_flag,
                evs == event_views(events@),
                evs.len() == events@.len(),
                *pos <= events@.len(),
                goal == spec_parse_resize_flag(old(self)@, evs, *old(pos) as int),
                goal == spec_parse_resize_flag(self@, evs, *pos as int),
            decreases events@.len() - *pos,
        {
            let i = *pos;
            if i >= events.len() {
                return false;
            }
            proof {
                assert(evs[i as int] == events@[i as int]@);
            }
            match &events[i] {
                XmlEvent::Text(t) => {
                    let flag = str_eq(t.as_str(), "t") || str_eq(t.as_str(), "1") || str_eq(
                        t.as_str(),
                        "true",
                    );
                    self.value = Some(flag);
                    *pos = i + 1;
                },
                XmlEvent::EndTag(name) => {
                    if str_eq(name.as_str(), "x:SizeWithCells") {
                        *pos = i + 1;
                        return true;
                    } else {
                        *pos = i + 1;
                    }
                },
                XmlEvent::StartTag(_) => {
                    *pos = i + 1;
                },
                XmlEvent::EmptyTag(_) => {
                    *pos = i + 1;
                },
                XmlEvent::NumberText(_) => {
                    *pos = i + 1;
                },
                XmlEvent::Eof => {
                    return false;
                },
            }
        }
    }

    /// Append the canonical element-stream encoding of the flag to
    /// `events`; a blank flag writes one empty element.
    pub fn write_to(&self, events: &mut Vec<XmlEvent>)
        ensures
            event_views(final(events)@) == event_views(old(events)@) + spec_resize_flag_events(
                self@,
            ),
    {
        match &self.value {
            Some(b) => {
                events.push(XmlEvent::StartTag(XmlTag::new(String::from_str("x:SizeWithCells"))));
                if *b {
                    events.push(XmlEvent::Text(String::from_str("t")));
                } else {
                    events.push(XmlEvent::Text(String::from_str("f")));
                }
                events.push(XmlEvent::EndTag(String::from_str("x:SizeWithCells")));
            },
            None => {
                events.push(XmlEvent::EmptyTag(XmlTag::new(String::from_str("x:SizeWithCells"))));
            },
        }
        proof {
            assert(event_views(events@) =~~= event_views(old(events)@) + spec_resize_flag_events(
                self@,
            ));
        }
    }
}


/// How a serialized three-state flag reads: the words "t", "1" and "true"
/// mean true, everything else means false.
pub open spec fn spec_flag_of_text(v: Seq<char>) -> bool {
    v == "t"@ || v == "1"@ || v == "true"@
}

/// The small-step meaning of parsing the resize flag from the typed stream:
/// each text node replaces the flag, and the matching end tag closes the
/// element.  Running out of events stops the parse.
pub open spec fn spec_parse_resize_flag(
    v: Option<bool>,
    evs: Seq<XmlEventView>,
    pos: int,
) -> (bool, Option<bool>, int)
    decreases evs.len() - pos,
{
    if pos < 0 || pos >= evs.len() {
        (false, v, pos)
    } else {
        match evs[pos] {
            XmlEventView::Text(t) => spec_parse_resize_flag(
                Some(spec_flag_of_text(t)),
                evs,
                pos + 1,
            ),
            XmlEventView::EndTag(n) => {
                if n == "x:SizeWithCells"@ {
                    (true, v, pos + 1)
                } else {
                    spec_parse_resize_flag(v, evs, pos + 1)
                }
            },
            XmlEventView::StartTag(t) => spec_parse_resize_flag(v, evs, pos + 1),
            XmlEventView::EmptyTag(t) => spec_parse_resize_flag(v, evs, pos + 1),
            XmlEventView::NumberText(n) => spec_parse_resize_flag(v, evs, pos + 1),
            XmlEventView::Eof => (false, v, pos),
        }
    }
}

/// The canonical element-stream encoding of the resize flag: one empty tag
/// when blank, else the word wrapped in its element.
pub open spec fn spec_resize_flag_events(v: Option<bool>) -> Seq<XmlEventView> {
    match v {
        Some(b) => seq![
            XmlEventView::StartTag(
                XmlTagView { name: "x:SizeWithCells"@, attributes: Seq::empty() },
            ),
            XmlEventView::Text(
                if b {
                    "t"@
                } else {
                    "f"@
                },
            ),
            XmlEventView::EndTag("x:SizeWithCells"@),
        ],
        None => seq![
            XmlEventView::EmptyTag(
                XmlTagView { name: "x:SizeWithCells"@, attributes: Seq::empty() },
            ),
        ],
    }
}

/// Mathematical model of one page break.
pub struct BreakView {
    pub id: int,
    pub max: int,
    pub manual_page_break: bool,
}

/// One page break at a row or column index.
#[derive(Clone, Debug)]
pub struct Break {
    id: u32,
    max: u32,
    manual_page_break: bool,
}

impl View for Break {
    type V = BreakView;

    closed spec fn view(&self) -> BreakView {
        BreakView {
            id: self.id as int,
            max: self.max as int,
            manual_page_break: self.manual_page_break,
        }
    }
}

impl Default for Break {
    fn default() -> (r: Self)
        ensures
            r@ == (BreakView { id: 0, max: 0, manual_page_break: false }),
    {
        Break { id: 0, max: 0, manual_page_break: false }
    }
}

impl Break {
    pub fn get_id(&self) -> (r: &u32)
        ensures
            *r as int == self@.id,
    {
        &self.id
    }

    pub fn set_id(&mut self, value: u32)
        ensures
            final(self)@ == (BreakView { id: value as int, ..old(self)@ }),
    {
        self.id = value;
    }

    pub fn get_max(&self) -> (r: &u32)
        ensures
            *r as int == self@.max,
    {
        &self.max
    }

    pub fn set_max(&mut self, value: u32)
        ensures
            final(self)@ == (BreakView { max: value as int, ..old(self)@ }),
    {
        self.max = value;
    }

    pub fn get_manual_page_break(&self) -> (r: &bool)
        ensures
            *r == self@.manual_page_break,
    {
        &self.manual_page_break
    }

    pub fn set_manual_page_break(&mut self, value: bool)
        ensures
            final(self)@ == (BreakView { manual_page_break: value, ..old(self)@ }),
    {
        self.manual_page_break = value;
    }
}

pub open spec fn break_views(s: Seq<Break>) -> Seq<BreakView> {
    s.map_values(|b: Break| b@)
}

/// The number of manual breaks among the first `n` entries.
pub open spec fn manual_break_count(s: Seq<BreakView>, n: int) -> int
    decreases n,
{
    if n <= 0 {
        0
    } else {
        manual_break_count(s, n - 1) + (if s[n - 1].manual_page_break {
            1int
        } else {
            0int
        })
    }
}


/// The break read from one `brk` tag: the index is required and numeric,
/// the extent defaults to 0, and the manual flag defaults to false.
pub open spec fn spec_break_of_tag(t: XmlTagView) -> Option<BreakView> {
    let id_val = match spec_get_attribute(t.attributes, "id"@) {
        Some(v) => if spec_is_digits(v) && v.len() > 0 && spec_digits_value(v) <= u32::MAX {
            Some(spec_digits_value(v))
        } else {
            None
        },
        None => None,
    };
    let max_val = match spec_get_attribute(t.attributes, "max"@) {
        Some(v) => if spec_is_digits(v) && v.len() > 0 && spec_digits_value(v) <= u32::MAX {
            Some(spec_digits_value(v))
        } else {
            None
        },
        None => Some(0),
    };
    let man_val = match spec_get_attribute(t.attributes, "man"@) {
        Some(v) => spec_bool_of_text(v),
        None => false,
    };
    match (id_val, max_val) {
        (Some(id), Some(max)) => Some(BreakView { id: id, max: max, manual_page_break: man_val }),
        _ => None,
    }
}

/// The small-step meaning of parsing one column-breaks element from the
/// typed stream: each `brk` child appends one break, and the matching end
/// tag closes the element.  A malformed break, or the end of the stream,
/// stops the parse.
pub open spec fn spec_parse_column_breaks(
    s: Seq<BreakView>,
    evs: Seq<XmlEventView>,
    pos: int,
) -> (bool, Seq<BreakView>, int)
    decreases evs.len() - pos,
{
    if pos < 0 || pos >= evs.len() {
        (false, s, pos)
    } else {
        match evs[pos] {
            XmlEventView::EmptyTag(t) => {
                if t.name == "brk"@ {
                    match spec_break_of_tag(t) {
                        Some(b) => spec_parse_column_breaks(s.push(b), evs, pos + 1),
                        None => (false, s, pos),
                    }
                } else {
                    spec_parse_column_breaks(s, evs, pos + 1)
                }
            },
            XmlEventView::EndTag(n) => {
                if n == "colBreaks"@ {
                    (true, s, pos + 1)
                } else {
                    spec_parse_column_breaks(s, evs, pos + 1)
                }
            },
            XmlEventView::StartTag(t) => spec_parse_column_breaks(s, evs, pos + 1),
            XmlEventView::Text(t) => spec_parse_column_breaks(s, evs, pos + 1),
            XmlEventView::NumberText(n) => spec_parse_column_breaks(s, evs, pos + 1),
            XmlEventView::Eof => (false, s, pos),
        }
    }
}

/// The canonical `brk` encoding of one break.
pub open spec fn spec_break_event(b: BreakView) -> XmlEventView {
    XmlEventView::EmptyTag(
        XmlTagView {
            name: "brk"@,
            attributes: seq![
                XmlAttributeView { key: "id"@, value: spec_decimal(b.id) },
                XmlAttributeView { key: "max"@, value: spec_decimal(b.max) },
                XmlAttributeView { key: "man"@, value: spec_bool_text(b.manual_page_break) },
            ],
        },
    )
}

/// The concatenated `brk` encodings of a sequence of breaks.
pub open spec fn spec_break_list_events(s: Seq<BreakView>) -> Seq<XmlEventView>
    decreases s.len(),
{
    if s.len() == 0 {
        Seq::empty()
    } else {
        spec_break_list_events(s.drop_last()).push(spec_break_event(s.last()))
    }
}

/// The canonical element-stream encoding of the column breaks: nothing when
/// there is none, else the breaks wrapped in their element, whose attributes
/// carry the total count and the manual count.
pub open spec fn spec_column_breaks_events(s: Seq<BreakView>) -> Seq<XmlEventView> {
    if s.len() == 0 {
        Seq::empty()
    } else {
        seq![
            XmlEventView::StartTag(
                XmlTagView {
                    name: "colBreaks"@,
                    attributes: seq![
                        XmlAttributeView { key: "count"@, value: spec_decimal(s.len() as int) },
                        XmlAttributeView {
                            key: "manualBreakCount"@,
                            value: spec_decimal(manual_break_count(s, s.len() as int)),
                        },
                    ],
                },
            ),
        ] + spec_break_list_events(s) + seq![XmlEventView::EndTag("colBreaks"@)]
    }
}

/// The manual column breaks of one sheet, in insertion order.
#[derive(Clone, Debug)]
pub struct ColumnBreaks {
    break_list: Vec<Break>,
}

impl View for ColumnBreaks {
    type V = Seq<BreakView>;

    closed spec fn view(&self) -> Seq<BreakView> {
        break_views(self.break_list@)
    }
}

impl Default for ColumnBreaks {
    fn default() -> (r: Self)
        ensures
            r@.len() == 0,
    {
        ColumnBreaks { break_list: Vec::new() }
    }
}

impl ColumnBreaks {
    pub fn get_break_list(&self) -> (r: &Vec<Break>)
        ensures
            break_views(r@) == self@,
    {
        &self.break_list
    }

    pub fn add_break_list(&mut self, value: Break)
        ensures
            final(self)@ == old(self)@.push(value@),
    {
        self.break_list.push(value);
        proof {
            assert(break_views(self.break_list@) =~= break_views(
                old(self).break_list@,
            ).push(value@));
        }
    }

    /// Whether the sheet has any column break.
    pub fn has_param(&self) -> (r: bool)
        ensures
            r == (self@.len() > 0),
    {
        self.break_list.len() > 0
    }


    /// Read the column breaks from the typed element stream, starting at
    /// `*pos` just inside the element, up to and including the end tag that
    /// closes it.  Returns whether the element closed properly; on failure
    /// `*pos` stays at the offending event.
    pub fn set_attributes(&mut self, events: &Vec<XmlEvent>, pos: &mut usize) -> (r: bool)
        requires
            *old(pos) <= events@.len(),
        ensures
            (r, final(self)@, *final(pos) as int) == spec_parse_column_breaks(
                old(self)@,
                event_views(events@),
                *old(pos) as int,
            ),
            *final(pos) <= events@.len(),
    {
        let ghost evs = event_views(events@);
        let ghost goal = spec_parse_column_breaks(old(self)@, evs, *old(pos) as int);
        loop
            invariant
                evs == event_views(events@),
                evs.len() == events@.len(),
                *pos <= events@.len(),
                goal == spec_parse_column_breaks(old(self)@, evs, *old(pos) as int),
                goal == spec_parse_column_breaks(self@, evs, *pos as int),
            decreases events@.len() - *pos,
        {
            let i = *pos;
            if i >= events.len() {
                return false;
            }
            proof {
                assert(evs[i as int] == events@[i as int]@);
            }
            match &events[i] {
                XmlEvent::EmptyTag(t) => {
                    if str_eq(t.get_name(), "brk") {
                        let ghost prev = self@;
                        let id_val = match t.get_attribute("id") {
                            Some(v) => parse_u64(v),
                            None => None,
                        };
                        let max_val = match t.get_attribute("max") {
                            Some(v) => parse_u64(v),
                            None => Some(0),
                        };
                        let man_val = match t.get_attribute("man") {
                            Some(v) => str_eq(v, "1") || str_eq(v, "true"),
                            None => false,
                        };
                        match (id_val, max_val) {
                            (Some(id), Some(max)) => {
                                if id > u32::MAX as u64 || max > u32::MAX as u64 {
                                    return false;
                                }
                                let mut brk = Break::default();
                                brk.set_id(id as u32);
                                brk.set_max(max as u32);
                                brk.set_manual_page_break(man_val);
                                let ghost bv = brk@;
                                self.add_break_list(brk);
                                proof {
                                    assert(spec_break_of_tag(t@) == Some(bv));
                                    assert(self@ == prev.push(bv));
                                }
                                *pos = i + 1;
                            },
                            _ => {
                                return false;
                            },
                        }
                    } else {
                        *pos = i + 1;
                    }
                },
                XmlEvent::EndTag(name) => {
                    if str_eq(name.as_str(), "colBreaks") {
                        *pos = i + 1;
                        return true;
                    } else {
                        *pos = i + 1;
                    }
                },
                XmlEvent::StartTag(_) => {
                    *pos = i + 1;
                },
                XmlEvent::Text(_) => {
                    *pos = i + 1;
                },
                XmlEvent::NumberText(_) => {
                    *pos = i + 1;
                },
                XmlEvent::Eof => {
                    return false;
                },
            }
        }
    }

    /// Append the canonical element-stream encoding of the column breaks to
    /// `events`; an empty list writes nothing.  The element's attributes
    /// carry the total count and the manual count.
    #[verifier::rlimit(50)]
    pub fn write_to(&self, events: &mut Vec<XmlEvent>)
        ensures
            event_views(final(events)@) == event_views(old(events)@)
                + spec_column_breaks_events(self@),
    {
        let n = self.break_list.len();
        if n == 0 {
            proof {
                assert(event_views(events@) =~= event_views(old(events)@)
                    + spec_column_breaks_events(self@));
            }
            return ;
        }
        let counts = self.count_breaks();
        let mut root = XmlTag::new(String::from_str("colBreaks"));
        root.add_attribute(String::from_str("count"), u64_to_string(counts.0 as u64));
        root.add_attribute(
            String::from_str("manualBreakCount"),
            u64_to_string(counts.1 as u64),
        );
        proof {
            assert(root@.attributes =~= seq![
                XmlAttributeView { key: "count"@, value: spec_decimal(self@.len() as int) },
                XmlAttributeView {
                    key: "manualBreakCount"@,
                    value: spec_decimal(manual_break_count(self@, self@.len() as int)),
                },
            ]);
        }
        events.push(XmlEvent::StartTag(root));
        let ghost after_root = event_views(events@);
        proof {
            assert(after_root =~~= event_views(old(events)@).push(
                XmlEventView::StartTag(
                    XmlTagView {
                        name: "colBreaks"@,
                        attributes: seq![
                            XmlAttributeView {
                                key: "count"@,
                                value: spec_decimal(self@.len() as int),
                            },
                            XmlAttributeView {
                                key: "manualBreakCount"@,
                                value: spec_decimal(manual_break_count(self@, self@.len() as int)),
                            },
                        ],
                    },
                ),
            ));
        }
        let mut idx: usize = 0;
        proof {
            assert(self@.subrange(0, 0) =~= Seq::<BreakView>::empty());
            assert(event_views(events@) =~= after_root + spec_break_list_events(
                self@.subrange(0, 0),
            ));
        }
        while idx < n
            invariant
                n == self.break_list@.len(),
                n == self@.len(),
                idx <= n,
                forall|j: int| 0 <= j < n ==> self@[j] == (#[trigger] self.break_list@[j])@,
                event_views(events@) == after_root + spec_break_list_events(
                    self@.subrange(0, idx as int),
                ),
            decreases n - idx,
        {
            let brk = &self.break_list[idx];
            let mut tag = XmlTag::new(String::from_str("brk"));
            tag.add_attribute(String::from_str("id"), u64_to_string(*brk.get_id() as u64));
            tag.add_attribute(String::from_str("max"), u64_to_string(*brk.get_max() as u64));
            if *brk.get_manual_page_break() {
                tag.add_attribute(String::from_str("man"), String::from_str("1"));
            } else {
                tag.add_attribute(String::from_str("man"), String::from_str("0"));
            }
            proof {
                assert(tag@.name == "brk"@);
                assert(tag@.attributes =~~= seq![
                    XmlAttributeView { key: "id"@, value: spec_decimal(brk@.id) },
                    XmlAttributeView { key: "max"@, value: spec_decimal(brk@.max) },
                    XmlAttributeView {
                        key: "man"@,
                        value: spec_bool_text(brk@.manual_page_break),
                    },
                ]);
            }
            proof {
                assert(XmlEventView::EmptyTag(tag@) =~~= spec_break_event(brk@));
            }
            let ghost before_push = event_views(events@);
            events.push(XmlEvent::EmptyTag(tag));
            proof {
                assert(event_views(events@) =~= before_push.push(XmlEventView::EmptyTag(tag@)));
                assert(self@.subrange(0, idx + 1).drop_last() =~= self@.subrange(0, idx as int));
                assert(self@.subrange(0, idx + 1).last() == brk@);
                assert(spec_break_list_events(self@.subrange(0, idx + 1))
                    == spec_break_list_events(self@.subrange(0, idx as int)).push(
                    spec_break_event(brk@),
                ));
                assert(event_views(events@) =~~= after_root + spec_break_list_events(
                    self@.subrange(0, idx + 1),
                ));
            }
            idx += 1;
        }
        proof {
            assert(self@.subrange(0, n as int) =~= self@);
        }
        let ghost before_end = event_views(events@);
        events.push(XmlEvent::EndTag(String::from_str("colBreaks")));
        proof {
            assert(event_views(events@) =~= before_end.push(XmlEventView::EndTag("colBreaks"@)));
            assert(event_views(events@) =~~= after_root + spec_break_list_events(self@).push(
                XmlEventView::EndTag("colBreaks"@),
            ));
            assert(event_views(events@) =~~= event_views(old(events)@)
                + spec_column_breaks_events(self@));
        }
    }

    /// Count the breaks: the total and how many are manual, the two numbers
    /// the serialized element carries.
    pub fn count_breaks(&self) -> (r: (usize, usize))
        ensures
            r.0 == self@.len(),
            r.1 == manual_break_count(self@, self@.len() as int),
    {
        let n = self.break_list.len();
        let mut manual: usize = 0;
        let mut idx: usize = 0;
        while idx < n
            invariant
                n == self.break_list@.len(),
                n == self@.len(),
                idx <= n,
                manual <= idx,
                manual == manual_break_count(self@, idx as int),
            decreases n - idx,
        {
            proof {
                assert(self@[idx as int] == self.break_list@[idx as int]@);
            }
            if *self.break_list[idx].get_manual_page_break() {
                manual = manual + 1;
            }
            idx += 1;
        }
        (n, manual)
    }
}

/// Mathematical model of one data-validation rule.
pub struct DataValidationView {
    pub validation_type: Seq<char>,
    pub formula1: Seq<char>,
    pub sequence_of_references: Seq<char>,
}

/// One data-validation rule: its type, its first formula, and the cell
/// references it applies to.
#[derive(Clone, Debug)]
pub struct DataValidation {
    validation_type: String,
    formula1: String,
    sequence_of_references: String,
}

impl View for DataValidation {
    type V = DataValidationView;

    closed spec fn view(&self) -> DataValidationView {
        DataValidationView {
            validation_type: self.validation_type@,
            formula1: self.formula1@,
            sequence_of_references: self.sequence_of_references@,
        }
    }
}

impl Default for DataValidation {
    fn default() -> (r: Self)
        ensures
            r@.validation_type == Seq::<char>::empty(),
            r@.formula1 == Seq::<char>::empty(),
            r@.sequence_of_references == Seq::<char>::empty(),
    {
        DataValidation {
            validation_type: String::new(),
            formula1: String::new(),
            sequence_of_references: String::new(),
        }
    }
}

impl DataValidation {
    pub fn get_validation_type(&self) -> (r: &str)
        ensures
            r@ == self@.validation_type,
    {
        self.validation_type.as_str()
    }

    pub fn set_validation_type(&mut self, value: String)
        ensures
            final(self)@ == (DataValidationView { validation_type: value@, ..old(self)@ }),
    {
        self.validation_type = value;
    }

    pub fn get_formula1(&self) -> (r: &str)
        ensures
            r@ == self@.formula1,
    {
        self.formula1.as_str()
    }

    pub fn set_formula1(&mut self, value: String)
        ensures
            final(self)@ == (DataValidationView { formula1: value@, ..old(self)@ }),
    {
        self.formula1 = value;
    }

    pub fn get_sequence_of_references(&self) -> (r: &str)
        ensures
            r@ == self@.sequence_of_references,
    {
        self.sequence_of_references.as_str()
    }

    pub fn set_sequence_of_references(&mut self, value: String)
        ensures
            final(self)@ == (DataValidationView {
                sequence_of_references: value@,
                ..old(self)@
            }),
    {
        self.sequence_of_references = value;
    }
}

pub open spec fn data_validation_views(s: Seq<DataValidation>) -> Seq<DataValidationView> {
    s.map_values(|d: DataValidation| d@)
}


/// The rule read from one `dataValidation` tag: its type, first formula,
/// and reference list, each defaulting to the empty string.
pub open spec fn spec_validation_of_tag(t: XmlTagView) -> DataValidationView {
    DataValidationView {
        validation_type: match spec_get_attribute(t.attributes, "type"@) {
            Some(v) => v,
            None => Seq::<char>::empty(),
        },
        formula1: match spec_get_attribute(t.attributes, "formula1"@) {
            Some(v) => v,
            None => Seq::<char>::empty(),
        },
        sequence_of_references: match spec_get_attribute(t.attributes, "sqref"@) {
            Some(v) => v,
            None => Seq::<char>::empty(),
        },
    }
}

/// The small-step meaning of parsing the data-validation list from the
/// typed stream: each `dataValidation` child appends one rule, and the
/// matching end tag closes the element.  Running out of events stops the
/// parse.
pub open spec fn spec_parse_data_validations(
    s: Seq<DataValidationView>,
    evs: Seq<XmlEventView>,
    pos: int,
) -> (bool, Seq<DataValidationView>, int)
    decreases evs.len() - pos,
{
    if pos < 0 || pos >= evs.len() {
        (false, s, pos)
    } else {
        match evs[pos] {
            XmlEventView::EmptyTag(t) => {
                if t.name == "dataValidation"@ {
                    spec_parse_data_validations(s.push(spec_validation_of_tag(t)), evs, pos + 1)
                } else {
                    spec_parse_data_validations(s, evs, pos + 1)
                }
            },
            XmlEventView::StartTag(t) => {
                if t.name == "dataValidation"@ {
                    spec_parse_data_validations(s.push(spec_validation_of_tag(t)), evs, pos + 1)
                } else {
                    spec_parse_data_validations(s, evs, pos + 1)
                }
            },
            XmlEventView::EndTag(n) => {
                if n == "dataValidations"@ {
                    (true, s, pos + 1)
                } else {
                    spec_parse_data_validations(s, evs, pos + 1)
                }
            },
            XmlEventView::Text(t) => spec_parse_data_validations(s, evs, pos + 1),
            XmlEventView::NumberText(n) => spec_parse_data_validations(s, evs, pos + 1),
            XmlEventView::Eof => (false, s, pos),
        }
    }
}

/// The canonical `dataValidation` encoding of one rule.
pub open spec fn spec_validation_event(d: DataValidationView) -> XmlEventView {
    XmlEventView::EmptyTag(
        XmlTagView {
            name: "dataValidation"@,
            attributes: seq![
                XmlAttributeView { key: "type"@, value: d.validation_type },
                XmlAttributeView { key: "formula1"@, value: d.formula1 },
                XmlAttributeView { key: "sqref"@, value: d.sequence_of_references },
            ],
        },
    )
}

/// The concatenated encodings of a sequence of rules.
pub open spec fn spec_validation_list_events(s: Seq<DataValidationView>) -> Seq<XmlEventView>
    decreases s.len(),
{
    if s.len() == 0 {
        Seq::empty()
    } else {
        spec_validation_list_events(s.drop_last()).push(spec_validation_event(s.last()))
    }
}

/// The canonical element-stream encoding of the data-validation list: the
/// rules wrapped in their element, whose attribute carries the count.
pub open spec fn spec_data_validations_events(s: Seq<DataValidationView>) -> Seq<XmlEventView> {
    seq![
        XmlEventView::StartTag(
            XmlTagView {
                name: "dataValidations"@,
                attributes: seq![
                    XmlAttributeView { key: "count"@, value: spec_decimal(s.len() as int) },
                ],
            },
        ),
    ] + spec_validation_list_events(s) + seq![XmlEventView::EndTag("dataValidations"@)]
}

/// The data-validation rules of one sheet, in insertion order.
#[derive(Clone, Debug)]
pub struct DataValidations {
    data_validation_list: Vec<DataValidation>,
}

impl View for DataValidations {
    type V = Seq<DataValidationView>;

    closed spec fn view(&self) -> Seq<DataValidationView> {
        data_validation_views(self.data_validation_list@)
    }
}

impl Default for DataValidations {
    fn default() -> (r: Self)
        ensures
            r@.len() == 0,
    {
        DataValidations { data_validation_list: Vec::new() }
    }
}

impl DataValidations {
    pub fn get_data_validation_list(&self) -> (r: &Vec<DataValidation>)
        ensures
            data_validation_views(r@) == self@,
    {
        &self.data_validation_list
    }

    pub fn set_data_validation_list(&mut self, value: Vec<DataValidation>)
        ensures
            final(self)@ == data_validation_views(value@),
    {
        self.data_validation_list = value;
    }

    pub fn add_data_validation_list(&mut self, value: DataValidation)
        ensures
            final(self)@ == old(self)@.push(value@),
    {
        self.data_validation_list.push(value);
        proof {
            assert(data_validation_views(self.data_validation_list@) =~= data_validation_views(
                old(self).data_validation_list@,
            ).push(value@));
        }
    }

    /// Read the data-validation list from the typed element stream, starting
    /// at `*pos` just inside its element, up to and including the end tag
    /// that closes it.  Returns whether the element closed properly.
    pub fn set_attributes(&mut self, events: &Vec<XmlEvent>, pos: &mut usize) -> (r: bool)
        requires
            *old(pos) <= events@.len(),
        ensures
            (r, final(self)@, *final(pos) as int) == spec_parse_data_validations(
                old(self)@,
                event_views(events@),
                *old(pos) as int,
            ),
            *final(pos) <= events@.len(),
    {
        let ghost evs = event_views(events@);
        let ghost goal = spec_parse_data_validations(old(self)@, evs, *old(pos) as int);
        loop
            invariant
                evs == event_views(events@),
                evs.len() == events@.len(),
                *pos <= events@.len(),
                goal == spec_parse_data_validations(old(self)@, evs, *old(pos) as int),
                goal == spec_parse_data_validations(self@, evs, *pos as int),
            decreases events@.len() - *pos,
        {
            let i = *pos;
            if i >= events.len() {
                return false;
            }
            proof {
                assert(evs[i as int] == events@[i as int]@);
            }
            match &events[i] {
                XmlEvent::EmptyTag(t) => {
                    if str_eq(t.get_name(), "dataValidation") {
                        let ghost prev = self@;
                        self.read_validation(t);
                        proof {
                            assert(self@ == prev.push(spec_validation_of_tag(t@)));
                        }
                    }
                    *pos = i + 1;
                },
                XmlEvent::StartTag(t) => {
                    if str_eq(t.get_name(), "dataValidation") {
                        let ghost prev = self@;
                        self.read_validation(t);
                        proof {
                            assert(self@ == prev.push(spec_validation_of_tag(t@)));
                        }
                    }
                    *pos = i + 1;
                },
                XmlEvent::EndTag(name) => {
                    if str_eq(name.as_str(), "dataValidations") {
                        *pos = i + 1;
                        return true;
                    } else {
                        *pos = i + 1;
                    }
                },
                XmlEvent::Text(_) => {
                    *pos = i + 1;
                },
                XmlEvent::NumberText(_) => {
                    *pos = i + 1;
                },
                XmlEvent::Eof => {
                    return false;
                },
            }
        }
    }

    /// Append the rule read from one `dataValidation` tag.
    fn read_validation(&mut self, t: &XmlTag)
        ensures
            final(self)@ == old(self)@.push(spec_validation_of_tag(t@)),
    {
        let mut rule = DataValidation::default();
        match t.get_attribute("type") {
            Some(v) => rule.set_validation_type(String::from_str(v)),
            None => rule.set_validation_type(String::new()),
        }
        match t.get_attribute("formula1") {
            Some(v) => rule.set_formula1(String::from_str(v)),
            None => rule.set_formula1(String::new()),
        }
        match t.get_attribute("sqref") {
            Some(v) => rule.set_sequence_of_references(String::from_str(v)),
            None => rule.set_sequence_of_references(String::new()),
        }
        proof {
            assert(rule@ == spec_validation_of_tag(t@));
        }
        self.add_data_validation_list(rule);
    }

    /// Append the canonical element-stream encoding of the data-validation
    /// list to `events`; the element's attribute carries the count.
    #[verifier::rlimit(50)]
    pub fn write_to(&self, events: &mut Vec<XmlEvent>)
        ensures
            event_views(final(events)@) == event_views(old(events)@)
                + spec_data_validations_events(self@),
    {
        let n = self.data_validation_list.len();
        let mut root = XmlTag::new(String::from_str("dataValidations"));
        root.add_attribute(String::from_str("count"), u64_to_string(n as u64));
        proof {
            assert(root@.attributes =~= seq![
                XmlAttributeView { key: "count"@, value: spec_decimal(self@.len() as int) },
            ]);
        }
        let ghost before_root = event_views(events@);
        events.push(XmlEvent::StartTag(root));
        let ghost after_root = event_views(events@);
        proof {
            assert(after_root =~~= before_root.push(
                XmlEventView::StartTag(
                    XmlTagView {
                        name: "dataValidations"@,
                        attributes: seq![
                            XmlAttributeView {
                                key: "count"@,
                                value: spec_decimal(self@.len() as int),
                            },
                        ],
                    },
                ),
            ));
        }
        let mut idx: usize = 0;
        proof {
            assert(self@.subrange(0, 0) =~= Seq::<DataValidationView>::empty());
            assert(event_views(events@) =~= after_root + spec_validation_list_events(
                self@.subrange(0, 0),
            ));
        }
        while idx < n
            invariant
                n == self.data_validation_list@.len(),
                n == self@.len(),
                idx <= n,
                forall|j: int| 0 <= j < n ==> self@[j] == (
                #[trigger] self.data_validation_list@[j])@,
                event_views(events@) == after_root + spec_validation_list_events(
                    self@.subrange(0, idx as int),
                ),
            decreases n - idx,
        {
            let rule = &self.data_validation_list[idx];
            let mut tag = XmlTag::new(String::from_str("dataValidation"));
            tag.add_attribute(
                String::from_str("type"),
                String::from_str(rule.get_validation_type()),
            );
            tag.add_attribute(String::from_str("formula1"), String::from_str(rule.get_formula1()));
            tag.add_attribute(
                String::from_str("sqref"),
                String::from_str(rule.get_sequence_of_references()),
            );
            proof {
                assert(XmlEventView::EmptyTag(tag@) =~~= spec_validation_event(rule@));
            }
            let ghost before_push = event_views(events@);
            events.push(XmlEvent::EmptyTag(tag));
            proof {
                assert(event_views(events@) =~= before_push.push(
                    spec_validation_event(rule@),
                ));
                assert(self@.subrange(0, idx + 1).drop_last() =~= self@.subrange(0, idx as int));
                assert(self@.subrange(0, idx + 1).last() == rule@);
                assert(spec_validation_list_events(self@.subrange(0, idx + 1))
                    == spec_validation_list_events(self@.subrange(0, idx as int)).push(
                    spec_validation_event(rule@),
                ));
            }
            idx += 1;
        }
        proof {
            assert(self@.subrange(0, n as int) =~= self@);
        }
        let ghost before_end = event_views(events@);
        events.push(XmlEvent::EndTag(String::from_str("dataValidations")));
        proof {
            assert(event_views(events@) =~= before_end.push(
                XmlEventView::EndTag("dataValidations"@),
            ));
            assert(event_views(events@) =~~= event_views(old(events)@)
                + spec_data_validations_events(self@));
        }
    }
}


/// The small-step meaning of parsing the footer element from the typed
/// stream: each text node replaces the value, and the matching end tag
/// closes the element.  Running out of events stops the parse.
pub open spec fn spec_parse_odd_footer(
    v: Option<Seq<char>>,
    evs: Seq<XmlEventView>,
    pos: int,
) -> (bool, Option<Seq<char>>, int)
    decreases evs.len() - pos,
{
    if pos < 0 || pos >= evs.len() {
        (false, v, pos)
    } else {
        match evs[pos] {
            XmlEventView::Text(t) => spec_parse_odd_footer(Some(t), evs, pos + 1),
            XmlEventView::Eof => (false, v, pos),
            XmlEventView::EndTag(name) => {
                if name == "oddFooter"@ {
                    (true, v, pos + 1)
                } else {
                    spec_parse_odd_footer(v, evs, pos + 1)
                }
            },
            XmlEventView::StartTag(t) => spec_parse_odd_footer(v, evs, pos + 1),
            XmlEventView::EmptyTag(t) => spec_parse_odd_footer(v, evs, pos + 1),
            XmlEventView::NumberText(n) => spec_parse_odd_footer(v, evs, pos + 1),
        }
    }
}

/// The canonical element-stream encoding of the footer: nothing when no
/// footer was ever set, else the text wrapped in its element.
pub open spec fn spec_odd_footer_events(v: Option<Seq<char>>) -> Seq<XmlEventView> {
    match v {
        Some(t) => seq![
            XmlEventView::StartTag(
                XmlTagView { name: "oddFooter"@, attributes: Seq::empty() },
            ),
            XmlEventView::Text(t),
            XmlEventView::EndTag("oddFooter"@),
        ],
        None => Seq::empty(),
    }
}

impl OddFooter {
    /// Read the footer from the typed element stream, starting at `*pos`,
    /// up to and including the end tag that closes the `oddFooter` element.
    /// Returns whether the element closed properly; on failure `*pos` stays
    /// at the offending event.
    pub fn set_attributes(&mut self, events: &Vec<XmlEvent>, pos: &mut usize) -> (r: bool)
        requires
            *old(pos) <= events@.len(),
        ensures
            (r, final(self)@, *final(pos) as int) == spec_parse_odd_footer(
                old(self)@,
                event_views(events@),
                *old(pos) as int,
            ),
            *final(pos) <= events@.len(),
    {
        let ghost evs = event_views(events@);
        let ghost goal = spec_parse_odd_footer(old(self)@, evs, *old(pos) as int);
        loop
            invariant
                evs == event_views(events@),
                evs.len() == events@.len(),
                *old(pos) <= events@.len(),
                *pos <= events@.len(),
                goal == spec_parse_odd_footer(old(self)@, evs, *old(pos) as int),
                goal == spec_parse_odd_footer(self@, evs, *pos as int),
            decreases events@.len() - *pos,
        {
            let i = *pos;
            if i >= events.len() {
                return false;
            }
            proof {
                assert(evs[i as int] == events@[i as int]@);
            }
            match &events[i] {
                XmlEvent::Text(t) => {
                    self.value = Some(t.clone());
                    *pos = i + 1;
                },
                XmlEvent::Eof => {
                    return false;
                },
                XmlEvent::EndTag(name) => {
                    if crate::strutil::str_eq(name.as_str(), "oddFooter") {
                        *pos = i + 1;
                        return true;
                    } else {
                        *pos = i + 1;
                    }
                },
                XmlEvent::StartTag(_) => {
                    *pos = i + 1;
                },
                XmlEvent::EmptyTag(_) => {
                    *pos = i + 1;
                },
                XmlEvent::NumberText(_) => {
                    *pos = i + 1;
                },
            }
        }
    }

    /// Append the canonical element-stream encoding of the footer to
    /// `events`; an unset footer writes nothing.
    pub fn write_to(&self, events: &mut Vec<XmlEvent>)
        ensures
            event_views(final(events)@) == event_views(old(events)@) + spec_odd_footer_events(
                self@,
            ),
    {
        match &self.value {
            Some(t) => {
                events.push(XmlEvent::StartTag(XmlTag::new(String::from_str("oddFooter"))));
                events.push(XmlEvent::Text(t.clone()));
                events.push(XmlEvent::EndTag(String::from_str("oddFooter")));
            },
            None => {},
        }
        proof {
            assert(event_views(events@) =~= event_views(old(events)@) + spec_odd_footer_events(
                self@,
            ));
        }
    }
}

} // verus!

//! The text and effect elements of the drawing layer: visual effects,
//! paragraph spacing, and paragraphs of text runs.

use vstd::prelude::*;
use vstd::string::StringExecFns;
use crate::seq_util::lemma_map_values_push;
use crate::strutil::{parse_u64, spec_decimal, spec_digits_value, spec_is_digits, str_eq,
    u64_to_string};
use crate::xml::{event_views, spec_get_attribute, XmlAttributeView, XmlEvent, XmlEventView,
    XmlTag, XmlTagView};

verus! {

/// The number carried by one attribute, when the attribute is present, all
/// digits, and within the machine range.
pub open spec fn spec_effect_attr_number(t: XmlTagView, key: Seq<char>) -> Option<int> {
    match spec_get_attribute(t.attributes, key) {
        Some(v) => if spec_is_digits(v) && v.len() > 0 && spec_digits_value(v) <= u64::MAX {
            Some(spec_digits_value(v))
        } else {
            None
        },
        None => None,
    }
}

/// A glow effect with its radius in EMU.
#[derive(Clone, Debug)]
pub struct Glow {
    radius: u64,
}

impl View for Glow {
    type V = int;

    closed spec fn view(&self) -> int {
        self.radius as int
    }
}

impl Default for Glow {
    fn default() -> (r: Self)
        ensures
            r@ == 0,
    {
        Glow { radius: 0 }
    }
}

impl Glow {
    pub fn get_radius(&self) -> (r: u64)
        ensures
            r as int == self@,
    {
        self.radius
    }

    pub fn set_radius(&mut self, value: u64)
        ensures
            final(self)@ == value as int,
    {
        self.radius = value;
    }
}

/// An outer shadow with its blur radius in EMU.
#[derive(Clone, Debug)]
pub struct OuterShadow {
    blur_radius: u64,
}

impl View for OuterShadow {
    type V = int;

    closed spec fn view(&self) -> int {
        self.blur_radius as int
    }
}

impl Default for OuterShadow {
    fn default() -> (r: Self)
        ensures
            r@ == 0,
    {
        OuterShadow { blur_radius: 0 }
    }
}

impl OuterShadow {
    pub fn get_blur_radius(&self) -> (r: u64)
        ensures
            r as int == self@,
    {
        self.blur_radius
    }

    pub fn set_blur_radius(&mut self, value: u64)
        ensures
            final(self)@ == value as int,
    {
        self.blur_radius = value;
    }
}

/// A soft-edge effect with its radius in EMU.
#[derive(Clone, Debug)]
pub struct SoftEdge {
    radius: u64,
}

impl View for SoftEdge {
    type V = int;

    closed spec fn view(&self) -> int {
        self.radius as int
    }
}

impl Default for SoftEdge {
    fn default() -> (r: Self)
        ensures
            r@ == 0,
    {
        SoftEdge { radius: 0 }
    }
}

impl SoftEdge {
    pub fn get_radius(&self) -> (r: u64)
        ensures
            r as int == self@,
    {
        self.radius
    }

    pub fn set_radius(&mut self, value: u64)
        ensures
            final(self)@ == value as int,
    {
        self.radius = value;
    }
}

/// Mathematical model of an effect list.
pub struct EffectListView {
    pub glow: Option<int>,
    pub outer_shadow: Option<int>,
    pub soft_edge: Option<int>,
}

/// The visual effects applied to one drawing object.
#[derive(Clone, Debug)]
pub struct EffectList {
    glow: Option<Box<Glow>>,
    outer_shadow: Option<Box<OuterShadow>>,
    soft_edge: Option<Box<SoftEdge>>,
}

impl View for EffectList {
    type V = EffectListView;

    closed spec fn view(&self) -> EffectListView {
        EffectListView {
            glow: match &self.glow {
                Some(g) => Some(g@),
                None => None,
            },
            outer_shadow: match &self.outer_shadow {
                Some(o) => Some(o@),
                None => None,
            },
            soft_edge: match &self.soft_edge {
                Some(s) => Some(s@),
                None => None,
            },
        }
    }
}

impl Default for EffectList {
    fn default() -> (r: Self)
        ensures
            r@.glow is None,
            r@.outer_shadow is None,
            r@.soft_edge is None,
    {
        EffectList { glow: None, outer_shadow: None, soft_edge: None }
    }
}

impl EffectList {
    pub fn get_glow(&self) -> (r: Option<&Glow>)
        ensures
            match r {
                Some(g) => self@.glow == Some(g@),
                None => self@.glow is None,
            },
    {
        match &self.glow {
            Some(g) => Some(&**g),
            None => None,
        }
    }

    pub fn get_glow_mut(&mut self) -> (r: Option<&mut Glow>)
        ensures
            match r {
                Some(g) => old(self)@.glow == Some(g@) && final(self)@ == (EffectListView {
                    glow: Some(final(g)@),
                    ..old(self)@
                }),
                None => old(self)@.glow is None && final(self)@ == old(self)@,
            },
    {
        match &mut self.glow {
            Some(g) => Some(&mut **g),
            None => None,
        }
    }

    pub fn set_glow(&mut self, value: Glow)
        ensures
            final(self)@ == (EffectListView { glow: Some(value@), ..old(self)@ }),
    {
        self.glow = Some(Box::new(value));
    }

    pub fn get_outer_shadow(&self) -> (r: Option<&OuterShadow>)
        ensures
            match r {
                Some(o) => self@.outer_shadow == Some(o@),
                None => self@.outer_shadow is None,
            },
    {
        match &self.outer_shadow {
            Some(o) => Some(&**o),
            None => None,
        }
    }

    pub fn get_outer_shadow_mut(&mut self) -> (r: Option<&mut OuterShadow>)
        ensures
            match r {
                Some(o) => old(self)@.outer_shadow == Some(o@) && final(self)@ == (EffectListView {
                    outer_shadow: Some(final(o)@),
                    ..old(self)@
                }),
                None => old(self)@.outer_shadow is None && final(self)@ == old(self)@,
            },
    {
        match &mut self.outer_shadow {
            Some(o) => Some(&mut **o),
            None => None,
        }
    }

    pub fn set_outer_shadow(&mut self, value: OuterShadow)
        ensures
            final(self)@ == (EffectListView { outer_shadow: Some(value@), ..old(self)@ }),
    {
        self.outer_shadow = Some(Box::new(value));
    }

    pub fn get_soft_edge(&self) -> (r: Option<&SoftEdge>)
        ensures
            match r {
                Some(s) => self@.soft_edge == Some(s@),
                None => self@.soft_edge is None,
            },
    {
        match &self.soft_edge {
            Some(s) => Some(&**s),
            None => None,
        }
    }

    pub fn get_soft_edge_mut(&mut self) -> (r: Option<&mut SoftEdge>)
        ensures
            match r {
                Some(s) => old(self)@.soft_edge == Some(s@) && final(self)@ == (EffectListView {
                    soft_edge: Some(final(s)@),
                    ..old(self)@
                }),
                None => old(self)@.soft_edge is None && final(self)@ == old(self)@,
            },
    {
        match &mut self.soft_edge {
            Some(s) => Some(&mut **s),
            None => None,
        }
    }

    pub fn set_soft_edge(&mut self, value: SoftEdge)
        ensures
            final(self)@ == (EffectListView { soft_edge: Some(value@), ..old(self)@ }),
    {
        self.soft_edge = Some(Box::new(value));
    }

    /// Read this effect list from the typed element stream, starting at
    /// `*pos` just inside its element, up to and including the end tag that
    /// closes it.  Returns whether the element closed properly; on failure
    /// `*pos` stays at the offending event.
    pub fn set_attributes(&mut self, events: &Vec<XmlEvent>, pos: &mut usize) -> (r: bool)
        requires
            *old(pos) <= events@.len(),
        ensures
            (r, final(self)@, *final(pos) as int) == spec_parse_effect_list(
                old(self)@,
                event_views(events@),
                *old(pos) as int,
            ),
            *final(pos) <= events@.len(),
    {
        let ghost evs = event_views(events@);
        let ghost goal = spec_parse_effect_list(old(self)@, evs, *old(pos) as int);
        loop
            invariant
                evs == event_views(events@),
                evs.len() == events@.len(),
                *pos <= events@.len(),
                goal == spec_parse_effect_list(old(self)@, evs, *old(pos) as int),
                goal == spec_parse_effect_list(self@, evs, *pos as int),
            decreases events@.len() - *pos,
        {
            let i = *pos;
            if i >= events.len() {
                return false;
            }
            proof {
                assert(evs[i as int] == events@[i as int]@);
            }
            match &events[i] {
                XmlEvent::EmptyTag(t) => {
                    let ghost prev = self@;
                    if str_eq(t.get_name(), "a:glow") {
                        let radius = match t.get_attribute("rad") {
                            Some(v) => parse_u64(v),
                            None => None,
                        };
                        match radius {
                            Some(r) => {
                                self.glow = Some(Box::new(Glow { radius: r }));
                                proof {
                                    assert(spec_effects_with_empty_tag(prev, t@) == (true, self@));
                                }
                                *pos = i + 1;
                            },
                            None => {
                                return false;
                            },
                        }
                    } else if str_eq(t.get_name(), "a:outerShdw") {
                        let radius = match t.get_attribute("blurRad") {
                            Some(v) => parse_u64(v),
                            None => None,
                        };
                        match radius {
                            Some(r) => {
                                self.outer_shadow = Some(Box::new(OuterShadow { blur_radius: r }));
                                proof {
                                    assert(spec_effects_with_empty_tag(prev, t@) == (true, self@));
                                }
                                *pos = i + 1;
                            },
                            None => {
                                return false;
                            },
                        }
                    } else if str_eq(t.get_name(), "a:softEdge") {
                        let radius = match t.get_attribute("rad") {
                            Some(v) => parse_u64(v),
                            None => None,
                        };
                        match radius {
                            Some(r) => {
                                self.soft_edge = Some(Box::new(SoftEdge { radius: r }));
                                proof {
                                    assert(spec_effects_with_empty_tag(prev, t@) == (true, self@));
                                }
                                *pos = i + 1;
                            },
                            None => {
                                return false;
                            },
                        }
                    } else {
                        *pos = i + 1;
                    }
                },
                XmlEvent::EndTag(name) => {
                    if str_eq(name.as_str(), "a:effectLst") {
                        *pos = i + 1;
                        return true;
                    } else {
                        *pos = i + 1;
                    }
                },
                XmlEvent::StartTag(_) => {
                    *pos = i + 1;
                },
                XmlEvent::Text(_) => {
                    *pos = i + 1;
                },
                XmlEvent::NumberText(_) => {
                    *pos = i + 1;
                },
                XmlEvent::Eof => {
                    return false;
                },
            }
        }
    }

    /// Append the canonical element-stream encoding of this effect list to
    /// `events`; a list with no effect writes one empty root element.
    #[verifier::rlimit(50)]
    pub fn write_to(&self, events: &mut Vec<XmlEvent>)
        ensures
            event_views(final(events)@) == event_views(old(events)@) + spec_effect_list_events(
                self@,
            ),
    {
        if self.glow.is_none() && self.outer_shadow.is_none() && self.soft_edge.is_none() {
            events.push(XmlEvent::EmptyTag(XmlTag::new(String::from_str("a:effectLst"))));
            proof {
                assert(event_views(events@) =~~= event_views(old(events)@)
                    + spec_effect_list_events(self@));
            }
            return ;
        }
        events.push(XmlEvent::StartTag(XmlTag::new(String::from_str("a:effectLst"))));
        match &self.glow {
            Some(g) => {
                let mut tag = XmlTag::new(String::from_str("a:glow"));
                tag.add_attribute(String::from_str("rad"), u64_to_string(g.radius));
                proof {
                    assert(tag@.attributes =~= seq![
                        XmlAttributeView { key: "rad"@, value: spec_decimal(g.radius as int) },
                    ]);
                }
                events.push(XmlEvent::EmptyTag(tag));
            },
            None => {},
        }
        match &self.outer_shadow {
            Some(o) => {
                let mut tag = XmlTag::new(String::from_str("a:outerShdw"));
                tag.add_attribute(String::from_str("blurRad"), u64_to_string(o.blur_radius));
                proof {
                    assert(tag@.attributes =~= seq![
                        XmlAttributeView {
                            key: "blurRad"@,
                            value: spec_decimal(o.blur_radius as int),
                        },
                    ]);
                }
                events.push(XmlEvent::EmptyTag(tag));
            },
            None => {},
        }
        match &self.soft_edge {
            Some(e) => {
                let mut tag = XmlTag::new(String::from_str("a:softEdge"));
                tag.add_attribute(String::from_str("rad"), u64_to_string(e.radius));
                proof {
                    assert(tag@.attributes =~= seq![
                        XmlAttributeView { key: "rad"@, value: spec_decimal(e.radius as int) },
                    ]);
                }
                events.push(XmlEvent::EmptyTag(tag));
            },
            None => {},
        }
        events.push(XmlEvent::EndTag(String::from_str("a:effectLst")));
        proof {
            assert(event_views(events@) =~~= event_views(old(events)@) + spec_effect_list_events(
                self@,
            ));
        }
    }
}


/// The effect read from one empty child element: each effect kind carries
/// its radius in an attribute (and is malformed without it); any other
/// element changes nothing.
pub open spec fn spec_effects_with_empty_tag(a: EffectListView, t: XmlTagView) -> (
    bool,
    EffectListView,
) {
    if t.name == "a:glow"@ {
        match spec_effect_attr_number(t, "rad"@) {
            Some(r) => (true, EffectListView { glow: Some(r), ..a }),
            None => (false, a),
        }
    } else if t.name == "a:outerShdw"@ {
        match spec_effect_attr_number(t, "blurRad"@) {
            Some(r) => (true, EffectListView { outer_shadow: Some(r), ..a }),
            None => (false, a),
        }
    } else if t.name == "a:softEdge"@ {
        match spec_effect_attr_number(t, "rad"@) {
            Some(r) => (true, EffectListView { soft_edge: Some(r), ..a }),
            None => (false, a),
        }
    } else {
        (true, a)
    }
}

/// The small-step meaning of parsing one effect-list element from the typed
/// stream: each effect comes from an empty child element, and the matching
/// end tag closes the element.  A malformed effect, or the end of the
/// stream, stops the parse.
pub open spec fn spec_parse_effect_list(
    a: EffectListView,
    evs: Seq<XmlEventView>,
    pos: int,
) -> (bool, EffectListView, int)
    decreases evs.len() - pos,
{
    if pos < 0 || pos >= evs.len() {
        (false, a, pos)
    } else {
        match evs[pos] {
            XmlEventView::EmptyTag(t) => {
                let step = spec_effects_with_empty_tag(a, t);
                if step.0 {
                    spec_parse_effect_list(step.1, evs, pos + 1)
                } else {
                    (false, a, pos)
                }
            },
            XmlEventView::EndTag(n) => {
                if n == "a:effectLst"@ {
                    (true, a, pos + 1)
                } else {
                    spec_parse_effect_list(a, evs, pos + 1)
                }
            },
            XmlEventView::StartTag(t) => spec_parse_effect_list(a, evs, pos + 1),
            XmlEventView::Text(t) => spec_parse_effect_list(a, evs, pos + 1),
            XmlEventView::NumberText(n) => spec_parse_effect_list(a, evs, pos + 1),
            XmlEventView::Eof => (false, a, pos),
        }
    }
}

/// The canonical element-stream encoding of an effect list: one empty root
/// when no effect is set, else the effects wrapped in the root element.
pub open spec fn spec_effect_list_events(a: EffectListView) -> Seq<XmlEventView> {
    if a.glow is None && a.outer_shadow is None && a.soft_edge is None {
        seq![
            XmlEventView::EmptyTag(XmlTagView { name: "a:effectLst"@, attributes: Seq::empty() }),
        ]
    } else {
        seq![
            XmlEventView::StartTag(XmlTagView { name: "a:effectLst"@, attributes: Seq::empty() }),
        ] + (match a.glow {
            Some(r) => seq![
                XmlEventView::EmptyTag(
                    XmlTagView {
                        name: "a:glow"@,
                        attributes: seq![XmlAttributeView { key: "rad"@, value: spec_decimal(r) }],
                    },
                ),
            ],
            None => Seq::<XmlEventView>::empty(),
        }) + (match a.outer_shadow {
            Some(r) => seq![
                XmlEventView::EmptyTag(
                    XmlTagView {
                        name: "a:outerShdw"@,
                        attributes: seq![
                            XmlAttributeView { key: "blurRad"@, value: spec_decimal(r) },
                        ],
                    },
                ),
            ],
            None => Seq::<XmlEventView>::empty(),
        }) + (match a.soft_edge {
            Some(r) => seq![
                XmlEventView::EmptyTag(
                    XmlTagView {
                        name: "a:softEdge"@,
                        attributes: seq![XmlAttributeView { key: "rad"@, value: spec_decimal(r) }],
                    },
                ),
            ],
            None => Seq::<XmlEventView>::empty(),
        }) + seq![XmlEventView::EndTag("a:effectLst"@)]
    }
}

/// Paragraph spacing given as a percentage of the line height.
#[derive(Clone, Debug)]
pub struct SpacingPercent {
    val: u32,
}

impl View for SpacingPercent {
    type V = int;

    closed spec fn view(&self) -> int {
        self.val as int
    }
}

impl Default for SpacingPercent {
    fn default() -> (r: Self)
        ensures
            r@ == 0,
    {
        SpacingPercent { val: 0 }
    }
}

impl SpacingPercent {
    pub fn get_val(&self) -> (r: &u32)
        ensures
            *r as int == self@,
    {
        &self.val
    }

    pub fn set_val(&mut self, value: u32)
        ensures
            final(self)@ == value as int,
    {
        self.val = value;
    }
}


/// The small-step meaning of parsing one paragraph-spacing element from the
/// typed stream: the percentage comes from an empty child element (and is
/// malformed when its number is missing or out of range), and the matching
/// end tag closes the element.
pub open spec fn spec_parse_space_before(
    v: Option<int>,
    evs: Seq<XmlEventView>,
    pos: int,
) -> (bool, Option<int>, int)
    decreases evs.len() - pos,
{
    if pos < 0 || pos >= evs.len() {
        (false, v, pos)
    } else {
        match evs[pos] {
            XmlEventView::EmptyTag(t) => {
                if t.name == "a:spcPct"@ {
                    match spec_effect_attr_number(t, "val"@) {
                        Some(n) => if n <= u32::MAX {
                            spec_parse_space_before(Some(n), evs, pos + 1)
                        } else {
                            (false, v, pos)
                        },
                        None => (false, v, pos),
                    }
                } else {
                    spec_parse_space_before(v, evs, pos + 1)
                }
            },
            XmlEventView::EndTag(n) => {
                if n == "a:spcBef"@ {
                    (true, v, pos + 1)
                } else {
                    spec_parse_space_before(v, evs, pos + 1)
                }
            },
            XmlEventView::StartTag(t) => spec_parse_space_before(v, evs, pos + 1),
            XmlEventView::Text(t) => spec_parse_space_before(v, evs, pos + 1),
            XmlEventView::NumberText(n) => spec_parse_space_before(v, evs, pos + 1),
            XmlEventView::Eof => (false, v, pos),
        }
    }
}

/// The canonical element-stream encoding of the paragraph spacing: the
/// optional percentage wrapped in its element.
pub open spec fn spec_space_before_events(v: Option<int>) -> Seq<XmlEventView> {
    seq![XmlEventView::StartTag(XmlTagView { name: "a:spcBef"@, attributes: Seq::empty() })]
        + (match v {
        Some(n) => seq![
            XmlEventView::EmptyTag(
                XmlTagView {
                    name: "a:spcPct"@,
                    attributes: seq![XmlAttributeView { key: "val"@, value: spec_decimal(n) }],
                },
            ),
        ],
        None => Seq::<XmlEventView>::empty(),
    }) + seq![XmlEventView::EndTag("a:spcBef"@)]
}

/// The space before a paragraph, when given as a percentage.
#[derive(Clone, Debug)]
pub struct SpaceBefore {
    spacing_percent: Option<SpacingPercent>,
}

impl View for SpaceBefore {
    type V = Option<int>;

    closed spec fn view(&self) -> Option<int> {
        match self.spacing_percent {
            Some(s) => Some(s@),
            None => None,
        }
    }
}

impl Default for SpaceBefore {
    fn default() -> (r: Self)
        ensures
            r@ is None,
    {
        SpaceBefore { spacing_percent: None }
    }
}

impl SpaceBefore {
    pub fn get_spacing_percent(&self) -> (r: Option<&SpacingPercent>)
        ensures
            match r {
                Some(s) => self@ == Some(s@),
                None => self@ is None,
            },
    {
        self.spacing_percent.as_ref()
    }

    pub fn get_spacing_percent_mut(&mut self) -> (r: Option<&mut SpacingPercent>)
        ensures
            match r {
                Some(s) => old(self)@ == Some(s@) && final(self)@ == Some(final(s)@),
                None => old(self)@ is None && final(self)@ == old(self)@,
            },
    {
        match &mut self.spacing_percent {
            Some(s) => Some(s),
            None => None,
        }
    }

    pub fn set_spacing_percent(&mut self, value: SpacingPercent)
        ensures
            final(self)@ == Some(value@),
    {
        self.spacing_percent = Some(value);
    }

    pub fn remove_spacing_percent(&mut self)
        ensures
            final(self)@ is None,
    {
        self.spacing_percent = None;
    }

    /// Read this spacing from the typed element stream, starting at `*pos`
    /// just inside its element, up to and including the end tag that closes
    /// it.  Returns whether the element closed properly; on failure `*pos`
    /// stays at the offending event.
    pub fn set_attributes(&mut self, events: &Vec<XmlEvent>, pos: &mut usize) -> (r: bool)
        requires
            *old(pos) <= events@.len(),
        ensures
            (r, final(self)@, *final(pos) as int) == spec_parse_space_before(
                old(self)@,
                event_views(events@),
                *old(pos) as int,
            ),
            *final(pos) <= events@.len(),
    {
        let ghost evs = event_views(events@);
        let ghost goal = spec_parse_space_before(old(self)@, evs, *old(pos) as int);
        loop
            invariant
                evs == event_views(events@),
                evs.len() == events@.len(),
                *pos <= events@.len(),
                goal == spec_parse_space_before(old(self)@, evs, *old(pos) as int),
                goal == spec_parse_space_before(self@, evs, *pos as int),
            decreases events@.len() - *pos,
        {
            let i = *pos;
            if i >= events.len() {
                return false;
            }
            proof {
                assert(evs[i as int] == events@[i as int]@);
            }
            match &events[i] {
                XmlEvent::EmptyTag(t) => {
                    if str_eq(t.get_name(), "a:spcPct") {
                        let val = match t.get_attribute("val") {
                            Some(v) => parse_u64(v),
                            None => None,
                        };
                        match val {
                            Some(n) => {
                                if n > u32::MAX as u64 {
                                    return false;
                                }
                                self.spacing_percent = Some(SpacingPercent { val: n as u32 });
                                *pos = i + 1;
                            },
                            None => {
                                return false;
                            },
                        }
                    } else {
                        *pos = i + 1;
                    }
                },
                XmlEvent::EndTag(name) => {
                    if str_eq(name.as_str(), "a:spcBef") {
                        *pos = i + 1;
                        return true;
                    } else {
                        *pos = i + 1;
                    }
                },
                XmlEvent::StartTag(_) => {
                    *pos = i + 1;
                },
                XmlEvent::Text(_) => {
                    *pos = i + 1;
                },
                XmlEvent::NumberText(_) => {
                    *pos = i + 1;
                },
                XmlEvent::Eof => {
                    return false;
                },
            }
        }
    }

    /// Append the canonical element-stream encoding of this spacing to
    /// `events`.
    pub fn write_to(&self, events: &mut Vec<XmlEvent>)
        ensures
            event_views(final(events)@) == event_views(old(events)@) + spec_space_before_events(
                self@,
            ),
    {
        events.push(XmlEvent::StartTag(XmlTag::new(String::from_str("a:spcBef"))));
        match &self.spacing_percent {
            Some(p) => {
                let mut tag = XmlTag::new(String::from_str("a:spcPct"));
                tag.add_attribute(String::from_str("val"), u64_to_string(p.val as u64));
                proof {
                    assert(tag@.attributes =~= seq![
                        XmlAttributeView { key: "val"@, value: spec_decimal(p.val as int) },
                    ]);
                }
                events.push(XmlEvent::EmptyTag(tag));
            },
            None => {},
        }
        events.push(XmlEvent::EndTag(String::from_str("a:spcBef")));
        proof {
            assert(event_views(events@) =~~= event_views(old(events)@)
                + spec_space_before_events(self@));
        }
    }
}

/// The properties of one paragraph: its alignment name.
#[derive(Clone, Debug)]
pub struct ParagraphProperties {
    alignment: String,
}

impl View for ParagraphProperties {
    type V = Seq<char>;

    closed spec fn view(&self) -> Seq<char> {
        self.alignment@
    }
}

impl Default for ParagraphProperties {
    fn default() -> (r: Self)
        ensures
            r@ == Seq::<char>::empty(),
    {
        ParagraphProperties { alignment: String::new() }
    }
}

impl ParagraphProperties {
    pub fn get_alignment(&self) -> (r: &str)
        ensures
            r@ == self@,
    {
        self.alignment.as_str()
    }

    pub fn set_alignment(&mut self, value: String)
        ensures
            final(self)@ == value@,
    {
        self.alignment = value;
    }
}

/// One text run of a paragraph.
#[derive(Clone, Debug)]
pub struct Run {
    text: String,
}

impl View for Run {
    type V = Seq<char>;

    closed spec fn view(&self) -> Seq<char> {
        self.text@
    }
}

impl Default for Run {
    fn default() -> (r: Self)
        ensures
            r@ == Seq::<char>::empty(),
    {
        Run { text: String::new() }
    }
}

impl Run {
    pub fn get_text(&self) -> (r: &str)
        ensures
            r@ == self@,
    {
        self.text.as_str()
    }

    pub fn set_text(&mut self, value: String)
        ensures
            final(self)@ == value@,
    {
        self.text = value;
    }

    /// Read this run from the typed element stream, starting at `*pos` just
    /// inside its element, up to and including the end tag that closes it.
    /// Returns whether the element closed properly; on failure `*pos` stays
    /// at the offending event.
    pub fn set_attributes(&mut self, events: &Vec<XmlEvent>, pos: &mut usize) -> (r: bool)
        requires
            *old(pos) <= events@.len(),
        ensures
            (r, final(self)@, *final(pos) as int) == spec_parse_run(
                old(self)@,
                event_views(events@),
                *old(pos) as int,
            ),
            *final(pos) <= events@.len(),
            *old(pos) <= *final(pos),
            r ==> *old(pos) < *final(pos),
    {
        let ghost evs = event_views(events@);
        let ghost goal = spec_parse_run(old(self)@, evs, *old(pos) as int);
        loop
            invariant
                evs == event_views(events@),
                evs.len() == events@.len(),
                *old(pos) <= *pos,
                *pos <= events@.len(),
                goal == spec_parse_run(old(self)@, evs, *old(pos) as int),
                goal == spec_parse_run(self@, evs, *pos as int),
            decreases events@.len() - *pos,
        {
            let i = *pos;
            if i >= events.len() {
                return false;
            }
            proof {
                assert(evs[i as int] == events@[i as int]@);
            }
            match &events[i] {
                XmlEvent::Text(t) => {
                    self.text = t.clone();
                    *pos = i + 1;
                },
                XmlEvent::EndTag(name) => {
                    if str_eq(name.as_str(), "a:r") {
                        *pos = i + 1;
                        return true;
                    } else {
                        *pos = i + 1;
                    }
                },
                XmlEvent::StartTag(_) => {
                    *pos = i + 1;
                },
                XmlEvent::EmptyTag(_) => {
                    *pos = i + 1;
                },
                XmlEvent::NumberText(_) => {
                    *pos = i + 1;
                },
                XmlEvent::Eof => {
                    return false;
                },
            }
        }
    }

    /// Append the canonical element-stream encoding of this run to `events`.
    pub fn write_to(&self, events: &mut Vec<XmlEvent>)
        ensures
            event_views(final(events)@) == event_views(old(events)@) + spec_run_events(self@),
    {
        events.push(XmlEvent::StartTag(XmlTag::new(String::from_str("a:r"))));
        events.push(XmlEvent::Text(self.text.clone()));
        events.push(XmlEvent::EndTag(String::from_str("a:r")));
        proof {
            assert(event_views(events@) =~~= event_views(old(events)@) + spec_run_events(self@));
        }
    }
}

/// The properties of the run that ends a paragraph: its font size in
/// hundredths of a point.
#[derive(Clone, Debug)]
pub struct RunProperties {
    font_size: u32,
}

impl View for RunProperties {
    type V = int;

    closed spec fn view(&self) -> int {
        self.font_size as int
    }
}

impl Default for RunProperties {
    fn default() -> (r: Self)
        ensures
            r@ == 0,
    {
        RunProperties { font_size: 0 }
    }
}

impl RunProperties {
    pub fn get_font_size(&self) -> (r: u32)
        ensures
            r as int == self@,
    {
        self.font_size
    }

    pub fn set_font_size(&mut self, value: u32)
        ensures
            final(self)@ == value as int,
    {
        self.font_size = value;
    }
}


/// The small-step meaning of parsing one text run from the typed stream:
/// each text node replaces the run text, and the matching end tag closes
/// the element.  Running out of events stops the parse.
pub open spec fn spec_parse_run(
    text: Seq<char>,
    evs: Seq<XmlEventView>,
    pos: int,
) -> (bool, Seq<char>, int)
    decreases evs.len() - pos,
{
    if pos < 0 || pos >= evs.len() {
        (false, text, pos)
    } else {
        match evs[pos] {
            XmlEventView::Text(t) => spec_parse_run(t, evs, pos + 1),
            XmlEventView::EndTag(n) => {
                if n == "a:r"@ {
                    (true, text, pos + 1)
                } else {
                    spec_parse_run(text, evs, pos + 1)
                }
            },
            XmlEventView::StartTag(t) => spec_parse_run(text, evs, pos + 1),
            XmlEventView::EmptyTag(t) => spec_parse_run(text, evs, pos + 1),
            XmlEventView::NumberText(n) => spec_parse_run(text, evs, pos + 1),
            XmlEventView::Eof => (false, text, pos),
        }
    }
}

pub open spec fn run_views(s: Seq<Run>) -> Seq<Seq<char>> {
    s.map_values(|r: Run| r@)
}

/// Mathematical model of a paragraph.
pub struct ParagraphView {
    pub properties: Seq<char>,
    pub runs: Seq<Seq<char>>,
    pub end_para_run_properties: Option<int>,
}


/// The small-step meaning of parsing one paragraph element from the typed
/// stream: an empty properties child carries the alignment, each run child
/// is read by the run parser, an empty closing-run child carries the font
/// size, and the matching end tag closes the element.  A failing run parse,
/// a malformed font size, or the end of the stream stops the parse.
pub open spec fn spec_parse_paragraph(
    a: ParagraphView,
    evs: Seq<XmlEventView>,
    pos: int,
) -> (bool, ParagraphView, int)
    decreases evs.len() - pos,
{
    if pos < 0 || pos >= evs.len() {
        (false, a, pos)
    } else {
        match evs[pos] {
            XmlEventView::StartTag(t) => {
                if t.name == "a:r"@ {
                    let m = spec_parse_run(Seq::empty(), evs, pos + 1);
                    if m.0 {
                        let next0 = if m.2 > pos + 1 {
                            m.2
                        } else {
                            pos + 2
                        };
                        let next = if next0 <= evs.len() {
                            next0
                        } else {
                            evs.len() as int
                        };
                        spec_parse_paragraph(
                            ParagraphView { runs: a.runs.push(m.1), ..a },
                            evs,
                            next,
                        )
                    } else {
                        (false, a, m.2)
                    }
                } else {
                    spec_parse_paragraph(a, evs, pos + 1)
                }
            },
            XmlEventView::EmptyTag(t) => {
                if t.name == "a:pPr"@ {
                    let algn = match spec_get_attribute(t.attributes, "algn"@) {
                        Some(v) => v,
                        None => Seq::<char>::empty(),
                    };
                    spec_parse_paragraph(ParagraphView { properties: algn, ..a }, evs, pos + 1)
                } else if t.name == "a:endParaRPr"@ {
                    match spec_get_attribute(t.attributes, "sz"@) {
                        Some(v) => if spec_is_digits(v) && v.len() > 0 && spec_digits_value(v)
                            <= u32::MAX {
                            spec_parse_paragraph(
                                ParagraphView {
                                    end_para_run_properties: Some(spec_digits_value(v)),
                                    ..a
                                },
                                evs,
                                pos + 1,
                            )
                        } else {
                            (false, a, pos)
                        },
                        None => (false, a, pos),
                    }
                } else {
                    spec_parse_paragraph(a, evs, pos + 1)
                }
            },
            XmlEventView::EndTag(n) => {
                if n == "a:p"@ {
                    (true, a, pos + 1)
                } else {
                    spec_parse_paragraph(a, evs, pos + 1)
                }
            },
            XmlEventView::Text(t) => spec_parse_paragraph(a, evs, pos + 1),
            XmlEventView::NumberText(n) => spec_parse_paragraph(a, evs, pos + 1),
            XmlEventView::Eof => (false, a, pos),
        }
    }
}


/// The canonical element-stream encoding of one run of a paragraph.
pub open spec fn spec_run_events(text: Seq<char>) -> Seq<XmlEventView> {
    seq![
        XmlEventView::StartTag(XmlTagView { name: "a:r"@, attributes: Seq::empty() }),
        XmlEventView::Text(text),
        XmlEventView::EndTag("a:r"@),
    ]
}

/// The canonical element-stream encoding of a paragraph: its properties,
/// its runs in order, and the optional closing-run properties, wrapped in
/// the paragraph element.
pub open spec fn spec_paragraph_events(a: ParagraphView) -> Seq<XmlEventView> {
    seq![
        XmlEventView::StartTag(XmlTagView { name: "a:p"@, attributes: Seq::empty() }),
        XmlEventView::EmptyTag(
            XmlTagView {
                name: "a:pPr"@,
                attributes: seq![XmlAttributeView { key: "algn"@, value: a.properties }],
            },
        ),
    ] + a.runs.map_values(|t: Seq<char>| spec_run_events(t)).flatten() + (
    match a.end_para_run_properties {
        Some(sz) => seq![
            XmlEventView::EmptyTag(
                XmlTagView {
                    name: "a:endParaRPr"@,
                    attributes: seq![XmlAttributeView { key: "sz"@, value: spec_decimal(sz) }],
                },
            ),
        ],
        None => Seq::<XmlEventView>::empty(),
    }) + seq![XmlEventView::EndTag("a:p"@)]
}

/// One paragraph of drawing text: its properties, its runs in order, and the
/// optional properties of its closing run.
#[derive(Clone, Debug)]
pub struct Paragraph {
    paragraph_properties: ParagraphProperties,
    run: Vec<Run>,
    end_para_run_properties: Option<Box<RunProperties>>,
}

impl View for Paragraph {
    type V = ParagraphView;

    closed spec fn view(&self) -> ParagraphView {
        ParagraphView {
            properties: self.paragraph_properties@,
            runs: run_views(self.run@),
            end_para_run_properties: match &self.end_para_run_properties {
                Some(p) => Some(p@),
                None => None,
            },
        }
    }
}

impl Default for Paragraph {
    fn default() -> (r: Self)
        ensures
            r@.properties == Seq::<char>::empty(),
            r@.runs.len() == 0,
            r@.end_para_run_properties is None,
    {
        Paragraph {
            paragraph_properties: ParagraphProperties::default(),
            run: Vec::new(),
            end_para_run_properties: None,
        }
    }
}

impl Paragraph {
    pub fn get_paragraph_properties(&self) -> (r: &ParagraphProperties)
        ensures
            r@ == self@.properties,
    {
        &self.paragraph_properties
    }

    pub fn get_paragraph_properties_mut(&mut self) -> (r: &mut ParagraphProperties)
        ensures
            r@ == old(self)@.properties,
            final(self)@ == (ParagraphView { properties: final(r)@, ..old(self)@ }),
    {
        &mut self.paragraph_properties
    }

    pub fn set_paragraph_properties(&mut self, value: ParagraphProperties)
        ensures
            final(self)@ == (ParagraphView { properties: value@, ..old(self)@ }),
    {
        self.paragraph_properties = value;
    }

    pub fn get_run(&self) -> (r: &Vec<Run>)
        ensures
            run_views(r@) == self@.runs,
    {
        &self.run
    }

    pub fn add_run(&mut self, value: Run)
        ensures
            final(self)@ == (ParagraphView { runs: old(self)@.runs.push(value@), ..old(self)@ }),
    {
        self.run.push(value);
        proof {
            assert(run_views(self.run@) =~= run_views(old(self).run@).push(value@));
        }
    }

    pub fn get_end_para_run_properties(&self) -> (r: Option<&RunProperties>)
        ensures
            match r {
                Some(p) => self@.end_para_run_properties == Some(p@),
                None => self@.end_para_run_properties is None,
            },
    {
        match &self.end_para_run_properties {
            Some(p) => Some(&**p),
            None => None,
        }
    }

    pub fn get_end_para_run_properties_mut(&mut self) -> (r: Option<&mut RunProperties>)
        ensures
            match r {
                Some(p) => old(self)@.end_para_run_properties == Some(p@) && final(self)@ == (
                ParagraphView { end_para_run_properties: Some(final(p)@), ..old(self)@ }),
                None => old(self)@.end_para_run_properties is None && final(self)@ == old(self)@,
            },
    {
        match &mut self.end_para_run_properties {
            Some(p) => Some(&mut **p),
            None => None,
        }
    }

    pub fn set_end_para_run_properties(&mut self, value: RunProperties)
        ensures
            final(self)@ == (ParagraphView {
                end_para_run_properties: Some(value@),
                ..old(self)@
            }),
    {
        self.end_para_run_properties = Some(Box::new(value));
    }

    pub fn remove_end_para_run_properties(&mut self)
        ensures
            final(self)@ == (ParagraphView { end_para_run_properties: None, ..old(self)@ }),
    {
        self.end_para_run_properties = None;
    }


    /// Append the canonical element-stream encoding of this paragraph to
    /// `events`.
    #[verifier::rlimit(80)]
    pub fn write_to(&self, events: &mut Vec<XmlEvent>)
        ensures
            event_views(final(events)@) == event_views(old(events)@) + spec_paragraph_events(
                self@,
            ),
    {
        events.push(XmlEvent::StartTag(XmlTag::new(String::from_str("a:p"))));
        let mut props = XmlTag::new(String::from_str("a:pPr"));
        props.add_attribute(
            String::from_str("algn"),
            String::from_str(self.paragraph_properties.get_alignment()),
        );
        proof {
            assert(props@.attributes =~= seq![
                XmlAttributeView { key: "algn"@, value: self@.properties },
            ]);
        }
        events.push(XmlEvent::EmptyTag(props));
        let ghost after_head = event_views(events@);
        let n = self.run.len();
        let mut idx: usize = 0;
        proof {
            assert(self@.runs.subrange(0, 0) =~= Seq::<Seq<char>>::empty());
            assert(self@.runs.subrange(0, 0).map_values(
                |t: Seq<char>| spec_run_events(t),
            ).flatten() =~= Seq::<XmlEventView>::empty());
            assert(event_views(events@) =~= after_head + self@.runs.subrange(0, 0).map_values(
                |t: Seq<char>| spec_run_events(t),
            ).flatten());
        }
        while idx < n
            invariant
                n == self.run@.len(),
                n == self@.runs.len(),
                idx <= n,
                forall|j: int| 0 <= j < n ==> self@.runs[j] == (#[trigger] self.run@[j])@,
                event_views(events@) == after_head + self@.runs.subrange(0, idx as int)
                    .map_values(|t: Seq<char>| spec_run_events(t)).flatten(),
            decreases n - idx,
        {
            let one = &self.run[idx];
            one.write_to(events);
            proof {
                assert(self@.runs.subrange(0, idx + 1) =~= self@.runs.subrange(
                    0,
                    idx as int,
                ).push(one@));
                lemma_map_values_push(
                    self@.runs.subrange(0, idx as int),
                    |t: Seq<char>| spec_run_events(t),
                    one@,
                );
                self@.runs.subrange(0, idx as int).map_values(
                    |t: Seq<char>| spec_run_events(t),
                ).lemma_flatten_push(spec_run_events(one@));
            }
            idx += 1;
        }
        proof {
            assert(self@.runs.subrange(0, n as int) =~= self@.runs);
        }
        let ghost after_runs = event_views(events@);
        match &self.end_para_run_properties {
            Some(p) => {
                let mut tag = XmlTag::new(String::from_str("a:endParaRPr"));
                tag.add_attribute(String::from_str("sz"), u64_to_string(p.font_size as u64));
                proof {
                    assert(tag@.attributes =~= seq![
                        XmlAttributeView { key: "sz"@, value: spec_decimal(p.font_size as int) },
                    ]);
                }
                events.push(XmlEvent::EmptyTag(tag));
            },
            None => {},
        }
        events.push(XmlEvent::EndTag(String::from_str("a:p")));
        proof {
            assert(after_head =~~= event_views(old(events)@) + seq![
                XmlEventView::StartTag(XmlTagView { name: "a:p"@, attributes: Seq::empty() }),
                XmlEventView::EmptyTag(
                    XmlTagView {
                        name: "a:pPr"@,
                        attributes: seq![
                            XmlAttributeView { key: "algn"@, value: self@.properties },
                        ],
                    },
                ),
            ]);
            assert(event_views(events@) =~~= after_runs + (
            match self@.end_para_run_properties {
                Some(sz) => seq![
                    XmlEventView::EmptyTag(
                        XmlTagView {
                            name: "a:endParaRPr"@,
                            attributes: seq![
                                XmlAttributeView { key: "sz"@, value: spec_decimal(sz) },
                            ],
                        },
                    ),
                ],
                None => Seq::<XmlEventView>::empty(),
            }) + seq![XmlEventView::EndTag("a:p"@)]);
            assert(event_views(events@) =~~= event_views(old(events)@) + spec_paragraph_events(
                self@,
            ));
        }
    }

    /// Read this paragraph from the typed element stream, starting at
    /// `*pos` just inside its element, up to and including the end tag that
    /// closes it.  Returns whether the element closed properly; on failure
    /// `*pos` stays at the offending event.
    pub fn set_attributes(&mut self, events: &Vec<XmlEvent>, pos: &mut usize) -> (r: bool)
        requires
            *old(pos) <= events@.len(),
        ensures
            (r, final(self)@, *final(pos) as int) == spec_parse_paragraph(
                old(self)@,
                event_views(events@),
                *old(pos) as int,
            ),
            *final(pos) <= events@.len(),
    {
        let ghost evs = event_views(events@);
        let ghost goal = spec_parse_paragraph(old(self)@, evs, *old(pos) as int);
        loop
            invariant
                evs == event_views(events@),
                evs.len() == events@.len(),
                *pos <= events@.len(),
                goal == spec_parse_paragraph(old(self)@, evs, *old(pos) as int),
                goal == spec_parse_paragraph(self@, evs, *pos as int),
            decreases events@.len() - *pos,
        {
            let i = *pos;
            if i >= events.len() {
                return false;
            }
            proof {
                assert(evs[i as int] == events@[i as int]@);
            }
            match &events[i] {
                XmlEvent::StartTag(t) => {
                    if str_eq(t.get_name(), "a:r") {
                        let ghost before = self@;
                        let mut run = Run::default();
                        *pos = i + 1;
                        let ok = run.set_attributes(events, pos);
                        if !ok {
                            return false;
                        }
                        let ghost parsed = run@;
                        self.add_run(run);
                        proof {
                            assert(self@ == (ParagraphView {
                                runs: before.runs.push(parsed),
                                ..before
                            }));
                        }
                    } else {
                        *pos = i + 1;
                    }
                },
                XmlEvent::EmptyTag(t) => {
                    let ghost prev = self@;
                    if str_eq(t.get_name(), "a:pPr") {
                        let algn = match t.get_attribute("algn") {
                            Some(v) => String::from_str(v),
                            None => String::new(),
                        };
                        self.paragraph_properties.set_alignment(algn);
                        proof {
                            assert(self@ == (ParagraphView {
                                properties: (match spec_get_attribute(t@.attributes, "algn"@) {
                                    Some(v) => v,
                                    None => Seq::<char>::empty(),
                                }),
                                ..prev
                            }));
                        }
                        *pos = i + 1;
                    } else if str_eq(t.get_name(), "a:endParaRPr") {
                        let size = match t.get_attribute("sz") {
                            Some(v) => parse_u64(v),
                            None => None,
                        };
                        match size {
                            Some(n) => {
                                if n > u32::MAX as u64 {
                                    return false;
                                }
                                let mut props = RunProperties::default();
                                props.set_font_size(n as u32);
                                self.set_end_para_run_properties(props);
                                *pos = i + 1;
                            },
                            None => {
                                return false;
                            },
                        }
                    } else {
                        *pos = i + 1;
                    }
                },
                XmlEvent::EndTag(name) => {
                    if str_eq(name.as_str(), "a:p") {
                        *pos = i + 1;
                        return true;
                    } else {
                        *pos = i + 1;
                    }
                },
                XmlEvent::Text(_) => {
                    *pos = i + 1;
                },
                XmlEvent::NumberText(_) => {
                    *pos = i + 1;
                },
                XmlEvent::Eof => {
                    return false;
                },
            }
        }
    }
}

} // verus!

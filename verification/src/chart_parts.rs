//! The chart-description elements the document model carries: small typed
//! values and the pie-chart body assembled from them.

use vstd::prelude::*;
use vstd::string::StringExecFns;
use crate::seq_util::lemma_map_values_push;
use crate::strutil::{parse_u64, spec_decimal, spec_digits_value, spec_is_digits, str_eq,
    u64_to_string};
use crate::xml::{event_views, spec_get_attribute, XmlAttributeView, XmlEvent, XmlEventView,
    XmlTag, XmlTagView};

verus! {

/// How a serialized boolean attribute reads: the words "1" and "true" mean
/// true, everything else means false.
pub open spec fn spec_bool_of_text(v: Seq<char>) -> bool {
    v == "1"@ || v == "true"@
}

/// The serialized form of a boolean attribute value.
pub open spec fn spec_bool_text(b: bool) -> Seq<char> {
    if b {
        "1"@
    } else {
        "0"@
    }
}

/// The floor thickness of a 3-D chart, in points.
#[derive(Clone, Debug)]
pub struct Thickness {
    val: u32,
}

impl View for Thickness {
    type V = int;

    closed spec fn view(&self) -> int {
        self.val as int
    }
}

impl Default for Thickness {
    fn default() -> (r: Self)
        ensures
            r@ == 0,
    {
        Thickness { val: 0 }
    }
}

impl Thickness {
    pub fn get_val(&self) -> (r: &u32)
        ensures
            *r as int == self@,
    {
        &self.val
    }

    pub fn set_val(&mut self, value: u32)
        ensures
            final(self)@ == value as int,
    {
        self.val = value;
    }
}

/// The drawn outline of a chart part.
#[derive(Clone, Debug)]
pub struct ShapeProperties {
    preset_geometry: String,
}

impl View for ShapeProperties {
    type V = Seq<char>;

    closed spec fn view(&self) -> Seq<char> {
        self.preset_geometry@
    }
}

impl Default for ShapeProperties {
    fn default() -> (r: Self)
        ensures
            r@ == Seq::<char>::empty(),
    {
        ShapeProperties { preset_geometry: String::new() }
    }
}

impl ShapeProperties {
    pub fn get_preset_geometry(&self) -> (r: &str)
        ensures
            r@ == self@,
    {
        self.preset_geometry.as_str()
    }

    pub fn set_preset_geometry(&mut self, value: String)
        ensures
            final(self)@ == value@,
    {
        self.preset_geometry = value;
    }
}

/// Mathematical model of a chart floor.
pub struct FloorView {
    pub thickness: Option<int>,
    pub shape_properties: Option<Seq<char>>,
}

/// The floor of a 3-D chart: an optional thickness and optional outline.
#[derive(Clone, Debug)]
pub struct Floor {
    thickness: Option<Thickness>,
    shape_properties: Option<Box<ShapeProperties>>,
}

impl View for Floor {
    type V = FloorView;

    closed spec fn view(&self) -> FloorView {
        FloorView {
            thickness: match self.thickness {
                Some(t) => Some(t@),
                None => None,
            },
            shape_properties: match &self.shape_properties {
                Some(p) => Some(p@),
                None => None,
            },
        }
    }
}

impl Default for Floor {
    fn default() -> (r: Self)
        ensures
            r@.thickness is None,
            r@.shape_properties is None,
    {
        Floor { thickness: None, shape_properties: None }
    }
}

impl Floor {
    pub fn get_thickness(&self) -> (r: Option<&Thickness>)
        ensures
            match r {
                Some(t) => self@.thickness == Some(t@),
                None => self@.thickness is None,
            },
    {
        self.thickness.as_ref()
    }

    pub fn get_thickness_mut(&mut self) -> (r: Option<&mut Thickness>)
        ensures
            match r {
                Some(t) => old(self)@.thickness == Some(t@) && final(self)@ == (FloorView {
                    thickness: Some(final(t)@),
                    ..old(self)@
                }),
                None => old(self)@.thickness is None && final(self)@ == old(self)@,
            },
    {
        match &mut self.thickness {
            Some(t) => Some(t),
            None => None,
        }
    }

    pub fn set_thickness(&mut self, value: Thickness)
        ensures
            final(self)@ == (FloorView { thickness: Some(value@), ..old(self)@ }),
    {
        self.thickness = Some(value);
    }

    pub fn get_shape_properties(&self) -> (r: Option<&ShapeProperties>)
        ensures
            match r {
                Some(p) => self@.shape_properties == Some(p@),
                None => self@.shape_properties is None,
            },
    {
        match &self.shape_properties {
            Some(p) => Some(&**p),
            None => None,
        }
    }

    pub fn get_shape_properties_mut(&mut self) -> (r: Option<&mut ShapeProperties>)
        ensures
            match r {
                Some(p) => old(self)@.shape_properties == Some(p@) && final(self)@ == (FloorView {
                    shape_properties: Some(final(p)@),
                    ..old(self)@
                }),
                None => old(self)@.shape_properties is None && final(self)@ == old(self)@,
            },
    {
        match &mut self.shape_properties {
            Some(p) => Some(&mut **p),
            None => None,
        }
    }

    pub fn set_shape_properties(&mut self, value: ShapeProperties)
        ensures
            final(self)@ == (FloorView { shape_properties: Some(value@), ..old(self)@ }),
    {
        self.shape_properties = Some(Box::new(value));
    }

    /// Read this floor from the typed element stream, starting at `*pos`
    /// just inside its element, up to and including the end tag that closes
    /// it.  Returns whether the element closed properly; on failure `*pos`
    /// stays at the offending event.
    pub fn set_attributes(&mut self, events: &Vec<XmlEvent>, pos: &mut usize) -> (r: bool)
        requires
            *old(pos) <= events@.len(),
        ensures
            (r, final(self)@, *final(pos) as int) == spec_parse_floor(
                old(self)@,
                event_views(events@),
                *old(pos) as int,
            ),
            *final(pos) <= events@.len(),
    {
        let ghost evs = event_views(events@);
        let ghost goal = spec_parse_floor(old(self)@, evs, *old(pos) as int);
        loop
            invariant
                evs == event_views(events@),
                evs.len() == events@.len(),
                *pos <= events@.len(),
                goal == spec_parse_floor(old(self)@, evs, *old(pos) as int),
                goal == spec_parse_floor(self@, evs, *pos as int),
            decreases events@.len() - *pos,
        {
            let i = *pos;
            if i >= events.len() {
                return false;
            }
            proof {
                assert(evs[i as int] == events@[i as int]@);
            }
            match &events[i] {
                XmlEvent::EmptyTag(t) => {
                    let ghost prev = self@;
                    if str_eq(t.get_name(), "c:thickness") {
                        let val = match t.get_attribute("val") {
                            Some(v) => parse_u64(v),
                            None => None,
                        };
                        match val {
                            Some(n) => {
                                if n > u32::MAX as u64 {
                                    return false;
                                }
                                self.thickness = Some(Thickness { val: n as u32 });
                                proof {
                                    assert(spec_floor_with_empty_tag(prev, t@) == (true, self@));
                                }
                                *pos = i + 1;
                            },
                            None => {
                                return false;
                            },
                        }
                    } else if str_eq(t.get_name(), "c:spPr") {
                        let nm = match t.get_attribute("prst") {
                            Some(v) => String::from_str(v),
                            None => String::new(),
                        };
                        let mut props = ShapeProperties::default();
                        props.set_preset_geometry(nm);
                        self.shape_properties = Some(Box::new(props));
                        proof {
                            assert(spec_floor_with_empty_tag(prev, t@) == (true, self@));
                        }
                        *pos = i + 1;
                    } else {
                        *pos = i + 1;
                    }
                },
                XmlEvent::EndTag(name) => {
                    if str_eq(name.as_str(), "c:floor") {
                        *pos = i + 1;
                        return true;
                    } else {
                        *pos = i + 1;
                    }
                },
                XmlEvent::StartTag(_) => {
                    *pos = i + 1;
                },
                XmlEvent::Text(_) => {
                    *pos = i + 1;
                },
                XmlEvent::NumberText(_) => {
                    *pos = i + 1;
                },
                XmlEvent::Eof => {
                    return false;
                },
            }
        }
    }

    /// Append the canonical element-stream encoding of this floor to
    /// `events`.
    #[verifier::rlimit(50)]
    pub fn write_to(&self, events: &mut Vec<XmlEvent>)
        ensures
            event_views(final(events)@) == event_views(old(events)@) + spec_floor_events(self@),
    {
        events.push(XmlEvent::StartTag(XmlTag::new(String::from_str("c:floor"))));
        match &self.thickness {
            Some(t) => {
                let mut tag = XmlTag::new(String::from_str("c:thickness"));
                tag.add_attribute(String::from_str("val"), u64_to_string(t.val as u64));
                proof {
                    assert(tag@.attributes =~= seq![
                        XmlAttributeView { key: "val"@, value: spec_decimal(t.val as int) },
                    ]);
                }
                events.push(XmlEvent::EmptyTag(tag));
            },
            None => {},
        }
        match &self.shape_properties {
            Some(p) => {
                let mut tag = XmlTag::new(String::from_str("c:spPr"));
                tag.add_attribute(
                    String::from_str("prst"),
                    String::from_str(p.get_preset_geometry()),
                );
                proof {
                    assert(tag@.attributes =~= seq![
                        XmlAttributeView { key: "prst"@, value: p@ },
                    ]);
                }
                events.push(XmlEvent::EmptyTag(tag));
            },
            None => {},
        }
        events.push(XmlEvent::EndTag(String::from_str("c:floor")));
        proof {
            assert(event_views(events@) =~~= event_views(old(events)@) + spec_floor_events(
                self@,
            ));
        }
    }
}


/// The piece of a chart floor read from one empty child element: the
/// thickness carries a numeric `val` attribute (and is malformed when the
/// number is missing or out of range), the outline carries its preset name,
/// and any other element changes nothing.
pub open spec fn spec_floor_with_empty_tag(a: FloorView, t: XmlTagView) -> (bool, FloorView) {
    if t.name == "c:thickness"@ {
        match spec_get_attribute(t.attributes, "val"@) {
            Some(v) => if spec_is_digits(v) && v.len() > 0 && spec_digits_value(v) <= u32::MAX {
                (true, FloorView { thickness: Some(spec_digits_value(v)), ..a })
            } else {
                (false, a)
            },
            None => (false, a),
        }
    } else if t.name == "c:spPr"@ {
        let nm = match spec_get_attribute(t.attributes, "prst"@) {
            Some(v) => v,
            None => Seq::<char>::empty(),
        };
        (true, FloorView { shape_properties: Some(nm), ..a })
    } else {
        (true, a)
    }
}

/// The small-step meaning of parsing one chart-floor element from the typed
/// stream: each piece comes from an empty child element, and the matching
/// end tag closes the element.  A malformed piece, or the end of the
/// stream, stops the parse.
pub open spec fn spec_parse_floor(
    a: FloorView,
    evs: Seq<XmlEventView>,
    pos: int,
) -> (bool, FloorView, int)
    decreases evs.len() - pos,
{
    if pos < 0 || pos >= evs.len() {
        (false, a, pos)
    } else {
        match evs[pos] {
            XmlEventView::EmptyTag(t) => {
                let step = spec_floor_with_empty_tag(a, t);
                if step.0 {
                    spec_parse_floor(step.1, evs, pos + 1)
                } else {
                    (false, a, pos)
                }
            },
            XmlEventView::EndTag(n) => {
                if n == "c:floor"@ {
                    (true, a, pos + 1)
                } else {
                    spec_parse_floor(a, evs, pos + 1)
                }
            },
            XmlEventView::StartTag(t) => spec_parse_floor(a, evs, pos + 1),
            XmlEventView::Text(t) => spec_parse_floor(a, evs, pos + 1),
            XmlEventView::NumberText(n) => spec_parse_floor(a, evs, pos + 1),
            XmlEventView::Eof => (false, a, pos),
        }
    }
}

/// The canonical element-stream encoding of a chart floor: its optional
/// pieces wrapped in the floor element.
pub open spec fn spec_floor_events(a: FloorView) -> Seq<XmlEventView> {
    seq![XmlEventView::StartTag(XmlTagView { name: "c:floor"@, attributes: Seq::empty() })]
        + (match a.thickness {
        Some(v) => seq![
            XmlEventView::EmptyTag(
                XmlTagView {
                    name: "c:thickness"@,
                    attributes: seq![XmlAttributeView { key: "val"@, value: spec_decimal(v) }],
                },
            ),
        ],
        None => Seq::<XmlEventView>::empty(),
    }) + (match a.shape_properties {
        Some(nm) => seq![
            XmlEventView::EmptyTag(
                XmlTagView {
                    name: "c:spPr"@,
                    attributes: seq![XmlAttributeView { key: "prst"@, value: nm }],
                },
            ),
        ],
        None => Seq::<XmlEventView>::empty(),
    }) + seq![XmlEventView::EndTag("c:floor"@)]
}

/// Whether a chart varies the colors of its data points.
#[derive(Clone, Debug)]
pub struct VaryColors {
    val: bool,
}

impl View for VaryColors {
    type V = bool;

    closed spec fn view(&self) -> bool {
        self.val
    }
}

impl Default for VaryColors {
    fn default() -> (r: Self)
        ensures
            !r@,
    {
        VaryColors { val: false }
    }
}

impl VaryColors {
    pub fn get_val(&self) -> (r: &bool)
        ensures
            *r == self@,
    {
        &self.val
    }

    pub fn set_val(&mut self, value: bool)
        ensures
            final(self)@ == value,
    {
        self.val = value;
    }
}

/// The angle of the first slice of a pie chart, in degrees.
#[derive(Clone, Debug)]
pub struct FirstSliceAngle {
    val: u16,
}

impl View for FirstSliceAngle {
    type V = int;

    closed spec fn view(&self) -> int {
        self.val as int
    }
}

impl Default for FirstSliceAngle {
    fn default() -> (r: Self)
        ensures
            r@ == 0,
    {
        FirstSliceAngle { val: 0 }
    }
}

impl FirstSliceAngle {
    pub fn get_val(&self) -> (r: &u16)
        ensures
            *r as int == self@,
    {
        &self.val
    }

    pub fn set_val(&mut self, value: u16)
        ensures
            final(self)@ == value as int,
    {
        self.val = value;
    }
}

/// Whether data labels draw leader lines to their points.
#[derive(Clone, Debug)]
pub struct ShowLeaderLines {
    val: bool,
}

impl View for ShowLeaderLines {
    type V = bool;

    closed spec fn view(&self) -> bool {
        self.val
    }
}

impl Default for ShowLeaderLines {
    fn default() -> (r: Self)
        ensures
            !r@,
    {
        ShowLeaderLines { val: false }
    }
}

impl ShowLeaderLines {
    pub fn get_val(&self) -> (r: &bool)
        ensures
            *r == self@,
    {
        &self.val
    }

    pub fn set_val(&mut self, value: bool)
        ensures
            final(self)@ == value,
    {
        self.val = value;
    }
}

/// Whether a 3-D chart draws its axes at right angles.
#[derive(Clone, Debug)]
pub struct RightAngleAxes {
    val: bool,
}

impl View for RightAngleAxes {
    type V = bool;

    closed spec fn view(&self) -> bool {
        self.val
    }
}

impl Default for RightAngleAxes {
    fn default() -> (r: Self)
        ensures
            !r@,
    {
        RightAngleAxes { val: false }
    }
}

impl RightAngleAxes {
    pub fn get_val(&self) -> (r: &bool)
        ensures
            *r == self@,
    {
        &self.val
    }

    pub fn set_val(&mut self, value: bool)
        ensures
            final(self)@ == value,
    {
        self.val = value;
    }
}

/// How far bars of adjacent series overlap, as a signed percentage.
#[derive(Clone, Debug)]
pub struct Overlap {
    val: i8,
}

impl View for Overlap {
    type V = int;

    closed spec fn view(&self) -> int {
        self.val as int
    }
}

impl Default for Overlap {
    fn default() -> (r: Self)
        ensures
            r@ == 0,
    {
        Overlap { val: 0 }
    }
}

impl Overlap {
    pub fn get_val(&self) -> (r: &i8)
        ensures
            *r as int == self@,
    {
        &self.val
    }

    pub fn set_val(&mut self, value: i8)
        ensures
            final(self)@ == value as int,
    {
        self.val = value;
    }
}

/// How a manual layout places a chart edge.
#[derive(Clone, Copy, Debug, PartialEq, Eq, Structural)]
pub enum LayoutModeValues {
    Edge,
    Factor,
}

/// The layout mode of the top edge of a manually laid-out chart element.
#[derive(Clone, Debug)]
pub struct TopMode {
    val: LayoutModeValues,
}

impl View for TopMode {
    type V = LayoutModeValues;

    closed spec fn view(&self) -> LayoutModeValues {
        self.val
    }
}

impl Default for TopMode {
    fn default() -> (r: Self)
        ensures
            r@ == LayoutModeValues::Factor,
    {
        TopMode { val: LayoutModeValues::Factor }
    }
}

impl TopMode {
    pub fn get_val(&self) -> (r: &LayoutModeValues)
        ensures
            *r == self@,
    {
        &self.val
    }

    pub fn set_val(&mut self, value: LayoutModeValues)
        ensures
            final(self)@ == value,
    {
        self.val = value;
    }
}

/// The data labels of a chart: whether they are shown with leader lines.
#[derive(Clone, Debug)]
pub struct DataLabels {
    show_leader_lines: ShowLeaderLines,
}

impl View for DataLabels {
    type V = bool;

    closed spec fn view(&self) -> bool {
        self.show_leader_lines@
    }
}

impl Default for DataLabels {
    fn default() -> (r: Self)
        ensures
            !r@,
    {
        DataLabels { show_leader_lines: ShowLeaderLines::default() }
    }
}

impl DataLabels {
    pub fn get_show_leader_lines(&self) -> (r: &ShowLeaderLines)
        ensures
            r@ == self@,
    {
        &self.show_leader_lines
    }

    pub fn set_show_leader_lines(&mut self, value: ShowLeaderLines)
        ensures
            final(self)@ == value@,
    {
        self.show_leader_lines = value;
    }
}

/// One plotted series: the formula that names its data range.
#[derive(Clone, Debug)]
pub struct AreaChartSeries {
    formula: String,
}

impl View for AreaChartSeries {
    type V = Seq<char>;

    closed spec fn view(&self) -> Seq<char> {
        self.formula@
    }
}

impl Default for AreaChartSeries {
    fn default() -> (r: Self)
        ensures
            r@ == Seq::<char>::empty(),
    {
        AreaChartSeries { formula: String::new() }
    }
}

impl AreaChartSeries {
    pub fn get_formula(&self) -> (r: &str)
        ensures
            r@ == self@,
    {
        self.formula.as_str()
    }

    pub fn set_formula(&mut self, value: String)
        ensures
            final(self)@ == value@,
    {
        self.formula = value;
    }
}

pub open spec fn series_views(s: Seq<AreaChartSeries>) -> Seq<Seq<char>> {
    s.map_values(|x: AreaChartSeries| x@)
}

/// The plotted series of one chart, in insertion order.
#[derive(Clone, Debug)]
pub struct AreaChartSeriesList {
    list: Vec<AreaChartSeries>,
}

impl View for AreaChartSeriesList {
    type V = Seq<Seq<char>>;

    closed spec fn view(&self) -> Seq<Seq<char>> {
        series_views(self.list@)
    }
}

impl Default for AreaChartSeriesList {
    fn default() -> (r: Self)
        ensures
            r@.len() == 0,
    {
        AreaChartSeriesList { list: Vec::new() }
    }
}

impl AreaChartSeriesList {
    pub fn get_area_chart_series(&self) -> (r: &Vec<AreaChartSeries>)
        ensures
            series_views(r@) == self@,
    {
        &self.list
    }

    pub fn add_area_chart_series(&mut self, value: AreaChartSeries)
        ensures
            final(self)@ == old(self)@.push(value@),
    {
        self.list.push(value);
        proof {
            assert(series_views(self.list@) =~= series_views(old(self).list@).push(value@));
        }
    }
}


/// The piece of a pie chart read from one empty child element: the color
/// flag and slice angle carry a `val` attribute (the angle must be a number
/// within range), a series carries its formula, the leader-line flag of the
/// data labels carries a `val` attribute, and any other element changes
/// nothing.
pub open spec fn spec_pie_with_empty_tag(a: PieChartView, t: XmlTagView) -> (bool, PieChartView) {
    if t.name == "c:varyColors"@ {
        match spec_get_attribute(t.attributes, "val"@) {
            Some(v) => (true, PieChartView { vary_colors: spec_bool_of_text(v), ..a }),
            None => (false, a),
        }
    } else if t.name == "c:firstSliceAng"@ {
        match spec_get_attribute(t.attributes, "val"@) {
            Some(v) => if spec_is_digits(v) && v.len() > 0 && spec_digits_value(v) <= u16::MAX {
                (true, PieChartView { first_slice_angle: spec_digits_value(v), ..a })
            } else {
                (false, a)
            },
            None => (false, a),
        }
    } else if t.name == "c:ser"@ {
        let f = match spec_get_attribute(t.attributes, "formula"@) {
            Some(v) => v,
            None => Seq::<char>::empty(),
        };
        (true, PieChartView { series: a.series.push(f), ..a })
    } else if t.name == "c:showLeaderLines"@ {
        match spec_get_attribute(t.attributes, "val"@) {
            Some(v) => (true, PieChartView { data_labels: spec_bool_of_text(v), ..a }),
            None => (false, a),
        }
    } else {
        (true, a)
    }
}

/// The small-step meaning of parsing one pie-chart element from the typed
/// stream: every piece comes from an empty child element, and the matching
/// end tag closes the element.  A malformed piece, or the end of the
/// stream, stops the parse.
pub open spec fn spec_parse_pie_chart(
    a: PieChartView,
    evs: Seq<XmlEventView>,
    pos: int,
) -> (bool, PieChartView, int)
    decreases evs.len() - pos,
{
    if pos < 0 || pos >= evs.len() {
        (false, a, pos)
    } else {
        match evs[pos] {
            XmlEventView::EmptyTag(t) => {
                let step = spec_pie_with_empty_tag(a, t);
                if step.0 {
                    spec_parse_pie_chart(step.1, evs, pos + 1)
                } else {
                    (false, a, pos)
                }
            },
            XmlEventView::EndTag(n) => {
                if n == "c:pieChart"@ {
                    (true, a, pos + 1)
                } else {
                    spec_parse_pie_chart(a, evs, pos + 1)
                }
            },
            XmlEventView::StartTag(t) => spec_parse_pie_chart(a, evs, pos + 1),
            XmlEventView::Text(t) => spec_parse_pie_chart(a, evs, pos + 1),
            XmlEventView::NumberText(n) => spec_parse_pie_chart(a, evs, pos + 1),
            XmlEventView::Eof => (false, a, pos),
        }
    }
}

/// Mathematical model of a pie chart.
pub struct PieChartView {
    pub vary_colors: bool,
    pub series: Seq<Seq<char>>,
    pub data_labels: bool,
    pub first_slice_angle: int,
}


/// The canonical `c:ser` encoding of one series.
pub open spec fn spec_series_event(f: Seq<char>) -> XmlEventView {
    XmlEventView::EmptyTag(
        XmlTagView {
            name: "c:ser"@,
            attributes: seq![XmlAttributeView { key: "formula"@, value: f }],
        },
    )
}

/// The canonical element-stream encoding of a pie chart: its color flag,
/// its series in order, its data labels, and its first-slice angle, wrapped
/// in the chart element.
pub open spec fn spec_pie_chart_events(a: PieChartView) -> Seq<XmlEventView> {
    seq![
        XmlEventView::StartTag(XmlTagView { name: "c:pieChart"@, attributes: Seq::empty() }),
        XmlEventView::EmptyTag(
            XmlTagView {
                name: "c:varyColors"@,
                attributes: seq![
                    XmlAttributeView { key: "val"@, value: spec_bool_text(a.vary_colors) },
                ],
            },
        ),
    ] + a.series.map_values(|f: Seq<char>| spec_series_event(f)) + seq![
        XmlEventView::StartTag(XmlTagView { name: "c:dLbls"@, attributes: Seq::empty() }),
        XmlEventView::EmptyTag(
            XmlTagView {
                name: "c:showLeaderLines"@,
                attributes: seq![
                    XmlAttributeView { key: "val"@, value: spec_bool_text(a.data_labels) },
                ],
            },
        ),
        XmlEventView::EndTag("c:dLbls"@),
        XmlEventView::EmptyTag(
            XmlTagView {
                name: "c:firstSliceAng"@,
                attributes: seq![
                    XmlAttributeView { key: "val"@, value: spec_decimal(a.first_slice_angle) },
                ],
            },
        ),
        XmlEventView::EndTag("c:pieChart"@),
    ]
}

/// A pie chart: its color policy, its series, its data labels, and the
/// angle of the first slice.
#[derive(Clone, Debug)]
pub struct PieChart {
    vary_colors: VaryColors,
    area_chart_series_list: AreaChartSeriesList,
    data_labels: DataLabels,
    first_slice_angle: FirstSliceAngle,
}

impl View for PieChart {
    type V = PieChartView;

    closed spec fn view(&self) -> PieChartView {
        PieChartView {
            vary_colors: self.vary_colors@,
            series: self.area_chart_series_list@,
            data_labels: self.data_labels@,
            first_slice_angle: self.first_slice_angle@,
        }
    }
}

impl Default for PieChart {
    fn default() -> (r: Self)
        ensures
            !r@.vary_colors,
            r@.series.len() == 0,
            !r@.data_labels,
            r@.first_slice_angle == 0,
    {
        PieChart {
            vary_colors: VaryColors::default(),
            area_chart_series_list: AreaChartSeriesList::default(),
            data_labels: DataLabels::default(),
            first_slice_angle: FirstSliceAngle::default(),
        }
    }
}

impl PieChart {
    pub fn get_vary_colors(&self) -> (r: &VaryColors)
        ensures
            r@ == self@.vary_colors,
    {
        &self.vary_colors
    }

    pub fn get_vary_colors_mut(&mut self) -> (r: &mut VaryColors)
        ensures
            r@ == old(self)@.vary_colors,
            final(self)@ == (PieChartView { vary_colors: final(r)@, ..old(self)@ }),
    {
        &mut self.vary_colors
    }

    pub fn set_vary_colors(&mut self, value: VaryColors)
        ensures
            final(self)@ == (PieChartView { vary_colors: value@, ..old(self)@ }),
    {
        self.vary_colors = value;
    }

    pub fn get_area_chart_series_list(&self) -> (r: &AreaChartSeriesList)
        ensures
            r@ == self@.series,
    {
        &self.area_chart_series_list
    }

    pub fn get_area_chart_series_list_mut(&mut self) -> (r: &mut AreaChartSeriesList)
        ensures
            r@ == old(self)@.series,
            final(self)@ == (PieChartView { series: final(r)@, ..old(self)@ }),
    {
        &mut self.area_chart_series_list
    }

    pub fn set_area_chart_series_list(&mut self, value: AreaChartSeriesList)
        ensures
            final(self)@ == (PieChartView { series: value@, ..old(self)@ }),
    {
        self.area_chart_series_list = value;
    }

    pub fn get_data_labels(&self) -> (r: &DataLabels)
        ensures
            r@ == self@.data_labels,
    {
        &self.data_labels
    }

    pub fn get_data_labels_mut(&mut self) -> (r: &mut DataLabels)
        ensures
            r@ == old(self)@.data_labels,
            final(self)@ == (PieChartView { data_labels: final(r)@, ..old(self)@ }),
    {
        &mut self.data_labels
    }

    pub fn set_data_labels(&mut self, value: DataLabels)
        ensures
            final(self)@ == (PieChartView { data_labels: value@, ..old(self)@ }),
    {
        self.data_labels = value;
    }

    pub fn get_first_slice_angle(&self) -> (r: &FirstSliceAngle)
        ensures
            r@ == self@.first_slice_angle,
    {
        &self.first_slice_angle
    }

    pub fn get_first_slice_angle_mut(&mut self) -> (r: &mut FirstSliceAngle)
        ensures
            r@ == old(self)@.first_slice_angle,
            final(self)@ == (PieChartView { first_slice_angle: final(r)@, ..old(self)@ }),
    {
        &mut self.first_slice_angle
    }

    pub fn set_first_slice_angle(&mut self, value: FirstSliceAngle)
        ensures
            final(self)@ == (PieChartView { first_slice_angle: value@, ..old(self)@ }),
    {
        self.first_slice_angle = value;
    }


    /// Append the canonical element-stream encoding of this pie chart to
    /// `events`.
    #[verifier::rlimit(80)]
    pub fn write_to(&self, events: &mut Vec<XmlEvent>)
        ensures
            event_views(final(events)@) == event_views(old(events)@) + spec_pie_chart_events(
                self@,
            ),
    {
        events.push(XmlEvent::StartTag(XmlTag::new(String::from_str("c:pieChart"))));
        let mut vary = XmlTag::new(String::from_str("c:varyColors"));
        if *self.vary_colors.get_val() {
            vary.add_attribute(String::from_str("val"), String::from_str("1"));
        } else {
            vary.add_attribute(String::from_str("val"), String::from_str("0"));
        }
        proof {
            assert(vary@.attributes =~= seq![
                XmlAttributeView { key: "val"@, value: spec_bool_text(self@.vary_colors) },
            ]);
        }
        events.push(XmlEvent::EmptyTag(vary));
        let ghost after_head = event_views(events@);
        let series = self.area_chart_series_list.get_area_chart_series();
        let n = series.len();
        let mut idx: usize = 0;
        proof {
            assert(self@.series.subrange(0, 0) =~= Seq::<Seq<char>>::empty());
            assert(self@.series.subrange(0, 0).map_values(|f: Seq<char>| spec_series_event(f))
                =~= Seq::<XmlEventView>::empty());
            assert(event_views(events@) =~= after_head + self@.series.subrange(0, 0).map_values(
                |f: Seq<char>| spec_series_event(f),
            ));
        }
        while idx < n
            invariant
                n == series@.len(),
                n == self@.series.len(),
                idx <= n,
                forall|j: int| 0 <= j < n ==> self@.series[j] == (#[trigger] series@[j])@,
                event_views(events@) == after_head + self@.series.subrange(0, idx as int)
                    .map_values(|f: Seq<char>| spec_series_event(f)),
            decreases n - idx,
        {
            let one = &series[idx];
            let mut tag = XmlTag::new(String::from_str("c:ser"));
            tag.add_attribute(String::from_str("formula"), String::from_str(one.get_formula()));
            proof {
                assert(XmlEventView::EmptyTag(tag@) =~~= spec_series_event(one@));
            }
            let ghost before_push = event_views(events@);
            events.push(XmlEvent::EmptyTag(tag));
            proof {
                assert(event_views(events@) =~= before_push.push(spec_series_event(one@)));
                assert(self@.series.subrange(0, idx + 1) =~= self@.series.subrange(
                    0,
                    idx as int,
                ).push(one@));
                lemma_map_values_push(
                    self@.series.subrange(0, idx as int),
                    |f: Seq<char>| spec_series_event(f),
                    one@,
                );
            }
            idx += 1;
        }
        proof {
            assert(self@.series.subrange(0, n as int) =~= self@.series);
        }
        let ghost after_series = event_views(events@);
        events.push(XmlEvent::StartTag(XmlTag::new(String::from_str("c:dLbls"))));
        let mut lines = XmlTag::new(String::from_str("c:showLeaderLines"));
        if *self.data_labels.get_show_leader_lines().get_val() {
            lines.add_attribute(String::from_str("val"), String::from_str("1"));
        } else {
            lines.add_attribute(String::from_str("val"), String::from_str("0"));
        }
        proof {
            assert(lines@.attributes =~= seq![
                XmlAttributeView { key: "val"@, value: spec_bool_text(self@.data_labels) },
            ]);
        }
        events.push(XmlEvent::EmptyTag(lines));
        events.push(XmlEvent::EndTag(String::from_str("c:dLbls")));
        let mut angle = XmlTag::new(String::from_str("c:firstSliceAng"));
        angle.add_attribute(
            String::from_str("val"),
            u64_to_string(*self.first_slice_angle.get_val() as u64),
        );
        proof {
            assert(angle@.attributes =~= seq![
                XmlAttributeView { key: "val"@, value: spec_decimal(self@.first_slice_angle) },
            ]);
        }
        events.push(XmlEvent::EmptyTag(angle));
        events.push(XmlEvent::EndTag(String::from_str("c:pieChart")));
        proof {
            assert(event_views(events@) =~~= after_series + seq![
                XmlEventView::StartTag(XmlTagView { name: "c:dLbls"@, attributes: Seq::empty() }),
                XmlEventView::EmptyTag(
                    XmlTagView {
                        name: "c:showLeaderLines"@,
                        attributes: seq![
                            XmlAttributeView {
                                key: "val"@,
                                value: spec_bool_text(self@.data_labels),
                            },
                        ],
                    },
                ),
                XmlEventView::EndTag("c:dLbls"@),
                XmlEventView::EmptyTag(
                    XmlTagView {
                        name: "c:firstSliceAng"@,
                        attributes: seq![
                            XmlAttributeView {
                                key: "val"@,
                                value: spec_decimal(self@.first_slice_angle),
                            },
                        ],
                    },
                ),
                XmlEventView::EndTag("c:pieChart"@),
            ]);
            assert(after_head =~~= event_views(old(events)@) + seq![
                XmlEventView::StartTag(
                    XmlTagView { name: "c:pieChart"@, attributes: Seq::empty() },
                ),
                XmlEventView::EmptyTag(
                    XmlTagView {
                        name: "c:varyColors"@,
                        attributes: seq![
                            XmlAttributeView {
                                key: "val"@,
                                value: spec_bool_text(self@.vary_colors),
                            },
                        ],
                    },
                ),
            ]);
            assert(event_views(events@) =~~= event_views(old(events)@) + spec_pie_chart_events(
                self@,
            ));
        }
    }

    /// Read this pie chart from the typed element stream, starting at
    /// `*pos` just inside its element, up to and including the end tag that
    /// closes it.  Returns whether the element closed properly; on failure
    /// `*pos` stays at the offending event.
    pub fn set_attributes(&mut self, events: &Vec<XmlEvent>, pos: &mut usize) -> (r: bool)
        requires
            *old(pos) <= events@.len(),
        ensures
            (r, final(self)@, *final(pos) as int) == spec_parse_pie_chart(
                old(self)@,
                event_views(events@),
                *old(pos) as int,
            ),
            *final(pos) <= events@.len(),
    {
        let ghost evs = event_views(events@);
        let ghost goal = spec_parse_pie_chart(old(self)@, evs, *old(pos) as int);
        loop
            invariant
                evs == event_views(events@),
                evs.len() == events@.len(),
                *pos <= events@.len(),
                goal == spec_parse_pie_chart(old(self)@, evs, *old(pos) as int),
                goal == spec_parse_pie_chart(self@, evs, *pos as int),
            decreases events@.len() - *pos,
        {
            let i = *pos;
            if i >= events.len() {
                return false;
            }
            proof {
                assert(evs[i as int] == events@[i as int]@);
            }
            match &events[i] {
                XmlEvent::EmptyTag(t) => {
                    let ghost prev = self@;
                    if str_eq(t.get_name(), "c:varyColors") {
                        match t.get_attribute("val") {
                            Some(v) => {
                                let flag = str_eq(v, "1") || str_eq(v, "true");
                                self.vary_colors.set_val(flag);
                                proof {
                                    assert(spec_pie_with_empty_tag(prev, t@) == (true, self@));
                                }
                                *pos = i + 1;
                            },
                            None => {
                                return false;
                            },
                        }
                    } else if str_eq(t.get_name(), "c:firstSliceAng") {
                        let angle = match t.get_attribute("val") {
                            Some(v) => parse_u64(v),
                            None => None,
                        };
                        match angle {
                            Some(n) => {
                                if n > u16::MAX as u64 {
                                    return false;
                                }
                                self.first_slice_angle.set_val(n as u16);
                                proof {
                                    assert(spec_pie_with_empty_tag(prev, t@) == (true, self@));
                                }
                                *pos = i + 1;
                            },
                            None => {
                                return false;
                            },
                        }
                    } else if str_eq(t.get_name(), "c:ser") {
                        let formula = match t.get_attribute("formula") {
                            Some(v) => String::from_str(v),
                            None => String::new(),
                        };
                        let mut series = AreaChartSeries::default();
                        series.set_formula(formula);
                        self.area_chart_series_list.add_area_chart_series(series);
                        proof {
                            assert(spec_pie_with_empty_tag(prev, t@) == (true, self@));
                        }
                        *pos = i + 1;
                    } else if str_eq(t.get_name(), "c:showLeaderLines") {
                        match t.get_attribute("val") {
                            Some(v) => {
                                let flag = str_eq(v, "1") || str_eq(v, "true");
                                let mut lines = ShowLeaderLines::default();
                                lines.set_val(flag);
                                self.data_labels.set_show_leader_lines(lines);
                                proof {
                                    assert(spec_pie_with_empty_tag(prev, t@) == (true, self@));
                                }
                                *pos = i + 1;
                            },
                            None => {
                                return false;
                            },
                        }
                    } else {
                        *pos = i + 1;
                    }
                },
                XmlEvent::EndTag(name) => {
                    if str_eq(name.as_str(), "c:pieChart") {
                        *pos = i + 1;
                        return true;
                    } else {
                        *pos = i + 1;
                    }
                },
                XmlEvent::StartTag(_) => {
                    *pos = i + 1;
                },
                XmlEvent::Text(_) => {
                    *pos = i + 1;
                },
                XmlEvent::NumberText(_) => {
                    *pos = i + 1;
                },
                XmlEvent::Eof => {
                    return false;
                },
            }
        }
    }
}


impl RightAngleAxes {
    /// Read the value from the `val` attribute of the element's tag.
    /// Returns false, changing nothing, when the attribute is missing.
    pub fn set_attributes(&mut self, tag: &XmlTag) -> (r: bool)
        ensures
            match spec_get_attribute(tag@.attributes, "val"@) {
                Some(v) => r && final(self)@ == spec_bool_of_text(v),
                None => !r && final(self)@ == old(self)@,
            },
    {
        match tag.get_attribute("val") {
            Some(v) => {
                self.val = str_eq(v, "1") || str_eq(v, "true");
                true
            },
            None => false,
        }
    }

    /// Append this element's canonical encoding: one empty `c:rAngAx` tag
    /// carrying the value in its `val` attribute.
    pub fn write_to(&self, events: &mut Vec<XmlEvent>)
        ensures
            event_views(final(events)@) == event_views(old(events)@).push(
                XmlEventView::EmptyTag(
                    XmlTagView {
                        name: "c:rAngAx"@,
                        attributes: seq![
                            XmlAttributeView { key: "val"@, value: spec_bool_text(self@) },
                        ],
                    },
                ),
            ),
    {
        let mut tag = XmlTag::new(String::from_str("c:rAngAx"));
        if self.val {
            tag.add_attribute(String::from_str("val"), String::from_str("1"));
        } else {
            tag.add_attribute(String::from_str("val"), String::from_str("0"));
        }
        events.push(XmlEvent::EmptyTag(tag));
        proof {
            assert(Seq::<XmlAttributeView>::empty().push(
                XmlAttributeView { key: "val"@, value: spec_bool_text(self@) },
            ) =~= seq![XmlAttributeView { key: "val"@, value: spec_bool_text(self@) }]);
            assert(event_views(events@) =~= event_views(old(events)@).push(
                XmlEventView::EmptyTag(
                    XmlTagView {
                        name: "c:rAngAx"@,
                        attributes: seq![
                            XmlAttributeView { key: "val"@, value: spec_bool_text(self@) },
                        ],
                    },
                ),
            ));
        }
    }
}

impl ShowLeaderLines {
    /// Read the value from the `val` attribute of the element's tag.
    /// Returns false, changing nothing, when the attribute is missing.
    pub fn set_attributes(&mut self, tag: &XmlTag) -> (r: bool)
        ensures
            match spec_get_attribute(tag@.attributes, "val"@) {
                Some(v) => r && final(self)@ == spec_bool_of_text(v),
                None => !r && final(self)@ == old(self)@,
            },
    {
        match tag.get_attribute("val") {
            Some(v) => {
                self.val = str_eq(v, "1") || str_eq(v, "true");
                true
            },
            None => false,
        }
    }

    /// Append this element's canonical encoding: one empty `c:showLeaderLines` tag
    /// carrying the value in its `val` attribute.
    pub fn write_to(&self, events: &mut Vec<XmlEvent>)
        ensures
            event_views(final(events)@) == event_views(old(events)@).push(
                XmlEventView::EmptyTag(
                    XmlTagView {
                        name: "c:showLeaderLines"@,
                        attributes: seq![
                            XmlAttributeView { key: "val"@, value: spec_bool_text(self@) },
                        ],
                    },
                ),
            ),
    {
        let mut tag = XmlTag::new(String::from_str("c:showLeaderLines"));
        if self.val {
            tag.add_attribute(String::from_str("val"), String::from_str("1"));
        } else {
            tag.add_attribute(String::from_str("val"), String::from_str("0"));
        }
        events.push(XmlEvent::EmptyTag(tag));
        proof {
            assert(Seq::<XmlAttributeView>::empty().push(
                XmlAttributeView { key: "val"@, value: spec_bool_text(self@) },
            ) =~= seq![XmlAttributeView { key: "val"@, value: spec_bool_text(self@) }]);
            assert(event_views(events@) =~= event_views(old(events)@).push(
                XmlEventView::EmptyTag(
                    XmlTagView {
                        name: "c:showLeaderLines"@,
                        attributes: seq![
                            XmlAttributeView { key: "val"@, value: spec_bool_text(self@) },
                        ],
                    },
                ),
            ));
        }
    }
}

} // verus!

//! The per-sheet drawing collection: four ordered sequences of anchored
//! objects partitioned by kind.  A structural edit fans out to every owned
//! object; a removal first discards every object whose whole bounding box
//! lies inside the removed window (tested against the pre-edit coordinates)
//! and only then shifts the survivors.  Insertion order is preserved by both
//! operations.

use vstd::prelude::*;
use crate::chart::{chart_after_insert, chart_after_insert_with_sheet, chart_after_remove,
    chart_after_remove_with_sheet, chart_insert_fits, chart_is_removed, Chart, ChartView};
use crate::cell_range::range_insert_fits;
use crate::content::{ConnectionShape, GraphicFrame, Picture, Shape};
use crate::image::{image_after_insert, image_after_remove, image_insert_fits, image_is_removed,
    Image, ImageView};
use crate::one_cell_anchor::{one_cell_after_insert, one_cell_after_remove, one_cell_insert_fits,
    one_cell_is_removed, OneCellAnchor, OneCellAnchorView};
use crate::cell_range::CellRangeView;
use crate::marker::MarkerView;
use crate::ole_objects::OleObjects;
use crate::ole_object::OleObjectView;
use crate::one_cell_anchor::{spec_one_cell_events, spec_parse_one_cell, OneCellContentView};
use crate::strutil::str_eq;
use crate::two_cell_anchor::spec_parse_two_cell;
use crate::image::spec_image_events;
use crate::seq_util::{lemma_filter_map_push, lemma_filter_push};
use crate::two_cell_anchor::spec_two_cell_events;
use crate::xml::{event_views, XmlAttributeView, XmlEvent, XmlEventView, XmlTag, XmlTagView};
use vstd::string::StringExecFns;
use crate::two_cell_anchor::{two_cell_after_insert, two_cell_after_remove, two_cell_insert_fits,
    two_cell_is_removed, TwoCellAnchor, TwoCellAnchorView, TwoCellContentView};

verus! {

pub open spec fn image_views(s: Seq<Image>) -> Seq<ImageView> {
    s.map_values(|x: Image| x@)
}

pub open spec fn chart_views(s: Seq<Chart>) -> Seq<ChartView> {
    s.map_values(|x: Chart| x@)
}

pub open spec fn one_cell_views(s: Seq<OneCellAnchor>) -> Seq<OneCellAnchorView> {
    s.map_values(|x: OneCellAnchor| x@)
}

pub open spec fn two_cell_views(s: Seq<TwoCellAnchor>) -> Seq<TwoCellAnchorView> {
    s.map_values(|x: TwoCellAnchor| x@)
}


/// The concatenated anchor encodings of a sequence of charts.
pub open spec fn spec_chart_list_events(s: Seq<ChartView>) -> Seq<XmlEventView>
    decreases s.len(),
{
    if s.len() == 0 {
        Seq::empty()
    } else {
        spec_chart_list_events(s.drop_last()) + spec_two_cell_events(s.last().anchor)
    }
}

/// The concatenated encodings of a sequence of images.
pub open spec fn spec_image_list_events(s: Seq<ImageView>) -> Seq<XmlEventView>
    decreases s.len(),
{
    if s.len() == 0 {
        Seq::empty()
    } else {
        spec_image_list_events(s.drop_last()) + spec_image_events(s.last())
    }
}

/// The concatenated encodings of a sequence of range anchors.
pub open spec fn spec_two_cell_list_events(s: Seq<TwoCellAnchorView>) -> Seq<XmlEventView>
    decreases s.len(),
{
    if s.len() == 0 {
        Seq::empty()
    } else {
        spec_two_cell_list_events(s.drop_last()) + spec_two_cell_events(s.last())
    }
}

/// The concatenated encodings of a sequence of point anchors.
pub open spec fn spec_one_cell_list_events(s: Seq<OneCellAnchorView>) -> Seq<XmlEventView>
    decreases s.len(),
{
    if s.len() == 0 {
        Seq::empty()
    } else {
        spec_one_cell_list_events(s.drop_last()) + spec_one_cell_events(s.last())
    }
}

/// The concatenated anchor encodings of a sequence of embedded objects.
pub open spec fn spec_ole_list_events(s: Seq<OleObjectView>) -> Seq<XmlEventView>
    decreases s.len(),
{
    if s.len() == 0 {
        Seq::empty()
    } else {
        spec_ole_list_events(s.drop_last()) + spec_two_cell_events(s.last().anchor)
    }
}

/// The canonical element-stream encoding of the whole drawing part: the
/// root element with its two namespace declarations, then the chart,
/// image, plain range-anchor, plain point-anchor, and embedded-object
/// anchors, in that order.
pub open spec fn spec_drawing_events(
    v: WorksheetDrawingView,
    oles: Seq<OleObjectView>,
) -> Seq<XmlEventView> {
    seq![
        XmlEventView::StartTag(
            XmlTagView {
                name: "xdr:wsDr"@,
                attributes: seq![
                    XmlAttributeView {
                        key: "xmlns:xdr"@,
                        value: "http://schemas.openxmlformats.org/drawingml/2006/spreadsheetDrawing"@,
                    },
                    XmlAttributeView {
                        key: "xmlns:a"@,
                        value: "http://schemas.openxmlformats.org/drawingml/2006/main"@,
                    },
                ],
            },
        ),
    ] + spec_chart_list_events(v.charts) + spec_image_list_events(v.images)
        + spec_two_cell_list_events(v.two_cells) + spec_one_cell_list_events(v.one_cells)
        + spec_ole_list_events(oles) + seq![XmlEventView::EndTag("xdr:wsDr"@)]
}


/// A freshly constructed point anchor, as the load path starts one.
pub open spec fn spec_fresh_one_cell() -> OneCellAnchorView {
    OneCellAnchorView {
        from: MarkerView { col: 1, col_off: 0, row: 1, row_off: 0 },
        width: 0,
        height: 0,
        content: OneCellContentView::Empty,
    }
}

/// A freshly constructed range anchor, as the load path starts one.
pub open spec fn spec_fresh_two_cell() -> TwoCellAnchorView {
    TwoCellAnchorView {
        from: MarkerView { col: 1, col_off: 0, row: 1, row_off: 0 },
        to: MarkerView { col: 1, col_off: 0, row: 1, row_off: 0 },
        is_alternate_content: false,
        content: TwoCellContentView::Empty,
    }
}

/// Where one fully parsed point anchor goes: a picture payload makes it an
/// image, anything else joins the plain point-anchor sequence.
pub open spec fn spec_file_one_cell(ws: WorksheetDrawingView, a: OneCellAnchorView) -> WorksheetDrawingView {
    if a.content is PictureContent {
        WorksheetDrawingView {
            images: ws.images.push(ImageView { one_cell: Some(a), two_cell: None }),
            ..ws
        }
    } else {
        WorksheetDrawingView { one_cells: ws.one_cells.push(a), ..ws }
    }
}

/// Where one fully parsed range anchor goes: a graphic frame becomes a
/// chart, a picture becomes an image, the other payloads join the plain
/// range-anchor sequence, and an anchor without a supported payload is
/// dropped.
pub open spec fn spec_file_two_cell(ws: WorksheetDrawingView, a: TwoCellAnchorView) -> WorksheetDrawingView {
    if a.content is GraphicFrameContent {
        WorksheetDrawingView {
            charts: ws.charts.push(
                ChartView {
                    anchor: a,
                    data_sheet_name: Seq::empty(),
                    data_range: CellRangeView { start_col: 1, start_row: 1, end_col: 1, end_row: 1 },
                },
            ),
            ..ws
        }
    } else if a.content is PictureContent {
        WorksheetDrawingView {
            images: ws.images.push(ImageView { one_cell: None, two_cell: Some(a) }),
            ..ws
        }
    } else if a.content is Empty {
        ws
    } else {
        WorksheetDrawingView { two_cells: ws.two_cells.push(a), ..ws }
    }
}

/// The small-step meaning of loading the whole drawing part from the typed
/// stream.  Point- and range-anchor elements are read by their parsers and
/// filed by payload kind; inside an alternate-content wrapper, range-anchor
/// elements belong, in order, to the sheet's embedded objects.  A failing
/// anchor parse, an alternate-content anchor with no embedded object left
/// to receive it, or the end of the stream stops the load.
pub open spec fn spec_parse_drawing(
    ws: WorksheetDrawingView,
    oles: Seq<OleObjectView>,
    alternate: bool,
    ole_index: int,
    evs: Seq<XmlEventView>,
    pos: int,
) -> (bool, WorksheetDrawingView, Seq<OleObjectView>, int)
    decreases evs.len() - pos,
{
    if pos < 0 || pos >= evs.len() {
        (false, ws, oles, pos)
    } else {
        match evs[pos] {
            XmlEventView::StartTag(t) => {
                if t.name == "mc:AlternateContent"@ {
                    spec_parse_drawing(ws, oles, true, ole_index, evs, pos + 1)
                } else if t.name == "xdr:oneCellAnchor"@ {
                    if alternate {
                        spec_parse_drawing(ws, oles, alternate, ole_index, evs, pos + 1)
                    } else {
                        let m = spec_parse_one_cell(spec_fresh_one_cell(), evs, pos + 1);
                        if m.0 {
                            let next0 = if m.2 > pos + 1 {
                                m.2
                            } else {
                                pos + 2
                            };
                            let next = if next0 <= evs.len() {
                                next0
                            } else {
                                evs.len() as int
                            };
                            spec_parse_drawing(
                                spec_file_one_cell(ws, m.1),
                                oles,
                                alternate,
                                ole_index,
                                evs,
                                next,
                            )
                        } else {
                            (false, ws, oles, m.2)
                        }
                    }
                } else if t.name == "xdr:twoCellAnchor"@ {
                    if alternate && oles.len() > 0 {
                        if 0 <= ole_index < oles.len() {
                            let start = TwoCellAnchorView {
                                is_alternate_content: true,
                                ..oles[ole_index].anchor
                            };
                            let m = spec_parse_two_cell(start, evs, pos + 1);
                            let oles2 = oles.update(
                                ole_index,
                                OleObjectView { anchor: m.1, ..oles[ole_index] },
                            );
                            if m.0 {
                                let next0 = if m.2 > pos + 1 {
                                    m.2
                                } else {
                                    pos + 2
                                };
                                let next = if next0 <= evs.len() {
                                    next0
                                } else {
                                    evs.len() as int
                                };
                                spec_parse_drawing(ws, oles2, alternate, ole_index + 1, evs, next)
                            } else {
                                (false, ws, oles2, m.2)
                            }
                        } else {
                            (false, ws, oles, pos)
                        }
                    } else {
                        let m = spec_parse_two_cell(spec_fresh_two_cell(), evs, pos + 1);
                        if m.0 {
                            let next0 = if m.2 > pos + 1 {
                                m.2
                            } else {
                                pos + 2
                            };
                            let next = if next0 <= evs.len() {
                                next0
                            } else {
                                evs.len() as int
                            };
                            spec_parse_drawing(
                                spec_file_two_cell(ws, m.1),
                                oles,
                                alternate,
                                ole_index,
                                evs,
                                next,
                            )
                        } else {
                            (false, ws, oles, m.2)
                        }
                    }
                } else {
                    spec_parse_drawing(ws, oles, alternate, ole_index, evs, pos + 1)
                }
            },
            XmlEventView::EmptyTag(t) => spec_parse_drawing(
                ws,
                oles,
                alternate,
                ole_index,
                evs,
                pos + 1,
            ),
            XmlEventView::EndTag(n) => {
                if n == "xdr:wsDr"@ {
                    (true, ws, oles, pos + 1)
                } else if n == "mc:AlternateContent"@ {
                    spec_parse_drawing(ws, oles, false, ole_index, evs, pos + 1)
                } else {
                    spec_parse_drawing(ws, oles, alternate, ole_index, evs, pos + 1)
                }
            },
            XmlEventView::Text(t) => spec_parse_drawing(ws, oles, alternate, ole_index, evs, pos + 1),
            XmlEventView::NumberText(n) => spec_parse_drawing(
                ws,
                oles,
                alternate,
                ole_index,
                evs,
                pos + 1,
            ),
            XmlEventView::Eof => (false, ws, oles, pos),
        }
    }
}

/// The predicate that one image sits at the given 1-based cell.
pub open spec fn image_match_pred(col: int, row: int) -> spec_fn(ImageView) -> bool {
    |v: ImageView| v.col() == col && v.row() == row
}

/// The predicate that one chart is anchored at the given 1-based cell.
pub open spec fn chart_match_pred(col: int, row: int) -> spec_fn(ChartView) -> bool {
    |v: ChartView| v.anchor.from.col == col && v.anchor.from.row == row
}

/// Extract the graphic frame payload carried by one range anchor, if any.
pub open spec fn graphic_frame_extract() -> spec_fn(TwoCellAnchorView) -> Option<Seq<char>> {
    |v: TwoCellAnchorView| match v.content {
        TwoCellContentView::GraphicFrameContent(n) => Some(n),
        _ => None,
    }
}

/// Extract the shape payload carried by one range anchor, if any.
pub open spec fn shape_extract() -> spec_fn(TwoCellAnchorView) -> Option<Seq<char>> {
    |v: TwoCellAnchorView| match v.content {
        TwoCellContentView::ShapeContent(n) => Some(n),
        _ => None,
    }
}

/// Extract the connector shape payload carried by one range anchor, if any.
pub open spec fn connection_shape_extract() -> spec_fn(TwoCellAnchorView) -> Option<Seq<char>> {
    |v: TwoCellAnchorView| match v.content {
        TwoCellContentView::ConnectionShapeContent(n) => Some(n),
        _ => None,
    }
}

/// Extract the picture payload carried by one range anchor, if any.
pub open spec fn picture_extract() -> spec_fn(TwoCellAnchorView) -> Option<Seq<char>> {
    |v: TwoCellAnchorView| match v.content {
        TwoCellContentView::PictureContent(n) => Some(n),
        _ => None,
    }
}

/// Mathematical model of the drawing collection: the four kind-partitioned
/// sequences.
pub struct WorksheetDrawingView {
    pub images: Seq<ImageView>,
    pub charts: Seq<ChartView>,
    pub one_cells: Seq<OneCellAnchorView>,
    pub two_cells: Seq<TwoCellAnchorView>,
}

// The survivor predicates and shift maps of one removal, per kind.
pub open spec fn image_kept(root_col: int, off_col: int, root_row: int, off_row: int) -> spec_fn(
    ImageView,
) -> bool {
    |v: ImageView| !image_is_removed(v, root_col, off_col, root_row, off_row)
}

pub open spec fn image_shift_remove(
    root_col: int,
    off_col: int,
    root_row: int,
    off_row: int,
) -> spec_fn(ImageView) -> ImageView {
    |v: ImageView| image_after_remove(v, root_col, off_col, root_row, off_row)
}

pub open spec fn chart_kept(root_col: int, off_col: int, root_row: int, off_row: int) -> spec_fn(
    ChartView,
) -> bool {
    |v: ChartView| !chart_is_removed(v, root_col, off_col, root_row, off_row)
}

pub open spec fn chart_shift_remove(
    root_col: int,
    off_col: int,
    root_row: int,
    off_row: int,
) -> spec_fn(ChartView) -> ChartView {
    |v: ChartView| chart_after_remove(v, root_col, off_col, root_row, off_row)
}

pub open spec fn one_cell_kept(
    root_col: int,
    off_col: int,
    root_row: int,
    off_row: int,
) -> spec_fn(OneCellAnchorView) -> bool {
    |v: OneCellAnchorView| !one_cell_is_removed(v, root_col, off_col, root_row, off_row)
}

pub open spec fn one_cell_shift_remove(
    root_col: int,
    off_col: int,
    root_row: int,
    off_row: int,
) -> spec_fn(OneCellAnchorView) -> OneCellAnchorView {
    |v: OneCellAnchorView| one_cell_after_remove(v, root_col, off_col, root_row, off_row)
}

pub open spec fn two_cell_kept(
    root_col: int,
    off_col: int,
    root_row: int,
    off_row: int,
) -> spec_fn(TwoCellAnchorView) -> bool {
    |v: TwoCellAnchorView| !two_cell_is_removed(v, root_col, off_col, root_row, off_row)
}

pub open spec fn two_cell_shift_remove(
    root_col: int,
    off_col: int,
    root_row: int,
    off_row: int,
) -> spec_fn(TwoCellAnchorView) -> TwoCellAnchorView {
    |v: TwoCellAnchorView| two_cell_after_remove(v, root_col, off_col, root_row, off_row)
}

/// The images that survive one removal, in their original order, each with
/// its coordinates shifted or clamped: the eligible objects are filtered out
/// against the pre-edit coordinates, then the survivors are shifted.
pub open spec fn images_surviving(
    s: Seq<ImageView>,
    root_col: int,
    off_col: int,
    root_row: int,
    off_row: int,
) -> Seq<ImageView> {
    s.filter(image_kept(root_col, off_col, root_row, off_row)).map_values(
        image_shift_remove(root_col, off_col, root_row, off_row),
    )
}

/// The charts that survive one removal, as for `images_surviving`.
pub open spec fn charts_surviving(
    s: Seq<ChartView>,
    root_col: int,
    off_col: int,
    root_row: int,
    off_row: int,
) -> Seq<ChartView> {
    s.filter(chart_kept(root_col, off_col, root_row, off_row)).map_values(
        chart_shift_remove(root_col, off_col, root_row, off_row),
    )
}

/// The point anchors that survive one removal, as for `images_surviving`.
pub open spec fn one_cells_surviving(
    s: Seq<OneCellAnchorView>,
    root_col: int,
    off_col: int,
    root_row: int,
    off_row: int,
) -> Seq<OneCellAnchorView> {
    s.filter(one_cell_kept(root_col, off_col, root_row, off_row)).map_values(
        one_cell_shift_remove(root_col, off_col, root_row, off_row),
    )
}

/// The range anchors that survive one removal, as for `images_surviving`.
pub open spec fn two_cells_surviving(
    s: Seq<TwoCellAnchorView>,
    root_col: int,
    off_col: int,
    root_row: int,
    off_row: int,
) -> Seq<TwoCellAnchorView> {
    s.filter(two_cell_kept(root_col, off_col, root_row, off_row)).map_values(
        two_cell_shift_remove(root_col, off_col, root_row, off_row),
    )
}

/// Whether an insert of the given extent keeps every object of the
/// collection within the machine range of `u32`.
pub open spec fn drawing_insert_fits(
    v: WorksheetDrawingView,
    root_col: int,
    off_col: int,
    root_row: int,
    off_row: int,
) -> bool {
    &&& forall|i: int|
        0 <= i < v.images.len() ==> image_insert_fits(
            #[trigger] v.images[i],
            root_col,
            off_col,
            root_row,
            off_row,
        )
    &&& forall|i: int|
        0 <= i < v.charts.len() ==> chart_insert_fits(
            #[trigger] v.charts[i],
            root_col,
            off_col,
            root_row,
            off_row,
        )
    &&& forall|i: int|
        0 <= i < v.one_cells.len() ==> one_cell_insert_fits(
            #[trigger] v.one_cells[i],
            root_col,
            off_col,
            root_row,
            off_row,
        )
    &&& forall|i: int|
        0 <= i < v.two_cells.len() ==> two_cell_insert_fits(
            #[trigger] v.two_cells[i],
            root_col,
            off_col,
            root_row,
            off_row,
        )
}

/// The whole collection after an insert: every object is shifted, none is
/// removed, and the order within each sequence is preserved.
pub open spec fn drawing_after_insert(
    v: WorksheetDrawingView,
    root_col: int,
    off_col: int,
    root_row: int,
    off_row: int,
) -> WorksheetDrawingView {
    WorksheetDrawingView {
        images: v.images.map_values(
            |x: ImageView| image_after_insert(x, root_col, off_col, root_row, off_row),
        ),
        charts: v.charts.map_values(
            |x: ChartView| chart_after_insert(x, root_col, off_col, root_row, off_row),
        ),
        one_cells: v.one_cells.map_values(
            |x: OneCellAnchorView| one_cell_after_insert(x, root_col, off_col, root_row, off_row),
        ),
        two_cells: v.two_cells.map_values(
            |x: TwoCellAnchorView| two_cell_after_insert(x, root_col, off_col, root_row, off_row),
        ),
    }
}

/// The whole collection after a removal: each sequence keeps, in order,
/// exactly the objects that are not removal-eligible, with their coordinates
/// shifted or clamped.
pub open spec fn drawing_after_remove(
    v: WorksheetDrawingView,
    root_col: int,
    off_col: int,
    root_row: int,
    off_row: int,
) -> WorksheetDrawingView {
    WorksheetDrawingView {
        images: images_surviving(v.images, root_col, off_col, root_row, off_row),
        charts: charts_surviving(v.charts, root_col, off_col, root_row, off_row),
        one_cells: one_cells_surviving(v.one_cells, root_col, off_col, root_row, off_row),
        two_cells: two_cells_surviving(v.two_cells, root_col, off_col, root_row, off_row),
    }
}

/// Whether an insert on the sheet named `sheet` keeps every chart data
/// reference that names that sheet within the machine range of `u32`.
pub open spec fn drawing_insert_with_sheet_fits(
    v: WorksheetDrawingView,
    sheet: Seq<char>,
    root_col: int,
    off_col: int,
    root_row: int,
    off_row: int,
) -> bool {
    forall|i: int|
        0 <= i < v.charts.len() && (#[trigger] v.charts[i]).data_sheet_name == sheet
            ==> range_insert_fits(v.charts[i].data_range, root_col, off_col, root_row, off_row)
}

/// The collection after the cross-sheet pass of an insert on the sheet named
/// `sheet`: only chart data references naming that sheet change; every
/// anchor, and every other kind, is untouched.
pub open spec fn drawing_after_insert_with_sheet(
    v: WorksheetDrawingView,
    sheet: Seq<char>,
    root_col: int,
    off_col: int,
    root_row: int,
    off_row: int,
) -> WorksheetDrawingView {
    WorksheetDrawingView {
        charts: v.charts.map_values(
            |x: ChartView| chart_after_insert_with_sheet(x, sheet, root_col, off_col, root_row, off_row),
        ),
        ..v
    }
}

/// The collection after the cross-sheet pass of a removal on the sheet named
/// `sheet`, as for `drawing_after_insert_with_sheet`.
pub open spec fn drawing_after_remove_with_sheet(
    v: WorksheetDrawingView,
    sheet: Seq<char>,
    root_col: int,
    off_col: int,
    root_row: int,
    off_row: int,
) -> WorksheetDrawingView {
    WorksheetDrawingView {
        charts: v.charts.map_values(
            |x: ChartView| chart_after_remove_with_sheet(x, sheet, root_col, off_col, root_row, off_row),
        ),
        ..v
    }
}


/// The axis a structural edit targets.
#[derive(Clone, Copy, Debug, PartialEq, Eq, Structural)]
pub enum SheetAxis {
    Row,
    Column,
}

/// The per-sheet aggregate of all anchored drawing objects.
#[derive(Clone, Debug)]
pub struct WorksheetDrawing {
    image_collection: Vec<Image>,
    chart_collection: Vec<Chart>,
    one_cell_anchor_collection: Vec<OneCellAnchor>,
    two_cell_anchor_collection: Vec<TwoCellAnchor>,
}

impl View for WorksheetDrawing {
    type V = WorksheetDrawingView;

    closed spec fn view(&self) -> WorksheetDrawingView {
        WorksheetDrawingView {
            images: image_views(self.image_collection@),
            charts: chart_views(self.chart_collection@),
            one_cells: one_cell_views(self.one_cell_anchor_collection@),
            two_cells: two_cell_views(self.two_cell_anchor_collection@),
        }
    }
}

impl Default for WorksheetDrawing {
    /// The default collection is empty.
    fn default() -> (r: Self)
        ensures
            r@.images.len() == 0,
            r@.charts.len() == 0,
            r@.one_cells.len() == 0,
            r@.two_cells.len() == 0,
    {
        WorksheetDrawing {
            image_collection: Vec::new(),
            chart_collection: Vec::new(),
            one_cell_anchor_collection: Vec::new(),
            two_cell_anchor_collection: Vec::new(),
        }
    }
}

fn insert_images(
    v: &mut Vec<Image>,
    root_col_num: u32,
    offset_col_num: u32,
    root_row_num: u32,
    offset_row_num: u32,
)
    requires
        forall|i: int|
            0 <= i < old(v)@.len() ==> image_insert_fits(
                (#[trigger] old(v)@[i])@,
                root_col_num as int,
                offset_col_num as int,
                root_row_num as int,
                offset_row_num as int,
            ),
    ensures
        image_views(final(v)@) == image_views(old(v)@).map_values(
            |x: ImageView| image_after_insert(
                x,
                root_col_num as int,
                offset_col_num as int,
                root_row_num as int,
                offset_row_num as int,
            ),
        ),
{
    let n = v.len();
    let mut idx: usize = 0;
    while idx < n
        invariant
            n == v@.len(),
            n == old(v)@.len(),
            idx <= n,
            forall|j: int|
                0 <= j < n ==> image_insert_fits(
                    (#[trigger] old(v)@[j])@,
                    root_col_num as int,
                    offset_col_num as int,
                    root_row_num as int,
                    offset_row_num as int,
                ),
            forall|j: int|
                0 <= j < idx ==> (#[trigger] v@[j])@ == image_after_insert(
                    old(v)@[j]@,
                    root_col_num as int,
                    offset_col_num as int,
                    root_row_num as int,
                    offset_row_num as int,
                ),
            forall|j: int| idx <= j < n ==> v@[j] == old(v)@[j],
        decreases n - idx,
    {
        let obj = &mut v[idx];
        obj.adjustment_insert_coordinate(
            root_col_num,
            offset_col_num,
            root_row_num,
            offset_row_num,
        );
        idx += 1;
    }
    proof {
        assert(image_views(v@) =~= image_views(old(v)@).map_values(
            |x: ImageView| image_after_insert(
                x,
                root_col_num as int,
                offset_col_num as int,
                root_row_num as int,
                offset_row_num as int,
            ),
        ));
    }
}

fn insert_charts(
    v: &mut Vec<Chart>,
    root_col_num: u32,
    offset_col_num: u32,
    root_row_num: u32,
    offset_row_num: u32,
)
    requires
        forall|i: int|
            0 <= i < old(v)@.len() ==> chart_insert_fits(
                (#[trigger] old(v)@[i])@,
                root_col_num as int,
                offset_col_num as int,
                root_row_num as int,
                offset_row_num as int,
            ),
    ensures
        chart_views(final(v)@) == chart_views(old(v)@).map_values(
            |x: ChartView| chart_after_insert(
                x,
                root_col_num as int,
                offset_col_num as int,
                root_row_num as int,
                offset_row_num as int,
            ),
        ),
{
    let n = v.len();
    let mut idx: usize = 0;
    while idx < n
        invariant
            n == v@.len(),
            n == old(v)@.len(),
            idx <= n,
            forall|j: int|
                0 <= j < n ==> chart_insert_fits(
                    (#[trigger] old(v)@[j])@,
                    root_col_num as int,
                    offset_col_num as int,
                    root_row_num as int,
                    offset_row_num as int,
                ),
            forall|j: int|
                0 <= j < idx ==> (#[trigger] v@[j])@ == chart_after_insert(
                    old(v)@[j]@,
                    root_col_num as int,
                    offset_col_num as int,
                    root_row_num as int,
                    offset_row_num as int,
                ),
            forall|j: int| idx <= j < n ==> v@[j] == old(v)@[j],
        decreases n - idx,
    {
        let obj = &mut v[idx];
        obj.adjustment_insert_coordinate(
            root_col_num,
            offset_col_num,
            root_row_num,
            offset_row_num,
        );
        idx += 1;
    }
    proof {
        assert(chart_views(v@) =~= chart_views(old(v)@).map_values(
            |x: ChartView| chart_after_insert(
                x,
                root_col_num as int,
                offset_col_num as int,
                root_row_num as int,
                offset_row_num as int,
            ),
        ));
    }
}

fn insert_one_cells(
    v: &mut Vec<OneCellAnchor>,
    root_col_num: u32,
    offset_col_num: u32,
    root_row_num: u32,
    offset_row_num: u32,
)
    requires
        forall|i: int|
            0 <= i < old(v)@.len() ==> one_cell_insert_fits(
                (#[trigger] old(v)@[i])@,
                root_col_num as int,
                offset_col_num as int,
                root_row_num as int,
                offset_row_num as int,
            ),
    ensures
        one_cell_views(final(v)@) == one_cell_views(old(v)@).map_values(
            |x: OneCellAnchorView| one_cell_after_insert(
                x,
                root_col_num as int,
                offset_col_num as int,
                root_row_num as int,
                offset_row_num as int,
            ),
        ),
{
    let n = v.len();
    let mut idx: usize = 0;
    while idx < n
        invariant
            n == v@.len(),
            n == old(v)@.len(),
            idx <= n,
            forall|j: int|
                0 <= j < n ==> one_cell_insert_fits(
                    (#[trigger] old(v)@[j])@,
                    root_col_num as int,
                    offset_col_num as int,
                    root_row_num as int,
                    offset_row_num as int,
                ),
            forall|j: int|
                0 <= j < idx ==> (#[trigger] v@[j])@ == one_cell_after_insert(
                    old(v)@[j]@,
                    root_col_num as int,
                    offset_col_num as int,
                    root_row_num as int,
                    offset_row_num as int,
                ),
            forall|j: int| idx <= j < n ==> v@[j] == old(v)@[j],
        decreases n - idx,
    {
        let obj = &mut v[idx];
        obj.adjustment_insert_coordinate(
            root_col_num,
            offset_col_num,
            root_row_num,
            offset_row_num,
        );
        idx += 1;
    }
    proof {
        assert(one_cell_views(v@) =~= one_cell_views(old(v)@).map_values(
            |x: OneCellAnchorView| one_cell_after_insert(
                x,
                root_col_num as int,
                offset_col_num as int,
                root_row_num as int,
                offset_row_num as int,
            ),
        ));
    }
}

fn insert_two_cells(
    v: &mut Vec<TwoCellAnchor>,
    root_col_num: u32,
    offset_col_num: u32,
    root_row_num: u32,
    offset_row_num: u32,
)
    requires
        forall|i: int|
            0 <= i < old(v)@.len() ==> two_cell_insert_fits(
                (#[trigger] old(v)@[i])@,
                root_col_num as int,
                offset_col_num as int,
                root_row_num as int,
                offset_row_num as int,
            ),
    ensures
        two_cell_views(final(v)@) == two_cell_views(old(v)@).map_values(
            |x: TwoCellAnchorView| two_cell_after_insert(
                x,
                root_col_num as int,
                offset_col_num as int,
                root_row_num as int,
                offset_row_num as int,
            ),
        ),
{
    let n = v.len();
    let mut idx: usize = 0;
    while idx < n
        invariant
            n == v@.len(),
            n == old(v)@.len(),
            idx <= n,
            forall|j: int|
                0 <= j < n ==> two_cell_insert_fits(
                    (#[trigger] old(v)@[j])@,
                    root_col_num as int,
                    offset_col_num as int,
                    root_row_num as int,
                    offset_row_num as int,
                ),
            forall|j: int|
                0 <= j < idx ==> (#[trigger] v@[j])@ == two_cell_after_insert(
                    old(v)@[j]@,
                    root_col_num as int,
                    offset_col_num as int,
                    root_row_num as int,
                    offset_row_num as int,
                ),
            forall|j: int| idx <= j < n ==> v@[j] == old(v)@[j],
        decreases n - idx,
    {
        let obj = &mut v[idx];
        obj.adjustment_insert_coordinate(
            root_col_num,
            offset_col_num,
            root_row_num,
            offset_row_num,
        );
        idx += 1;
    }
    proof {
        assert(two_cell_views(v@) =~= two_cell_views(old(v)@).map_values(
            |x: TwoCellAnchorView| two_cell_after_insert(
                x,
                root_col_num as int,
                offset_col_num as int,
                root_row_num as int,
                offset_row_num as int,
            ),
        ));
    }
}

fn remove_images(
    v: &mut Vec<Image>,
    root_col_num: u32,
    offset_col_num: u32,
    root_row_num: u32,
    offset_row_num: u32,
)
    ensures
        image_views(final(v)@) == images_surviving(
            image_views(old(v)@),
            root_col_num as int,
            offset_col_num as int,
            root_row_num as int,
            offset_row_num as int,
        ),
{
    let ghost rc = root_col_num as int;
    let ghost oc = offset_col_num as int;
    let ghost rr = root_row_num as int;
    let ghost orr = offset_row_num as int;
    let mut source: Vec<Image> = Vec::new();
    core::mem::swap(&mut source, v);
    let ghost all: Seq<Image> = source@;
    proof {
        assert(v@ =~= Seq::<Image>::empty());
        assert(all.subrange(0, 0) =~= Seq::<Image>::empty());
        assert(image_views(all.subrange(0, 0)) =~= Seq::<ImageView>::empty());
        assert(Seq::<ImageView>::empty().filter(image_kept(rc, oc, rr, orr)) =~= Seq::<
            ImageView,
        >::empty()) by {
            reveal(Seq::filter);
        }
        assert(images_surviving(image_views(all.subrange(0, 0)), rc, oc, rr, orr) =~= Seq::<
            ImageView,
        >::empty());
    }
    while source.len() > 0
        invariant
            rc == root_col_num as int,
            oc == offset_col_num as int,
            rr == root_row_num as int,
            orr == offset_row_num as int,
            source@.len() <= all.len(),
            source@ == all.subrange(all.len() - source@.len(), all.len() as int),
            image_views(v@) == images_surviving(
                image_views(all.subrange(0, all.len() - source@.len())),
                rc,
                oc,
                rr,
                orr,
            ),
        decreases source@.len(),
    {
        let ghost p = all.len() - source@.len();
        let obj = source.remove(0);
        proof {
            assert(obj == all[p]);
            assert(source@ =~= all.subrange(p + 1, all.len() as int));
            assert(all.subrange(0, p + 1) =~= all.subrange(0, p).push(all[p]));
            assert(image_views(all.subrange(0, p + 1)) =~= image_views(
                all.subrange(0, p),
            ).push(obj@));
            lemma_filter_push(image_views(all.subrange(0, p)), image_kept(rc, oc, rr, orr), obj@);
        }
        if !obj.is_remove_coordinate(
            root_col_num,
            offset_col_num,
            root_row_num,
            offset_row_num,
        ) {
            let mut kept = obj;
            kept.adjustment_remove_coordinate(
                root_col_num,
                offset_col_num,
                root_row_num,
                offset_row_num,
            );
            v.push(kept);
            proof {
                let kk = image_kept(rc, oc, rr, orr);
                let mm = image_shift_remove(rc, oc, rr, orr);
                assert(kk(obj@));
                assert(mm(obj@) == kept@);
                assert(image_views(all.subrange(0, p + 1)).filter(kk) == image_views(
                    all.subrange(0, p),
                ).filter(kk).push(obj@));
                assert(images_surviving(image_views(all.subrange(0, p + 1)), rc, oc, rr, orr)
                    =~= images_surviving(image_views(all.subrange(0, p)), rc, oc, rr, orr).push(
                    kept@,
                ));
                assert(image_views(v@) =~= images_surviving(
                    image_views(all.subrange(0, p + 1)),
                    rc,
                    oc,
                    rr,
                    orr,
                ));
            }
        } else {
            proof {
                let kk = image_kept(rc, oc, rr, orr);
                assert(!kk(obj@));
                assert(image_views(all.subrange(0, p + 1)).filter(kk) == image_views(
                    all.subrange(0, p),
                ).filter(kk));
                assert(images_surviving(image_views(all.subrange(0, p + 1)), rc, oc, rr, orr)
                    =~= images_surviving(image_views(all.subrange(0, p)), rc, oc, rr, orr));
            }
        }
    }
    proof {
        assert(all.subrange(0, all.len() as int) =~= all);
    }
}

fn remove_charts(
    v: &mut Vec<Chart>,
    root_col_num: u32,
    offset_col_num: u32,
    root_row_num: u32,
    offset_row_num: u32,
)
    ensures
        chart_views(final(v)@) == charts_surviving(
            chart_views(old(v)@),
            root_col_num as int,
            offset_col_num as int,
            root_row_num as int,
            offset_row_num as int,
        ),
{
    let ghost rc = root_col_num as int;
    let ghost oc = offset_col_num as int;
    let ghost rr = root_row_num as int;
    let ghost orr = offset_row_num as int;
    let mut source: Vec<Chart> = Vec::new();
    core::mem::swap(&mut source, v);
    let ghost all: Seq<Chart> = source@;
    proof {
        assert(v@ =~= Seq::<Chart>::empty());
        assert(all.subrange(0, 0) =~= Seq::<Chart>::empty());
        assert(chart_views(all.subrange(0, 0)) =~= Seq::<ChartView>::empty());
        assert(Seq::<ChartView>::empty().filter(chart_kept(rc, oc, rr, orr)) =~= Seq::<
            ChartView,
        >::empty()) by {
            reveal(Seq::filter);
        }
        assert(charts_surviving(chart_views(all.subrange(0, 0)), rc, oc, rr, orr) =~= Seq::<
            ChartView,
        >::empty());
    }
    while source.len() > 0
        invariant
            rc == root_col_num as int,
            oc == offset_col_num as int,
            rr == root_row_num as int,
            orr == offset_row_num as int,
            source@.len() <= all.len(),
            source@ == all.subrange(all.len() - source@.len(), all.len() as int),
            chart_views(v@) == charts_surviving(
                chart_views(all.subrange(0, all.len() - source@.len())),
                rc,
                oc,
                rr,
                orr,
            ),
        decreases source@.len(),
    {
        let ghost p = all.len() - source@.len();
        let obj = source.remove(0);
        proof {
            assert(obj == all[p]);
            assert(source@ =~= all.subrange(p + 1, all.len() as int));
            assert(all.subrange(0, p + 1) =~= all.subrange(0, p).push(all[p]));
            assert(chart_views(all.subrange(0, p + 1)) =~= chart_views(
                all.subrange(0, p),
            ).push(obj@));
            lemma_filter_push(chart_views(all.subrange(0, p)), chart_kept(rc, oc, rr, orr), obj@);
        }
        if !obj.is_remove_coordinate(
            root_col_num,
            offset_col_num,
            root_row_num,
            offset_row_num,
        ) {
            let mut kept = obj;
            kept.adjustment_remove_coordinate(
                root_col_num,
                offset_col_num,
                root_row_num,
                offset_row_num,
            );
            v.push(kept);
            proof {
                assert(charts_surviving(chart_views(all.subrange(0, p + 1)), rc, oc, rr, orr)
                    =~= charts_surviving(chart_views(all.subrange(0, p)), rc, oc, rr, orr).push(
                    kept@,
                ));
            }
        } else {
            proof {
                assert(charts_surviving(chart_views(all.subrange(0, p + 1)), rc, oc, rr, orr)
                    =~= charts_surviving(chart_views(all.subrange(0, p)), rc, oc, rr, orr));
            }
        }
    }
    proof {
        assert(all.subrange(0, all.len() as int) =~= all);
    }
}

fn remove_one_cells(
    v: &mut Vec<OneCellAnchor>,
    root_col_num: u32,
    offset_col_num: u32,
    root_row_num: u32,
    offset_row_num: u32,
)
    ensures
        one_cell_views(final(v)@) == one_cells_surviving(
            one_cell_views(old(v)@),
            root_col_num as int,
            offset_col_num as int,
            root_row_num as int,
            offset_row_num as int,
        ),
{
    let ghost rc = root_col_num as int;
    let ghost oc = offset_col_num as int;
    let ghost rr = root_row_num as int;
    let ghost orr = offset_row_num as int;
    let mut source: Vec<OneCellAnchor> = Vec::new();
    core::mem::swap(&mut source, v);
    let ghost all: Seq<OneCellAnchor> = source@;
    proof {
        assert(v@ =~= Seq::<OneCellAnchor>::empty());
        assert(all.subrange(0, 0) =~= Seq::<OneCellAnchor>::empty());
        assert(one_cell_views(all.subrange(0, 0)) =~= Seq::<OneCellAnchorView>::empty());
        assert(Seq::<OneCellAnchorView>::empty().filter(one_cell_kept(rc, oc, rr, orr)) =~= Seq::<
            OneCellAnchorView,
        >::empty()) by {
            reveal(Seq::filter);
        }
        assert(one_cells_surviving(one_cell_views(all.subrange(0, 0)), rc, oc, rr, orr) =~= Seq::<
            OneCellAnchorView,
        >::empty());
    }
    while source.len() > 0
        invariant
            rc == root_col_num as int,
            oc == offset_col_num as int,
            rr == root_row_num as int,
            orr == offset_row_num as int,
            source@.len() <= all.len(),
            source@ == all.subrange(all.len() - source@.len(), all.len() as int),
            one_cell_views(v@) == one_cells_surviving(
                one_cell_views(all.subrange(0, all.len() - source@.len())),
                rc,
                oc,
                rr,
                orr,
            ),
        decreases source@.len(),
    {
        let ghost p = all.len() - source@.len();
        let obj = source.remove(0);
        proof {
            assert(obj == all[p]);
            assert(source@ =~= all.subrange(p + 1, all.len() as int));
            assert(all.subrange(0, p + 1) =~= all.subrange(0, p).push(all[p]));
            assert(one_cell_views(all.subrange(0, p + 1)) =~= one_cell_views(
                all.subrange(0, p),
            ).push(obj@));
            lemma_filter_push(
                one_cell_views(all.subrange(0, p)),
                one_cell_kept(rc, oc, rr, orr),
                obj@,
            );
        }
        if !obj.is_remove_coordinate(
            root_col_num,
            offset_col_num,
            root_row_num,
            offset_row_num,
        ) {
            let mut kept = obj;
            kept.adjustment_remove_coordinate(
                root_col_num,
                offset_col_num,
                root_row_num,
                offset_row_num,
            );
            v.push(kept);
            proof {
                assert(one_cells_surviving(
                    one_cell_views(all.subrange(0, p + 1)),
                    rc,
                    oc,
                    rr,
                    orr,
                ) =~= one_cells_surviving(
                    one_cell_views(all.subrange(0, p)),
                    rc,
                    oc,
                    rr,
                    orr,
                ).push(kept@));
            }
        } else {
            proof {
                assert(one_cells_surviving(
                    one_cell_views(all.subrange(0, p + 1)),
                    rc,
                    oc,
                    rr,
                    orr,
                ) =~= one_cells_surviving(one_cell_views(all.subrange(0, p)), rc, oc, rr, orr));
            }
        }
    }
    proof {
        assert(all.subrange(0, all.len() as int) =~= all);
    }
}

fn remove_two_cells(
    v: &mut Vec<TwoCellAnchor>,
    root_col_num: u32,
    offset_col_num: u32,
    root_row_num: u32,
    offset_row_num: u32,
)
    ensures
        two_cell_views(final(v)@) == two_cells_surviving(
            two_cell_views(old(v)@),
            root_col_num as int,
            offset_col_num as int,
            root_row_num as int,
            offset_row_num as int,
        ),
{
    let ghost rc = root_col_num as int;
    let ghost oc = offset_col_num as int;
    let ghost rr = root_row_num as int;
    let ghost orr = offset_row_num as int;
    let mut source: Vec<TwoCellAnchor> = Vec::new();
    core::mem::swap(&mut source, v);
    let ghost all: Seq<TwoCellAnchor> = source@;
    proof {
        assert(v@ =~= Seq::<TwoCellAnchor>::empty());
        assert(all.subrange(0, 0) =~= Seq::<TwoCellAnchor>::empty());
        assert(two_cell_views(all.subrange(0, 0)) =~= Seq::<TwoCellAnchorView>::empty());
        assert(Seq::<TwoCellAnchorView>::empty().filter(two_cell_kept(rc, oc, rr, orr)) =~= Seq::<
            TwoCellAnchorView,
        >::empty()) by {
            reveal(Seq::filter);
        }
        assert(two_cells_surviving(two_cell_views(all.subrange(0, 0)), rc, oc, rr, orr) =~= Seq::<
            TwoCellAnchorView,
        >::empty());
    }
    while source.len() > 0
        invariant
            rc == root_col_num as int,
            oc == offset_col_num as int,
            rr == root_row_num as int,
            orr == offset_row_num as int,
            source@.len() <= all.len(),
            source@ == all.subrange(all.len() - source@.len(), all.len() as int),
            two_cell_views(v@) == two_cells_surviving(
                two_cell_views(all.subrange(0, all.len() - source@.len())),
                rc,
                oc,
                rr,
                orr,
            ),
        decreases source@.len(),
    {
        let ghost p = all.len() - source@.len();
        let obj = source.remove(0);
        proof {
            assert(obj == all[p]);
            assert(source@ =~= all.subrange(p + 1, all.len() as int));
            assert(all.subrange(0, p + 1) =~= all.subrange(0, p).push(all[p]));
            assert(two_cell_views(all.subrange(0, p + 1)) =~= two_cell_views(
                all.subrange(0, p),
            ).push(obj@));
            lemma_filter_push(
                two_cell_views(all.subrange(0, p)),
                two_cell_kept(rc, oc, rr, orr),
                obj@,
            );
        }
        if !obj.is_remove_coordinate(
            root_col_num,
            offset_col_num,
            root_row_num,
            offset_row_num,
        ) {
            let mut kept = obj;
            kept.adjustment_remove_coordinate(
                root_col_num,
                offset_col_num,
                root_row_num,
                offset_row_num,
            );
            v.push(kept);
            proof {
                assert(two_cells_surviving(
                    two_cell_views(all.subrange(0, p + 1)),
                    rc,
                    oc,
                    rr,
                    orr,
                ) =~= two_cells_surviving(
                    two_cell_views(all.subrange(0, p)),
                    rc,
                    oc,
                    rr,
                    orr,
                ).push(kept@));
            }
        } else {
            proof {
                assert(two_cells_surviving(
                    two_cell_views(all.subrange(0, p + 1)),
                    rc,
                    oc,
                    rr,
                    orr,
                ) =~= two_cells_surviving(two_cell_views(all.subrange(0, p)), rc, oc, rr, orr));
            }
        }
    }
    proof {
        assert(all.subrange(0, all.len() as int) =~= all);
    }
}

fn insert_charts_with_sheet(
    v: &mut Vec<Chart>,
    sheet_name: &str,
    root_col_num: u32,
    offset_col_num: u32,
    root_row_num: u32,
    offset_row_num: u32,
)
    requires
        forall|i: int|
            0 <= i < old(v)@.len() && (#[trigger] old(v)@[i])@.data_sheet_name == sheet_name@
                ==> range_insert_fits(
                old(v)@[i]@.data_range,
                root_col_num as int,
                offset_col_num as int,
                root_row_num as int,
                offset_row_num as int,
            ),
    ensures
        chart_views(final(v)@) == chart_views(old(v)@).map_values(
            |x: ChartView| chart_after_insert_with_sheet(
                x,
                sheet_name@,
                root_col_num as int,
                offset_col_num as int,
                root_row_num as int,
                offset_row_num as int,
            ),
        ),
{
    let n = v.len();
    let mut idx: usize = 0;
    while idx < n
        invariant
            n == v@.len(),
            n == old(v)@.len(),
            idx <= n,
            forall|j: int|
                0 <= j < n && (#[trigger] old(v)@[j])@.data_sheet_name == sheet_name@
                    ==> range_insert_fits(
                    old(v)@[j]@.data_range,
                    root_col_num as int,
                    offset_col_num as int,
                    root_row_num as int,
                    offset_row_num as int,
                ),
            forall|j: int|
                0 <= j < idx ==> (#[trigger] v@[j])@ == chart_after_insert_with_sheet(
                    old(v)@[j]@,
                    sheet_name@,
                    root_col_num as int,
                    offset_col_num as int,
                    root_row_num as int,
                    offset_row_num as int,
                ),
            forall|j: int| idx <= j < n ==> v@[j] == old(v)@[j],
        decreases n - idx,
    {
        let obj = &mut v[idx];
        obj.adjustment_insert_coordinate_with_sheet(
            sheet_name,
            root_col_num,
            offset_col_num,
            root_row_num,
            offset_row_num,
        );
        idx += 1;
    }
    proof {
        assert(chart_views(v@) =~= chart_views(old(v)@).map_values(
            |x: ChartView| chart_after_insert_with_sheet(
                x,
                sheet_name@,
                root_col_num as int,
                offset_col_num as int,
                root_row_num as int,
                offset_row_num as int,
            ),
        ));
    }
}

fn remove_charts_with_sheet(
    v: &mut Vec<Chart>,
    sheet_name: &str,
    root_col_num: u32,
    offset_col_num: u32,
    root_row_num: u32,
    offset_row_num: u32,
)
    ensures
        chart_views(final(v)@) == chart_views(old(v)@).map_values(
            |x: ChartView| chart_after_remove_with_sheet(
                x,
                sheet_name@,
                root_col_num as int,
                offset_col_num as int,
                root_row_num as int,
                offset_row_num as int,
            ),
        ),
{
    let n = v.len();
    let mut idx: usize = 0;
    while idx < n
        invariant
            n == v@.len(),
            n == old(v)@.len(),
            idx <= n,
            forall|j: int|
                0 <= j < idx ==> (#[trigger] v@[j])@ == chart_after_remove_with_sheet(
                    old(v)@[j]@,
                    sheet_name@,
                    root_col_num as int,
                    offset_col_num as int,
                    root_row_num as int,
                    offset_row_num as int,
                ),
            forall|j: int| idx <= j < n ==> v@[j] == old(v)@[j],
        decreases n - idx,
    {
        let obj = &mut v[idx];
        obj.adjustment_remove_coordinate_with_sheet(
            sheet_name,
            root_col_num,
            offset_col_num,
            root_row_num,
            offset_row_num,
        );
        idx += 1;
    }
    proof {
        assert(chart_views(v@) =~= chart_views(old(v)@).map_values(
            |x: ChartView| chart_after_remove_with_sheet(
                x,
                sheet_name@,
                root_col_num as int,
                offset_col_num as int,
                root_row_num as int,
                offset_row_num as int,
            ),
        ));
    }
}

impl WorksheetDrawing {
    pub fn get_image_collection(&self) -> (r: &Vec<Image>)
        ensures
            image_views(r@) == self@.images,
    {
        &self.image_collection
    }

    pub fn add_image(&mut self, value: Image)
        ensures
            final(self)@ == (WorksheetDrawingView {
                images: old(self)@.images.push(value@),
                ..old(self)@
            }),
    {
        self.image_collection.push(value);
        proof {
            assert(image_views(self.image_collection@) =~= image_views(
                old(self).image_collection@,
            ).push(value@));
        }
    }

    pub fn get_chart_collection(&self) -> (r: &Vec<Chart>)
        ensures
            chart_views(r@) == self@.charts,
    {
        &self.chart_collection
    }

    pub fn add_chart_collection(&mut self, value: Chart)
        ensures
            final(self)@ == (WorksheetDrawingView {
                charts: old(self)@.charts.push(value@),
                ..old(self)@
            }),
    {
        self.chart_collection.push(value);
        proof {
            assert(chart_views(self.chart_collection@) =~= chart_views(
                old(self).chart_collection@,
            ).push(value@));
        }
    }

    pub fn get_one_cell_anchor_collection(&self) -> (r: &Vec<OneCellAnchor>)
        ensures
            one_cell_views(r@) == self@.one_cells,
    {
        &self.one_cell_anchor_collection
    }

    pub fn add_one_cell_anchor_collection(&mut self, value: OneCellAnchor)
        ensures
            final(self)@ == (WorksheetDrawingView {
                one_cells: old(self)@.one_cells.push(value@),
                ..old(self)@
            }),
    {
        self.one_cell_anchor_collection.push(value);
        proof {
            assert(one_cell_views(self.one_cell_anchor_collection@) =~= one_cell_views(
                old(self).one_cell_anchor_collection@,
            ).push(value@));
        }
    }

    pub fn get_two_cell_anchor_collection(&self) -> (r: &Vec<TwoCellAnchor>)
        ensures
            two_cell_views(r@) == self@.two_cells,
    {
        &self.two_cell_anchor_collection
    }

    pub fn add_two_cell_anchor_collection(&mut self, value: TwoCellAnchor)
        ensures
            final(self)@ == (WorksheetDrawingView {
                two_cells: old(self)@.two_cells.push(value@),
                ..old(self)@
            }),
    {
        self.two_cell_anchor_collection.push(value);
        proof {
            assert(two_cell_views(self.two_cell_anchor_collection@) =~= two_cell_views(
                old(self).two_cell_anchor_collection@,
            ).push(value@));
        }
    }

    /// Whether the image at index `i` of the image sequence sits at the
    /// given 1-based cell.
    pub open spec fn spec_image_matches(v: ImageView, col: int, row: int) -> bool {
        v.col() == col && v.row() == row
    }

    /// The first image anchored at the given 1-based cell, if any.
    pub fn get_image(&self, col: &u32, row: &u32) -> (r: Option<&Image>)
        requires
            forall|i: int| 0 <= i < self@.images.len() ==> (#[trigger] self@.images[i]).has_anchor(),
        ensures
            match r {
                Some(img) => exists|i: int|
                    0 <= i < self@.images.len() && img@ == self@.images[i]
                        && Self::spec_image_matches(#[trigger] self@.images[i], *col as int, *row as int)
                        && (forall|j: int|
                        0 <= j < i ==> !Self::spec_image_matches(
                            #[trigger] self@.images[j],
                            *col as int,
                            *row as int,
                        )),
                None => forall|i: int|
                    0 <= i < self@.images.len() ==> !Self::spec_image_matches(
                        #[trigger] self@.images[i],
                        *col as int,
                        *row as int,
                    ),
            },
    {
        proof {
            assert forall|i: int|
                0 <= i < self.image_collection@.len() implies (#[trigger] self.image_collection@[i])@.has_anchor() by {
                assert(self@.images[i] == self.image_collection@[i]@);
            }
        }
        let n = self.image_collection.len();
        let mut idx: usize = 0;
        while idx < n
            invariant
                n == self.image_collection@.len(),
                idx <= n,
                forall|i: int|
                    0 <= i < n ==> (#[trigger] self.image_collection@[i])@.has_anchor(),
                forall|j: int|
                    0 <= j < idx ==> !Self::spec_image_matches(
                        (#[trigger] self.image_collection@[j])@,
                        *col as int,
                        *row as int,
                    ),
            decreases n - idx,
        {
            let img = &self.image_collection[idx];
            if img.get_col() == *col && img.get_row() == *row {
                proof {
                    assert(self@.images[idx as int] == self.image_collection@[idx as int]@);
                    assert forall|j: int| 0 <= j < idx implies !Self::spec_image_matches(
                        #[trigger] self@.images[j],
                        *col as int,
                        *row as int,
                    ) by {
                        assert(self@.images[j] == self.image_collection@[j]@);
                    }
                }
                return Some(img);
            }
            idx += 1;
        }
        proof {
            assert forall|i: int| 0 <= i < self@.images.len() implies !Self::spec_image_matches(
                #[trigger] self@.images[i],
                *col as int,
                *row as int,
            ) by {
                assert(self@.images[i] == self.image_collection@[i]@);
            }
        }
        None
    }

    /// Every image anchored at the given 1-based cell, in insertion order.
    pub fn get_images(&self, col: &u32, row: &u32) -> (r: Vec<&Image>)
        requires
            forall|i: int| 0 <= i < self@.images.len() ==> (#[trigger] self@.images[i]).has_anchor(),
        ensures
            r@.map_values(|p: &Image| p@) == self@.images.filter(
                image_match_pred(*col as int, *row as int),
            ),
    {
        let ghost pred = image_match_pred(*col as int, *row as int);
        let n = self.image_collection.len();
        let mut out: Vec<&Image> = Vec::new();
        let mut idx: usize = 0;
        proof {
            assert(self@.images.subrange(0, 0) =~= Seq::<ImageView>::empty());
            assert(Seq::<ImageView>::empty().filter(pred) =~= Seq::<ImageView>::empty()) by {
                reveal(Seq::filter);
            }
            assert(out@.map_values(|p: &Image| p@) =~= Seq::<ImageView>::empty());
        }
        proof {
            assert forall|i: int|
                0 <= i < self.image_collection@.len() implies (#[trigger] self.image_collection@[i])@.has_anchor() by {
                assert(self@.images[i] == self.image_collection@[i]@);
            }
        }
        while idx < n
            invariant
                pred == image_match_pred(*col as int, *row as int),
                n == self.image_collection@.len(),
                n == self@.images.len(),
                idx <= n,
                forall|i: int|
                    0 <= i < n ==> (#[trigger] self.image_collection@[i])@.has_anchor(),
                forall|i: int| 0 <= i < n ==> self@.images[i] == (
                #[trigger] self.image_collection@[i])@,
                out@.map_values(|p: &Image| p@) == self@.images.subrange(0, idx as int).filter(
                    pred,
                ),
            decreases n - idx,
        {
            let img = &self.image_collection[idx];
            proof {
                assert(self@.images.subrange(0, idx + 1) =~= self@.images.subrange(
                    0,
                    idx as int,
                ).push(img@));
                lemma_filter_push(self@.images.subrange(0, idx as int), pred, img@);
            }
            if img.get_col() == *col && img.get_row() == *row {
                out.push(img);
                proof {
                    assert(out@.map_values(|p: &Image| p@) =~= self@.images.subrange(
                        0,
                        idx + 1,
                    ).filter(pred));
                }
            } else {
                proof {
                    assert(out@.map_values(|p: &Image| p@) =~= self@.images.subrange(
                        0,
                        idx + 1,
                    ).filter(pred));
                }
            }
            idx += 1;
        }
        proof {
            assert(self@.images.subrange(0, n as int) =~= self@.images);
        }
        out
    }

    /// The first chart anchored at the given 1-based cell, if any.
    pub fn get_chart(&self, col: &u32, row: &u32) -> (r: Option<&Chart>)
        ensures
            match r {
                Some(chart) => exists|i: int|
                    0 <= i < self@.charts.len() && chart@ == self@.charts[i]
                        && Self::spec_chart_matches(#[trigger] self@.charts[i], *col as int, *row as int)
                        && (forall|j: int|
                        0 <= j < i ==> !Self::spec_chart_matches(
                            #[trigger] self@.charts[j],
                            *col as int,
                            *row as int,
                        )),
                None => forall|i: int|
                    0 <= i < self@.charts.len() ==> !Self::spec_chart_matches(
                        #[trigger] self@.charts[i],
                        *col as int,
                        *row as int,
                    ),
            },
    {
        let n = self.chart_collection.len();
        let mut idx: usize = 0;
        while idx < n
            invariant
                n == self.chart_collection@.len(),
                idx <= n,
                forall|j: int|
                    0 <= j < idx ==> !Self::spec_chart_matches(
                        (#[trigger] self.chart_collection@[j])@,
                        *col as int,
                        *row as int,
                    ),
            decreases n - idx,
        {
            let chart = &self.chart_collection[idx];
            if chart.get_col() == *col && chart.get_row() == *row {
                proof {
                    assert(self@.charts[idx as int] == self.chart_collection@[idx as int]@);
                    assert forall|j: int| 0 <= j < idx implies !Self::spec_chart_matches(
                        #[trigger] self@.charts[j],
                        *col as int,
                        *row as int,
                    ) by {
                        assert(self@.charts[j] == self.chart_collection@[j]@);
                    }
                }
                return Some(chart);
            }
            idx += 1;
        }
        proof {
            assert forall|i: int| 0 <= i < self@.charts.len() implies !Self::spec_chart_matches(
                #[trigger] self@.charts[i],
                *col as int,
                *row as int,
            ) by {
                assert(self@.charts[i] == self.chart_collection@[i]@);
            }
        }
        None
    }

    /// Whether the chart at index `i` of the chart sequence is anchored at
    /// the given 1-based cell.
    pub open spec fn spec_chart_matches(v: ChartView, col: int, row: int) -> bool {
        v.anchor.from.col == col && v.anchor.from.row == row
    }

    /// Every chart anchored at the given 1-based cell, in insertion order.
    pub fn get_charts(&self, col: &u32, row: &u32) -> (r: Vec<&Chart>)
        ensures
            r@.map_values(|p: &Chart| p@) == self@.charts.filter(
                chart_match_pred(*col as int, *row as int),
            ),
    {
        let ghost pred = chart_match_pred(*col as int, *row as int);
        let n = self.chart_collection.len();
        let mut out: Vec<&Chart> = Vec::new();
        let mut idx: usize = 0;
        proof {
            assert(self@.charts.subrange(0, 0) =~= Seq::<ChartView>::empty());
            assert(Seq::<ChartView>::empty().filter(pred) =~= Seq::<ChartView>::empty()) by {
                reveal(Seq::filter);
            }
            assert(out@.map_values(|p: &Chart| p@) =~= Seq::<ChartView>::empty());
        }
        while idx < n
            invariant
                pred == chart_match_pred(*col as int, *row as int),
                n == self.chart_collection@.len(),
                n == self@.charts.len(),
                idx <= n,
                forall|i: int| 0 <= i < n ==> self@.charts[i] == (
                #[trigger] self.chart_collection@[i])@,
                out@.map_values(|p: &Chart| p@) == self@.charts.subrange(0, idx as int).filter(
                    pred,
                ),
            decreases n - idx,
        {
            let chart = &self.chart_collection[idx];
            proof {
                assert(self@.charts.subrange(0, idx + 1) =~= self@.charts.subrange(
                    0,
                    idx as int,
                ).push(chart@));
                lemma_filter_push(self@.charts.subrange(0, idx as int), pred, chart@);
            }
            if chart.get_col() == *col && chart.get_row() == *row {
                out.push(chart);
                proof {
                    assert(out@.map_values(|p: &Chart| p@) =~= self@.charts.subrange(
                        0,
                        idx + 1,
                    ).filter(pred));
                }
            } else {
                proof {
                    assert(out@.map_values(|p: &Chart| p@) =~= self@.charts.subrange(
                        0,
                        idx + 1,
                    ).filter(pred));
                }
            }
            idx += 1;
        }
        proof {
            assert(self@.charts.subrange(0, n as int) =~= self@.charts);
        }
        out
    }

    /// The graphic frames carried by the range anchors, in insertion order.
    pub fn get_graphic_frame_collection(&self) -> (r: Vec<&GraphicFrame>)
        ensures
            r@.map_values(|p: &GraphicFrame| p@) == self@.two_cells.filter_map(graphic_frame_extract()),
    {
        let ghost f = graphic_frame_extract();
        let n = self.two_cell_anchor_collection.len();
        let mut out: Vec<&GraphicFrame> = Vec::new();
        let mut idx: usize = 0;
        proof {
            assert(self@.two_cells.subrange(0, 0) =~= Seq::<TwoCellAnchorView>::empty());
            assert(Seq::<TwoCellAnchorView>::empty().filter_map(f) =~= Seq::<Seq<char>>::empty());
            assert(out@.map_values(|p: &GraphicFrame| p@) =~= Seq::<Seq<char>>::empty());
        }
        while idx < n
            invariant
                f == graphic_frame_extract(),
                n == self.two_cell_anchor_collection@.len(),
                n == self@.two_cells.len(),
                idx <= n,
                forall|i: int| 0 <= i < n ==> self@.two_cells[i] == (
                #[trigger] self.two_cell_anchor_collection@[i])@,
                out@.map_values(|p: &GraphicFrame| p@) == self@.two_cells.subrange(0, idx as int)
                    .filter_map(f),
            decreases n - idx,
        {
            let anchor_obj = &self.two_cell_anchor_collection[idx];
            proof {
                assert(self@.two_cells.subrange(0, idx + 1) =~= self@.two_cells.subrange(
                    0,
                    idx as int,
                ).push(anchor_obj@));
                lemma_filter_map_push(self@.two_cells.subrange(0, idx as int), f, anchor_obj@);
            }
            match anchor_obj.get_graphic_frame() {
                Some(payload) => {
                    out.push(payload);
                    proof {
                        assert(out@.map_values(|p: &GraphicFrame| p@) =~= self@.two_cells.subrange(
                            0,
                            idx + 1,
                        ).filter_map(f));
                    }
                },
                None => {
                    proof {
                        assert(out@.map_values(|p: &GraphicFrame| p@) =~= self@.two_cells.subrange(
                            0,
                            idx + 1,
                        ).filter_map(f));
                    }
                },
            }
            idx += 1;
        }
        proof {
            assert(self@.two_cells.subrange(0, n as int) =~= self@.two_cells);
        }
        out
    }

    /// The shapes carried by the range anchors, in insertion order.
    pub fn get_shape_collection(&self) -> (r: Vec<&Shape>)
        ensures
            r@.map_values(|p: &Shape| p@) == self@.two_cells.filter_map(shape_extract()),
    {
        let ghost f = shape_extract();
        let n = self.two_cell_anchor_collection.len();
        let mut out: Vec<&Shape> = Vec::new();
        let mut idx: usize = 0;
        proof {
            assert(self@.two_cells.subrange(0, 0) =~= Seq::<TwoCellAnchorView>::empty());
            assert(Seq::<TwoCellAnchorView>::empty().filter_map(f) =~= Seq::<Seq<char>>::empty());
            assert(out@.map_values(|p: &Shape| p@) =~= Seq::<Seq<char>>::empty());
        }
        while idx < n
            invariant
                f == shape_extract(),
                n == self.two_cell_anchor_collection@.len(),
                n == self@.two_cells.len(),
                idx <= n,
                forall|i: int| 0 <= i < n ==> self@.two_cells[i] == (
                #[trigger] self.two_cell_anchor_collection@[i])@,
                out@.map_values(|p: &Shape| p@) == self@.two_cells.subrange(0, idx as int)
                    .filter_map(f),
            decreases n - idx,
        {
            let anchor_obj = &self.two_cell_anchor_collection[idx];
            proof {
                assert(self@.two_cells.subrange(0, idx + 1) =~= self@.two_cells.subrange(
                    0,
                    idx as int,
                ).push(anchor_obj@));
                lemma_filter_map_push(self@.two_cells.subrange(0, idx as int), f, anchor_obj@);
            }
            match anchor_obj.get_shape() {
                Some(payload) => {
                    out.push(payload);
                    proof {
                        assert(out@.map_values(|p: &Shape| p@) =~= self@.two_cells.subrange(
                            0,
                            idx + 1,
                        ).filter_map(f));
                    }
                },
                None => {
                    proof {
                        assert(out@.map_values(|p: &Shape| p@) =~= self@.two_cells.subrange(
                            0,
                            idx + 1,
                        ).filter_map(f));
                    }
                },
            }
            idx += 1;
        }
        proof {
            assert(self@.two_cells.subrange(0, n as int) =~= self@.two_cells);
        }
        out
    }

    /// The connector shapes carried by the range anchors, in insertion order.
    pub fn get_connection_shape_collection(&self) -> (r: Vec<&ConnectionShape>)
        ensures
            r@.map_values(|p: &ConnectionShape| p@) == self@.two_cells.filter_map(connection_shape_extract()),
    {
        let ghost f = connection_shape_extract();
        let n = self.two_cell_anchor_collection.len();
        let mut out: Vec<&ConnectionShape> = Vec::new();
        let mut idx: usize = 0;
        proof {
            assert(self@.two_cells.subrange(0, 0) =~= Seq::<TwoCellAnchorView>::empty());
            assert(Seq::<TwoCellAnchorView>::empty().filter_map(f) =~= Seq::<Seq<char>>::empty());
            assert(out@.map_values(|p: &ConnectionShape| p@) =~= Seq::<Seq<char>>::empty());
        }
        while idx < n
            invariant
                f == connection_shape_extract(),
                n == self.two_cell_anchor_collection@.len(),
                n == self@.two_cells.len(),
                idx <= n,
                forall|i: int| 0 <= i < n ==> self@.two_cells[i] == (
                #[trigger] self.two_cell_anchor_collection@[i])@,
                out@.map_values(|p: &ConnectionShape| p@) == self@.two_cells.subrange(0, idx as int)
                    .filter_map(f),
            decreases n - idx,
        {
            let anchor_obj = &self.two_cell_anchor_collection[idx];
            proof {
                assert(self@.two_cells.subrange(0, idx + 1) =~= self@.two_cells.subrange(
                    0,
                    idx as int,
                ).push(anchor_obj@));
                lemma_filter_map_push(self@.two_cells.subrange(0, idx as int), f, anchor_obj@);
            }
            match anchor_obj.get_connection_shape() {
                Some(payload) => {
                    out.push(payload);
                    proof {
                        assert(out@.map_values(|p: &ConnectionShape| p@) =~= self@.two_cells.subrange(
                            0,
                            idx + 1,
                        ).filter_map(f));
                    }
                },
                None => {
                    proof {
                        assert(out@.map_values(|p: &ConnectionShape| p@) =~= self@.two_cells.subrange(
                            0,
                            idx + 1,
                        ).filter_map(f));
                    }
                },
            }
            idx += 1;
        }
        proof {
            assert(self@.two_cells.subrange(0, n as int) =~= self@.two_cells);
        }
        out
    }

    /// The pictures carried by the range anchors, in insertion order.
    pub fn get_picture_collection(&self) -> (r: Vec<&Picture>)
        ensures
            r@.map_values(|p: &Picture| p@) == self@.two_cells.filter_map(picture_extract()),
    {
        let ghost f = picture_extract();
        let n = self.two_cell_anchor_collection.len();
        let mut out: Vec<&Picture> = Vec::new();
        let mut idx: usize = 0;
        proof {
            assert(self@.two_cells.subrange(0, 0) =~= Seq::<TwoCellAnchorView>::empty());
            assert(Seq::<TwoCellAnchorView>::empty().filter_map(f) =~= Seq::<Seq<char>>::empty());
            assert(out@.map_values(|p: &Picture| p@) =~= Seq::<Seq<char>>::empty());
        }
        while idx < n
            invariant
                f == picture_extract(),
                n == self.two_cell_anchor_collection@.len(),
                n == self@.two_cells.len(),
                idx <= n,
                forall|i: int| 0 <= i < n ==> self@.two_cells[i] == (
                #[trigger] self.two_cell_anchor_collection@[i])@,
                out@.map_values(|p: &Picture| p@) == self@.two_cells.subrange(0, idx as int)
                    .filter_map(f),
            decreases n - idx,
        {
            let anchor_obj = &self.two_cell_anchor_collection[idx];
            proof {
                assert(self@.two_cells.subrange(0, idx + 1) =~= self@.two_cells.subrange(
                    0,
                    idx as int,
                ).push(anchor_obj@));
                lemma_filter_map_push(self@.two_cells.subrange(0, idx as int), f, anchor_obj@);
            }
            match anchor_obj.get_picture() {
                Some(payload) => {
                    out.push(payload);
                    proof {
                        assert(out@.map_values(|p: &Picture| p@) =~= self@.two_cells.subrange(
                            0,
                            idx + 1,
                        ).filter_map(f));
                    }
                },
                None => {
                    proof {
                        assert(out@.map_values(|p: &Picture| p@) =~= self@.two_cells.subrange(
                            0,
                            idx + 1,
                        ).filter_map(f));
                    }
                },
            }
            idx += 1;
        }
        proof {
            assert(self@.two_cells.subrange(0, n as int) =~= self@.two_cells);
        }
        out
    }

    /// Whether the sheet owns any drawing object at all.
    pub fn has_drawing_object(&self) -> (r: bool)
        ensures
            r == (self@.charts.len() > 0 || self@.images.len() > 0 || self@.one_cells.len() > 0
                || self@.two_cells.len() > 0),
    {
        self.chart_collection.len() > 0 || self.image_collection.len() > 0
            || self.one_cell_anchor_collection.len() > 0
            || self.two_cell_anchor_collection.len() > 0
    }



    /// Load the whole drawing part from the typed element stream, starting
    /// at `*pos` just inside the root element, up to and including the end
    /// tag that closes it.  Anchors parsed inside an alternate-content
    /// wrapper belong, in order, to the sheet's embedded objects; the rest
    /// are filed into this collection by payload kind.  Returns whether the
    /// root element closed properly; on failure `*pos` stays at the
    /// offending event.
    pub fn set_attributes(
        &mut self,
        events: &Vec<XmlEvent>,
        pos: &mut usize,
        ole_objects: &mut OleObjects,
    ) -> (r: bool)
        requires
            *old(pos) <= events@.len(),
        ensures
            ({
                let m = spec_parse_drawing(
                    old(self)@,
                    old(ole_objects)@,
                    false,
                    0,
                    event_views(events@),
                    *old(pos) as int,
                );
                r == m.0 && final(self)@ == m.1 && final(ole_objects)@ == m.2
                    && *final(pos) as int == m.3
            }),
            *final(pos) <= events@.len(),
    {
        let ghost evs = event_views(events@);
        let ghost goal = spec_parse_drawing(
            old(self)@,
            old(ole_objects)@,
            false,
            0,
            evs,
            *old(pos) as int,
        );
        let mut alternate = false;
        let mut ole_index: usize = 0;
        loop
            invariant
                evs == event_views(events@),
                evs.len() == events@.len(),
                *pos <= events@.len(),
                goal == spec_parse_drawing(
                    old(self)@,
                    old(ole_objects)@,
                    false,
                    0,
                    evs,
                    *old(pos) as int,
                ),
                goal == spec_parse_drawing(
                    self@,
                    ole_objects@,
                    alternate,
                    ole_index as int,
                    evs,
                    *pos as int,
                ),
            decreases events@.len() - *pos,
        {
            let i = *pos;
            if i >= events.len() {
                return false;
            }
            proof {
                assert(evs[i as int] == events@[i as int]@);
            }
            match &events[i] {
                XmlEvent::StartTag(t) => {
                    if str_eq(t.get_name(), "mc:AlternateContent") {
                        alternate = true;
                        *pos = i + 1;
                    } else if str_eq(t.get_name(), "xdr:oneCellAnchor") {
                        if alternate {
                            *pos = i + 1;
                        } else {
                            let mut obj = OneCellAnchor::default();
                            proof {
                                assert(obj@ == spec_fresh_one_cell());
                            }
                            *pos = i + 1;
                            let ok = obj.set_attributes(events, pos);
                            if !ok {
                                return false;
                            }
                            let ghost before = self@;
                            let ghost parsed = obj@;
                            if obj.is_image() {
                                let mut image = Image::default();
                                image.set_one_cell_anchor(obj);
                                self.add_image(image);
                            } else {
                                self.add_one_cell_anchor_collection(obj);
                            }
                            proof {
                                assert(self@ == spec_file_one_cell(before, parsed));
                            }
                        }
                    } else if str_eq(t.get_name(), "xdr:twoCellAnchor") {
                        if alternate && ole_objects.has_ole_object() {
                            let total = ole_objects.get_ole_object().len();
                            if ole_index < total {
                                *pos = i + 1;
                                let ok = ole_objects.parse_alternate_anchor_at(
                                    ole_index,
                                    events,
                                    pos,
                                );
                                if !ok {
                                    return false;
                                }
                                ole_index = ole_index + 1;
                            } else {
                                return false;
                            }
                        } else {
                            let mut obj = TwoCellAnchor::default();
                            proof {
                                assert(obj@ == spec_fresh_two_cell());
                            }
                            *pos = i + 1;
                            let ok = obj.set_attributes(events, pos);
                            if !ok {
                                return false;
                            }
                            let ghost before = self@;
                            let ghost parsed = obj@;
                            if obj.is_support() {
                                if obj.is_chart() {
                                    let mut chart = Chart::default();
                                    chart.set_two_cell_anchor(obj);
                                    self.add_chart_collection(chart);
                                } else if obj.is_image() {
                                    let mut image = Image::default();
                                    image.set_two_cell_anchor(obj);
                                    self.add_image(image);
                                } else {
                                    self.add_two_cell_anchor_collection(obj);
                                }
                            }
                            proof {
                                assert(self@ == spec_file_two_cell(before, parsed));
                            }
                        }
                    } else {
                        *pos = i + 1;
                    }
                },
                XmlEvent::EmptyTag(_) => {
                    *pos = i + 1;
                },
                XmlEvent::EndTag(name) => {
                    if str_eq(name.as_str(), "xdr:wsDr") {
                        *pos = i + 1;
                        return true;
                    } else if str_eq(name.as_str(), "mc:AlternateContent") {
                        alternate = false;
                        *pos = i + 1;
                    } else {
                        *pos = i + 1;
                    }
                },
                XmlEvent::Text(_) => {
                    *pos = i + 1;
                },
                XmlEvent::NumberText(_) => {
                    *pos = i + 1;
                },
                XmlEvent::Eof => {
                    return false;
                },
            }
        }
    }

    /// Append the canonical element-stream encoding of the whole drawing
    /// part, including the embedded objects' anchors, to `events`.
    #[verifier::rlimit(50)]
    pub fn write_to(&self, events: &mut Vec<XmlEvent>, ole_objects: &OleObjects)
        ensures
            event_views(final(events)@) == event_views(old(events)@) + spec_drawing_events(
                self@,
                ole_objects@,
            ),
    {
        let mut root = XmlTag::new(String::from_str("xdr:wsDr"));
        root.add_attribute(
            String::from_str("xmlns:xdr"),
            String::from_str("http://schemas.openxmlformats.org/drawingml/2006/spreadsheetDrawing"),
        );
        root.add_attribute(
            String::from_str("xmlns:a"),
            String::from_str("http://schemas.openxmlformats.org/drawingml/2006/main"),
        );
        proof {
            assert(root@.attributes =~= seq![
                XmlAttributeView {
                    key: "xmlns:xdr"@,
                    value: "http://schemas.openxmlformats.org/drawingml/2006/spreadsheetDrawing"@,
                },
                XmlAttributeView {
                    key: "xmlns:a"@,
                    value: "http://schemas.openxmlformats.org/drawingml/2006/main"@,
                },
            ]);
        }
        events.push(XmlEvent::StartTag(root));
        let ghost after_root = event_views(events@);

        let n_charts = self.chart_collection.len();
        let mut idx: usize = 0;
        proof {
            assert(self@.charts.subrange(0, 0) =~= Seq::<ChartView>::empty());
            assert(event_views(events@) =~= after_root + spec_chart_list_events(
                self@.charts.subrange(0, 0),
            ));
        }
        while idx < n_charts
            invariant
                n_charts == self.chart_collection@.len(),
                n_charts == self@.charts.len(),
                idx <= n_charts,
                forall|i: int| 0 <= i < n_charts ==> self@.charts[i] == (
                #[trigger] self.chart_collection@[i])@,
                event_views(events@) == after_root + spec_chart_list_events(
                    self@.charts.subrange(0, idx as int),
                ),
            decreases n_charts - idx,
        {
            let chart = &self.chart_collection[idx];
            chart.write_to(events);
            proof {
                assert(self@.charts.subrange(0, idx + 1).drop_last() =~= self@.charts.subrange(
                    0,
                    idx as int,
                ));
                assert(event_views(events@) =~= after_root + spec_chart_list_events(
                    self@.charts.subrange(0, idx + 1),
                ));
            }
            idx += 1;
        }
        proof {
            assert(self@.charts.subrange(0, n_charts as int) =~= self@.charts);
        }
        let ghost after_charts = event_views(events@);

        let n_images = self.image_collection.len();
        let mut idx2: usize = 0;
        proof {
            assert(self@.images.subrange(0, 0) =~= Seq::<ImageView>::empty());
            assert(event_views(events@) =~= after_charts + spec_image_list_events(
                self@.images.subrange(0, 0),
            ));
        }
        while idx2 < n_images
            invariant
                n_images == self.image_collection@.len(),
                n_images == self@.images.len(),
                idx2 <= n_images,
                forall|i: int| 0 <= i < n_images ==> self@.images[i] == (
                #[trigger] self.image_collection@[i])@,
                event_views(events@) == after_charts + spec_image_list_events(
                    self@.images.subrange(0, idx2 as int),
                ),
            decreases n_images - idx2,
        {
            let image = &self.image_collection[idx2];
            image.write_to(events);
            proof {
                assert(self@.images.subrange(0, idx2 + 1).drop_last() =~= self@.images.subrange(
                    0,
                    idx2 as int,
                ));
                assert(event_views(events@) =~= after_charts + spec_image_list_events(
                    self@.images.subrange(0, idx2 + 1),
                ));
            }
            idx2 += 1;
        }
        proof {
            assert(self@.images.subrange(0, n_images as int) =~= self@.images);
        }
        let ghost after_images = event_views(events@);

        let n_two = self.two_cell_anchor_collection.len();
        let mut idx3: usize = 0;
        proof {
            assert(self@.two_cells.subrange(0, 0) =~= Seq::<TwoCellAnchorView>::empty());
            assert(event_views(events@) =~= after_images + spec_two_cell_list_events(
                self@.two_cells.subrange(0, 0),
            ));
        }
        while idx3 < n_two
            invariant
                n_two == self.two_cell_anchor_collection@.len(),
                n_two == self@.two_cells.len(),
                idx3 <= n_two,
                forall|i: int| 0 <= i < n_two ==> self@.two_cells[i] == (
                #[trigger] self.two_cell_anchor_collection@[i])@,
                event_views(events@) == after_images + spec_two_cell_list_events(
                    self@.two_cells.subrange(0, idx3 as int),
                ),
            decreases n_two - idx3,
        {
            let anchor_obj = &self.two_cell_anchor_collection[idx3];
            anchor_obj.write_to(events);
            proof {
                assert(self@.two_cells.subrange(0, idx3 + 1).drop_last()
                    =~= self@.two_cells.subrange(0, idx3 as int));
                assert(event_views(events@) =~= after_images + spec_two_cell_list_events(
                    self@.two_cells.subrange(0, idx3 + 1),
                ));
            }
            idx3 += 1;
        }
        proof {
            assert(self@.two_cells.subrange(0, n_two as int) =~= self@.two_cells);
        }
        let ghost after_two = event_views(events@);

        let n_one = self.one_cell_anchor_collection.len();
        let mut idx4: usize = 0;
        proof {
            assert(self@.one_cells.subrange(0, 0) =~= Seq::<OneCellAnchorView>::empty());
            assert(event_views(events@) =~= after_two + spec_one_cell_list_events(
                self@.one_cells.subrange(0, 0),
            ));
        }
        while idx4 < n_one
            invariant
                n_one == self.one_cell_anchor_collection@.len(),
                n_one == self@.one_cells.len(),
                idx4 <= n_one,
                forall|i: int| 0 <= i < n_one ==> self@.one_cells[i] == (
                #[trigger] self.one_cell_anchor_collection@[i])@,
                event_views(events@) == after_two + spec_one_cell_list_events(
                    self@.one_cells.subrange(0, idx4 as int),
                ),
            decreases n_one - idx4,
        {
            let anchor_obj = &self.one_cell_anchor_collection[idx4];
            anchor_obj.write_to(events);
            proof {
                assert(self@.one_cells.subrange(0, idx4 + 1).drop_last()
                    =~= self@.one_cells.subrange(0, idx4 as int));
                assert(event_views(events@) =~= after_two + spec_one_cell_list_events(
                    self@.one_cells.subrange(0, idx4 + 1),
                ));
            }
            idx4 += 1;
        }
        proof {
            assert(self@.one_cells.subrange(0, n_one as int) =~= self@.one_cells);
        }
        let ghost after_one = event_views(events@);

        let oles = ole_objects.get_ole_object();
        let n_oles = oles.len();
        let mut idx5: usize = 0;
        proof {
            assert(ole_objects@.subrange(0, 0) =~= Seq::<OleObjectView>::empty());
            assert(event_views(events@) =~= after_one + spec_ole_list_events(
                ole_objects@.subrange(0, 0),
            ));
        }
        while idx5 < n_oles
            invariant
                n_oles == oles@.len(),
                n_oles == ole_objects@.len(),
                idx5 <= n_oles,
                forall|i: int| 0 <= i < n_oles ==> ole_objects@[i] == (#[trigger] oles@[i])@,
                event_views(events@) == after_one + spec_ole_list_events(
                    ole_objects@.subrange(0, idx5 as int),
                ),
            decreases n_oles - idx5,
        {
            let ole = &oles[idx5];
            ole.get_two_cell_anchor().write_to(events);
            proof {
                assert(ole_objects@.subrange(0, idx5 + 1).drop_last()
                    =~= ole_objects@.subrange(0, idx5 as int));
                assert(event_views(events@) =~= after_one + spec_ole_list_events(
                    ole_objects@.subrange(0, idx5 + 1),
                ));
            }
            idx5 += 1;
        }
        proof {
            assert(ole_objects@.subrange(0, n_oles as int) =~= ole_objects@);
        }

        events.push(XmlEvent::EndTag(String::from_str("xdr:wsDr")));
        proof {
            let head = seq![
                XmlEventView::StartTag(
                    XmlTagView {
                        name: "xdr:wsDr"@,
                        attributes: seq![
                            XmlAttributeView {
                                key: "xmlns:xdr"@,
                                value: "http://schemas.openxmlformats.org/drawingml/2006/spreadsheetDrawing"@,
                            },
                            XmlAttributeView {
                                key: "xmlns:a"@,
                                value: "http://schemas.openxmlformats.org/drawingml/2006/main"@,
                            },
                        ],
                    },
                ),
            ];
            let tail = seq![XmlEventView::EndTag("xdr:wsDr"@)];
            assert(after_root =~~= event_views(old(events)@) + head);
            assert(event_views(events@) =~= after_one + spec_ole_list_events(ole_objects@)
                + tail);
            assert(spec_drawing_events(self@, ole_objects@) == head + spec_chart_list_events(
                self@.charts,
            ) + spec_image_list_events(self@.images) + spec_two_cell_list_events(self@.two_cells)
                + spec_one_cell_list_events(self@.one_cells) + spec_ole_list_events(ole_objects@)
                + tail);
            assert(event_views(events@) =~~= event_views(old(events)@) + spec_drawing_events(
                self@,
                ole_objects@,
            ));
        }
    }


    /// One single-axis insert: `count` rows or columns enter at `pivot`.
    /// The other axis is untouched.
    pub fn insert(&mut self, axis: SheetAxis, pivot: u32, count: u32)
        requires
            pivot >= 1,
            match axis {
                SheetAxis::Row => drawing_insert_fits(old(self)@, 0, 0, pivot as int, count as int),
                SheetAxis::Column => drawing_insert_fits(
                    old(self)@,
                    pivot as int,
                    count as int,
                    0,
                    0,
                ),
            },
        ensures
            final(self)@ == (match axis {
                SheetAxis::Row => drawing_after_insert(old(self)@, 0, 0, pivot as int, count as int),
                SheetAxis::Column => drawing_after_insert(
                    old(self)@,
                    pivot as int,
                    count as int,
                    0,
                    0,
                ),
            }),
    {
        match axis {
            SheetAxis::Row => self.adjustment_insert_coordinate(0, 0, pivot, count),
            SheetAxis::Column => self.adjustment_insert_coordinate(pivot, count, 0, 0),
        }
    }

    /// One single-axis removal: `count` rows or columns leave starting at
    /// `pivot`.  The other axis is untouched.
    pub fn remove(&mut self, axis: SheetAxis, pivot: u32, count: u32)
        requires
            pivot >= 1,
        ensures
            final(self)@ == (match axis {
                SheetAxis::Row => drawing_after_remove(old(self)@, 0, 0, pivot as int, count as int),
                SheetAxis::Column => drawing_after_remove(
                    old(self)@,
                    pivot as int,
                    count as int,
                    0,
                    0,
                ),
            }),
    {
        match axis {
            SheetAxis::Row => self.adjustment_remove_coordinate(0, 0, pivot, count),
            SheetAxis::Column => self.adjustment_remove_coordinate(pivot, count, 0, 0),
        }
    }

    /// Fan an insert of columns and rows out to every owned object.  No
    /// object is removed and the order within each sequence is preserved.
    pub fn adjustment_insert_coordinate(
        &mut self,
        root_col_num: u32,
        offset_col_num: u32,
        root_row_num: u32,
        offset_row_num: u32,
    )
        requires
            drawing_insert_fits(
                old(self)@,
                root_col_num as int,
                offset_col_num as int,
                root_row_num as int,
                offset_row_num as int,
            ),
        ensures
            final(self)@ == drawing_after_insert(
                old(self)@,
                root_col_num as int,
                offset_col_num as int,
                root_row_num as int,
                offset_row_num as int,
            ),
    {
        proof {
            let rc = root_col_num as int;
            let oc = offset_col_num as int;
            let rr = root_row_num as int;
            let orr = offset_row_num as int;
            assert forall|i: int| 0 <= i < self.image_collection@.len() implies image_insert_fits(
                (#[trigger] self.image_collection@[i])@,
                rc,
                oc,
                rr,
                orr,
            ) by {
                assert(old(self)@.images[i] == self.image_collection@[i]@);
            }
            assert forall|i: int| 0 <= i < self.chart_collection@.len() implies chart_insert_fits(
                (#[trigger] self.chart_collection@[i])@,
                rc,
                oc,
                rr,
                orr,
            ) by {
                assert(old(self)@.charts[i] == self.chart_collection@[i]@);
            }
            assert forall|i: int|
                0 <= i < self.one_cell_anchor_collection@.len() implies one_cell_insert_fits(
                (#[trigger] self.one_cell_anchor_collection@[i])@,
                rc,
                oc,
                rr,
                orr,
            ) by {
                assert(old(self)@.one_cells[i] == self.one_cell_anchor_collection@[i]@);
            }
            assert forall|i: int|
                0 <= i < self.two_cell_anchor_collection@.len() implies two_cell_insert_fits(
                (#[trigger] self.two_cell_anchor_collection@[i])@,
                rc,
                oc,
                rr,
                orr,
            ) by {
                assert(old(self)@.two_cells[i] == self.two_cell_anchor_collection@[i]@);
            }
        }
        insert_one_cells(
            &mut self.one_cell_anchor_collection,
            root_col_num,
            offset_col_num,
            root_row_num,
            offset_row_num,
        );
        insert_two_cells(
            &mut self.two_cell_anchor_collection,
            root_col_num,
            offset_col_num,
            root_row_num,
            offset_row_num,
        );
        insert_charts(
            &mut self.chart_collection,
            root_col_num,
            offset_col_num,
            root_row_num,
            offset_row_num,
        );
        insert_images(
            &mut self.image_collection,
            root_col_num,
            offset_col_num,
            root_row_num,
            offset_row_num,
        );
    }

    /// Fan a removal of columns and rows out to every owned object: first
    /// discard every object whose whole bounding box lies inside the removed
    /// window, testing against the pre-edit coordinates, then shift or clamp
    /// the survivors.  The order of the survivors is preserved.
    pub fn adjustment_remove_coordinate(
        &mut self,
        root_col_num: u32,
        offset_col_num: u32,
        root_row_num: u32,
        offset_row_num: u32,
    )
        ensures
            final(self)@ == drawing_after_remove(
                old(self)@,
                root_col_num as int,
                offset_col_num as int,
                root_row_num as int,
                offset_row_num as int,
            ),
    {
        remove_one_cells(
            &mut self.one_cell_anchor_collection,
            root_col_num,
            offset_col_num,
            root_row_num,
            offset_row_num,
        );
        remove_two_cells(
            &mut self.two_cell_anchor_collection,
            root_col_num,
            offset_col_num,
            root_row_num,
            offset_row_num,
        );
        remove_charts(
            &mut self.chart_collection,
            root_col_num,
            offset_col_num,
            root_row_num,
            offset_row_num,
        );
        remove_images(
            &mut self.image_collection,
            root_col_num,
            offset_col_num,
            root_row_num,
            offset_row_num,
        );
    }

    /// The cross-sheet pass of an insert on the sheet named `sheet_name`:
    /// rewrite the data reference of every chart that names that sheet.
    /// Visual anchors, and every other object kind, are untouched.
    pub fn adjustment_insert_coordinate_with_sheet(
        &mut self,
        sheet_name: &str,
        root_col_num: u32,
        offset_col_num: u32,
        root_row_num: u32,
        offset_row_num: u32,
    )
        requires
            drawing_insert_with_sheet_fits(
                old(self)@,
                sheet_name@,
                root_col_num as int,
                offset_col_num as int,
                root_row_num as int,
                offset_row_num as int,
            ),
        ensures
            final(self)@ == drawing_after_insert_with_sheet(
                old(self)@,
                sheet_name@,
                root_col_num as int,
                offset_col_num as int,
                root_row_num as int,
                offset_row_num as int,
            ),
    {
        proof {
            let rc = root_col_num as int;
            let oc = offset_col_num as int;
            let rr = root_row_num as int;
            let orr = offset_row_num as int;
            assert forall|i: int|
                0 <= i < self.chart_collection@.len() && (#[trigger] self.chart_collection@[i])@
                    .data_sheet_name == sheet_name@ implies range_insert_fits(
                self.chart_collection@[i]@.data_range,
                rc,
                oc,
                rr,
                orr,
            ) by {
                assert(old(self)@.charts[i] == self.chart_collection@[i]@);
            }
        }
        insert_charts_with_sheet(
            &mut self.chart_collection,
            sheet_name,
            root_col_num,
            offset_col_num,
            root_row_num,
            offset_row_num,
        );
    }

    /// The cross-sheet pass of a removal on the sheet named `sheet_name`,
    /// as for `adjustment_insert_coordinate_with_sheet`.
    pub fn adjustment_remove_coordinate_with_sheet(
        &mut self,
        sheet_name: &str,
        root_col_num: u32,
        offset_col_num: u32,
        root_row_num: u32,
        offset_row_num: u32,
    )
        ensures
            final(self)@ == drawing_after_remove_with_sheet(
                old(self)@,
                sheet_name@,
                root_col_num as int,
                offset_col_num as int,
                root_row_num as int,
                offset_row_num as int,
            ),
    {
        remove_charts_with_sheet(
            &mut self.chart_collection,
            sheet_name,
            root_col_num,
            offset_col_num,
            root_row_num,
            offset_row_num,
        );
    }
}

} // verus!

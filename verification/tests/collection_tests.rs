//! The drawing collection: fan-out, compaction, order, queries, and the
//! cross-sheet pass, on concrete documents.

use sheetdraw::cell_range::CellRange;
use sheetdraw::chart::Chart;
use sheetdraw::content::{GraphicFrame, Picture, Shape};
use sheetdraw::image::Image;
use sheetdraw::marker::{FromMarker, ToMarker};
use sheetdraw::ole_object::OleObject;
use sheetdraw::ole_objects::OleObjects;
use sheetdraw::one_cell_anchor::OneCellAnchor;
use sheetdraw::two_cell_anchor::TwoCellAnchor;
use sheetdraw::worksheet_drawing::{SheetAxis, WorksheetDrawing};

fn image_at(col: u32, row: u32) -> Image {
    let mut marker = FromMarker::default();
    marker.set_col(col);
    marker.set_row(row);
    let mut anchor = OneCellAnchor::default();
    anchor.set_from_marker(marker);
    let mut image = Image::default();
    image.set_one_cell_anchor(anchor);
    image
}

fn two_cell_between(from_row: u32, to_row: u32) -> TwoCellAnchor {
    let mut from = FromMarker::default();
    from.set_row(from_row);
    let mut to = ToMarker::default();
    to.set_row(to_row);
    let mut anchor = TwoCellAnchor::default();
    anchor.set_from_marker(from);
    anchor.set_to_marker(to);
    anchor
}

#[test]
fn full_containment_deletes_and_rest_survive() {
    // Four images with row anchors 2, 5, 10, 11; removing rows 10 and 11
    // deletes exactly the two fully contained images.
    let mut ws = WorksheetDrawing::default();
    ws.add_image(image_at(1, 2));
    ws.add_image(image_at(1, 5));
    ws.add_image(image_at(1, 10));
    ws.add_image(image_at(1, 11));
    ws.adjustment_remove_coordinate(0, 0, 10, 2);
    let images = ws.get_image_collection();
    assert_eq!(images.len(), 2);
    assert_eq!(images[0].get_row(), 2);
    assert_eq!(images[1].get_row(), 5);
}

#[test]
fn column_remove_leaves_row_contained_objects() {
    // An object sitting inside rows 10..12 survives a column removal that
    // does not cover its column, and its rows are untouched.
    let mut ws = WorksheetDrawing::default();
    ws.add_image(image_at(5, 10));
    ws.adjustment_remove_coordinate(20, 2, 0, 0);
    let images = ws.get_image_collection();
    assert_eq!(images.len(), 1);
    assert_eq!(images[0].get_col(), 5);
    assert_eq!(images[0].get_row(), 10);
}

#[test]
fn insert_never_removes_and_preserves_order() {
    let mut ws = WorksheetDrawing::default();
    ws.add_image(image_at(1, 2));
    ws.add_image(image_at(1, 12));
    ws.add_image(image_at(1, 7));
    ws.adjustment_insert_coordinate(0, 0, 5, 3);
    let images = ws.get_image_collection();
    assert_eq!(images.len(), 3);
    assert_eq!(images[0].get_row(), 2);
    assert_eq!(images[1].get_row(), 15);
    assert_eq!(images[2].get_row(), 10);
}

#[test]
fn remove_preserves_order_of_survivors() {
    // The middle object is deleted; the survivors keep their relative order.
    let mut ws = WorksheetDrawing::default();
    ws.add_two_cell_anchor_collection(two_cell_between(2, 3));
    ws.add_two_cell_anchor_collection(two_cell_between(10, 11));
    ws.add_two_cell_anchor_collection(two_cell_between(20, 25));
    ws.adjustment_remove_coordinate(0, 0, 10, 2);
    let anchors = ws.get_two_cell_anchor_collection();
    assert_eq!(anchors.len(), 2);
    assert_eq!(*anchors[0].get_from_marker().get_row(), 2);
    assert_eq!(*anchors[0].get_to_marker().get_row(), 3);
    assert_eq!(*anchors[1].get_from_marker().get_row(), 18);
    assert_eq!(*anchors[1].get_to_marker().get_row(), 23);
}

#[test]
fn straddling_object_survives_with_clamp_and_shift() {
    // Partial overlap: from inside the window clamps to 1, to past the
    // window shifts down by the count.
    let mut ws = WorksheetDrawing::default();
    ws.add_two_cell_anchor_collection(two_cell_between(10, 14));
    ws.adjustment_remove_coordinate(0, 0, 10, 2);
    let anchors = ws.get_two_cell_anchor_collection();
    assert_eq!(anchors.len(), 1);
    assert_eq!(*anchors[0].get_from_marker().get_row(), 1);
    assert_eq!(*anchors[0].get_to_marker().get_row(), 12);
}

#[test]
fn straddling_from_below_keeps_outside_endpoint() {
    let mut ws = WorksheetDrawing::default();
    ws.add_two_cell_anchor_collection(two_cell_between(8, 11));
    ws.adjustment_remove_coordinate(0, 0, 10, 2);
    let anchors = ws.get_two_cell_anchor_collection();
    assert_eq!(anchors.len(), 1);
    assert_eq!(*anchors[0].get_from_marker().get_row(), 8);
    assert_eq!(*anchors[0].get_to_marker().get_row(), 1);
}

#[test]
fn cross_sheet_pass_rewrites_only_matching_references() {
    // A chart hosted anywhere whose reference names another sheet is
    // untouched by an edit of this sheet, even if the chart is hosted here.
    let mut ws = WorksheetDrawing::default();
    let mut chart = Chart::default();
    chart.set_data_sheet_name(String::from("Sheet2"));
    chart.set_data_range(CellRange::new(1, 10, 2, 20));
    ws.add_chart_collection(chart);
    ws.adjustment_insert_coordinate_with_sheet("Sheet1", 0, 0, 10, 3);
    {
        let charts = ws.get_chart_collection();
        let range = charts[0].get_data_range();
        assert_eq!(range.get_start_row(), 10);
        assert_eq!(range.get_end_row(), 20);
    }
    ws.adjustment_insert_coordinate_with_sheet("Sheet2", 0, 0, 10, 3);
    {
        let charts = ws.get_chart_collection();
        let range = charts[0].get_data_range();
        assert_eq!(range.get_start_row(), 13);
        assert_eq!(range.get_end_row(), 23);
    }
}

#[test]
fn cross_sheet_pass_never_moves_the_anchor() {
    let mut ws = WorksheetDrawing::default();
    let mut chart = Chart::default();
    chart.set_two_cell_anchor(two_cell_between(4, 9));
    chart.set_data_sheet_name(String::from("Sheet1"));
    chart.set_data_range(CellRange::new(1, 3, 1, 8));
    ws.add_chart_collection(chart);
    ws.adjustment_insert_coordinate_with_sheet("Sheet1", 0, 0, 2, 5);
    let charts = ws.get_chart_collection();
    assert_eq!(charts[0].get_row(), 4);
    assert_eq!(*charts[0].get_two_cell_anchor().get_to_marker().get_row(), 9);
    assert_eq!(charts[0].get_data_range().get_start_row(), 8);
    assert_eq!(charts[0].get_data_range().get_end_row(), 13);
}

#[test]
fn hosting_sheet_pass_never_touches_the_reference() {
    let mut ws = WorksheetDrawing::default();
    let mut chart = Chart::default();
    chart.set_two_cell_anchor(two_cell_between(4, 9));
    chart.set_data_sheet_name(String::from("Sheet1"));
    chart.set_data_range(CellRange::new(2, 3, 4, 5));
    ws.add_chart_collection(chart);
    ws.adjustment_insert_coordinate(0, 0, 2, 5);
    let charts = ws.get_chart_collection();
    assert_eq!(charts[0].get_row(), 9);
    assert_eq!(charts[0].get_data_range().get_start_row(), 3);
    assert_eq!(charts[0].get_data_range().get_end_row(), 5);
}

#[test]
fn queries_find_by_anchor_cell() {
    let mut ws = WorksheetDrawing::default();
    ws.add_image(image_at(3, 4));
    ws.add_image(image_at(3, 4));
    ws.add_image(image_at(7, 9));
    assert!(ws.get_image(&3, &4).is_some());
    assert!(ws.get_image(&1, &1).is_none());
    assert_eq!(ws.get_images(&3, &4).len(), 2);
    assert_eq!(ws.get_images(&7, &9).len(), 1);
    assert_eq!(ws.get_images(&7, &4).len(), 0);
}

#[test]
fn chart_queries_find_by_anchor_cell() {
    let mut ws = WorksheetDrawing::default();
    let mut chart = Chart::default();
    chart.set_two_cell_anchor(two_cell_between(6, 8));
    ws.add_chart_collection(chart);
    assert!(ws.get_chart(&1, &6).is_some());
    assert!(ws.get_chart(&1, &7).is_none());
    assert_eq!(ws.get_charts(&1, &6).len(), 1);
}

#[test]
fn content_collections_filter_by_kind() {
    let mut ws = WorksheetDrawing::default();
    let mut with_frame = TwoCellAnchor::default();
    let mut frame = GraphicFrame::default();
    frame.set_name(String::from("plot"));
    with_frame.set_graphic_frame(frame);
    let mut with_shape = TwoCellAnchor::default();
    let mut shape = Shape::default();
    shape.set_name(String::from("box"));
    with_shape.set_shape(shape);
    ws.add_two_cell_anchor_collection(with_frame);
    ws.add_two_cell_anchor_collection(with_shape);
    assert_eq!(ws.get_graphic_frame_collection().len(), 1);
    assert_eq!(ws.get_graphic_frame_collection()[0].get_name(), "plot");
    assert_eq!(ws.get_shape_collection().len(), 1);
    assert_eq!(ws.get_shape_collection()[0].get_name(), "box");
    assert_eq!(ws.get_connection_shape_collection().len(), 0);
    assert_eq!(ws.get_picture_collection().len(), 0);
}

#[test]
fn has_drawing_object_sees_every_kind() {
    let mut ws = WorksheetDrawing::default();
    assert!(!ws.has_drawing_object());
    ws.add_one_cell_anchor_collection(OneCellAnchor::default());
    assert!(ws.has_drawing_object());
}

#[test]
fn one_cell_anchor_image_dispatch() {
    let mut anchor = OneCellAnchor::default();
    assert!(!anchor.is_image());
    anchor.set_picture(Picture::default());
    assert!(anchor.is_image());
}

#[test]
fn two_cell_anchor_kind_dispatch() {
    let mut anchor = TwoCellAnchor::default();
    assert!(!anchor.is_support());
    assert!(!anchor.is_chart());
    assert!(!anchor.is_image());
    anchor.set_graphic_frame(GraphicFrame::default());
    assert!(anchor.is_support());
    assert!(anchor.is_chart());
    assert!(!anchor.is_image());
    anchor.set_picture(Picture::default());
    assert!(anchor.is_image());
    assert!(!anchor.is_chart());
}

#[test]
fn ole_objects_adjust_and_compact() {
    let mut oles = OleObjects::default();
    let mut inside = OleObject::default();
    inside.set_two_cell_anchor(two_cell_between(10, 11));
    let mut outside = OleObject::default();
    outside.set_two_cell_anchor(two_cell_between(20, 22));
    oles.add_ole_object(inside);
    oles.add_ole_object(outside);
    assert!(oles.has_ole_object());
    oles.adjustment_remove_coordinate(0, 0, 10, 2);
    let list = oles.get_ole_object();
    assert_eq!(list.len(), 1);
    assert_eq!(*list[0].get_two_cell_anchor().get_from_marker().get_row(), 18);
}

#[test]
fn ole_object_extension_dispatch() {
    let mut ole = OleObject::default();
    ole.set_object_extension(String::from("bin"));
    assert!(ole.is_bin());
    assert!(!ole.is_xlsx());
    ole.set_object_extension(String::from("xlsx"));
    assert!(ole.is_xlsx());
    assert!(!ole.is_bin());
    ole.set_object_data(vec![1u8, 2, 3]);
    assert_eq!(ole.get_object_data().unwrap().as_slice(), &[1u8, 2, 3]);
}

#[test]
fn image_uses_whichever_anchor_is_present() {
    let mut image = Image::default();
    image.set_two_cell_anchor(two_cell_between(10, 12));
    assert_eq!(image.get_row(), 10);
    image.adjustment_insert_coordinate(0, 0, 5, 2);
    assert_eq!(image.get_row(), 12);
    assert!(image.is_remove_coordinate(0, 0, 12, 3));
    assert!(!image.is_remove_coordinate(0, 0, 12, 2));
}

#[test]
fn single_axis_interface_decomposes_edits() {
    let mut ws = WorksheetDrawing::default();
    ws.add_image(image_at(4, 12));
    ws.insert(SheetAxis::Row, 10, 3);
    assert_eq!(ws.get_image_collection()[0].get_row(), 15);
    assert_eq!(ws.get_image_collection()[0].get_col(), 4);
    ws.insert(SheetAxis::Column, 2, 1);
    assert_eq!(ws.get_image_collection()[0].get_col(), 5);
    assert_eq!(ws.get_image_collection()[0].get_row(), 15);
    ws.remove(SheetAxis::Row, 15, 1);
    assert_eq!(ws.get_image_collection().len(), 0);
}

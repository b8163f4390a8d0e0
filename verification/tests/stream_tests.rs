//! Reading and writing the typed element stream.

use sheetdraw::chart_parts::{RightAngleAxes, ShowLeaderLines};
use sheetdraw::chart::Chart;
use sheetdraw::chart_parts::{AreaChartSeries, Floor, PieChart, ShapeProperties, Thickness};
use sheetdraw::drawing_parts::{EffectList, Glow, Paragraph, Run, RunProperties, SoftEdge,
    SpaceBefore, SpacingPercent};
use sheetdraw::embedded_object_properties::EmbeddedObjectProperties;
use sheetdraw::style_parts::Font;
use sheetdraw::text_element::TextElement;
use sheetdraw::sheet_parts::{Break, ColumnBreaks, DataValidation, DataValidations,
    ResizeWithCells};
use sheetdraw::content::{GraphicFrame, Picture};
use sheetdraw::image::Image;
use sheetdraw::marker::{FromMarker, ToMarker};
use sheetdraw::ole_object::OleObject;
use sheetdraw::ole_objects::OleObjects;
use sheetdraw::one_cell_anchor::OneCellAnchor;
use sheetdraw::sheet_parts::OddFooter;
use sheetdraw::two_cell_anchor::TwoCellAnchor;
use sheetdraw::worksheet_drawing::WorksheetDrawing;
use sheetdraw::xml::{XmlEvent, XmlTag};

fn start(name: &str) -> XmlEvent {
    XmlEvent::StartTag(XmlTag::new(String::from(name)))
}

fn end(name: &str) -> XmlEvent {
    XmlEvent::EndTag(String::from(name))
}

#[test]
fn to_marker_reads_its_element() {
    let events = vec![
        start("xdr:col"),
        XmlEvent::NumberText(3),
        end("xdr:col"),
        start("xdr:colOff"),
        XmlEvent::NumberText(9525),
        end("xdr:colOff"),
        start("xdr:row"),
        XmlEvent::NumberText(12),
        end("xdr:row"),
        start("xdr:rowOff"),
        XmlEvent::NumberText(190500),
        end("xdr:rowOff"),
        end("xdr:to"),
    ];
    let mut marker = ToMarker::default();
    let mut pos: usize = 0;
    assert!(marker.set_attributes(&events, &mut pos));
    assert_eq!(pos, events.len());
    assert_eq!(*marker.get_col(), 3);
    assert_eq!(*marker.get_col_off(), 9525);
    assert_eq!(*marker.get_row(), 12);
    assert_eq!(*marker.get_row_off(), 190500);
}

#[test]
fn to_marker_parse_stops_at_end_of_stream() {
    let events = vec![start("xdr:col"), XmlEvent::NumberText(3), end("xdr:col")];
    let mut marker = ToMarker::default();
    let mut pos: usize = 0;
    assert!(!marker.set_attributes(&events, &mut pos));
}

#[test]
fn to_marker_parse_rejects_raw_text() {
    let events = vec![XmlEvent::Text(String::from("three")), end("xdr:to")];
    let mut marker = ToMarker::default();
    let mut pos: usize = 0;
    assert!(!marker.set_attributes(&events, &mut pos));
    assert_eq!(pos, 0);
}

#[test]
fn to_marker_parse_rejects_oversized_coordinate() {
    let events = vec![XmlEvent::NumberText(1 << 40), end("xdr:row"), end("xdr:to")];
    let mut marker = ToMarker::default();
    let mut pos: usize = 0;
    assert!(!marker.set_attributes(&events, &mut pos));
}

#[test]
fn to_marker_parse_clamps_zero_index() {
    let events = vec![
        XmlEvent::NumberText(0),
        end("xdr:col"),
        XmlEvent::NumberText(0),
        end("xdr:colOff"),
        end("xdr:to"),
    ];
    let mut marker = ToMarker::default();
    let mut pos: usize = 0;
    assert!(marker.set_attributes(&events, &mut pos));
    assert_eq!(*marker.get_col(), 1);
    assert_eq!(*marker.get_col_off(), 0);
}

#[test]
fn marker_write_then_read_round_trips() {
    let mut marker = FromMarker::default();
    marker.set_col(7);
    marker.set_col_off(100);
    marker.set_row(21);
    marker.set_row_off(200);
    let mut events: Vec<XmlEvent> = Vec::new();
    marker.write_to(&mut events);
    assert_eq!(events.len(), 14);
    // The written element starts with its own start tag; parse the body.
    let mut back = FromMarker::default();
    let mut pos: usize = 1;
    assert!(back.set_attributes(&events, &mut pos));
    assert_eq!(pos, events.len());
    assert_eq!(*back.get_col(), 7);
    assert_eq!(*back.get_col_off(), 100);
    assert_eq!(*back.get_row(), 21);
    assert_eq!(*back.get_row_off(), 200);
}

#[test]
fn marker_write_emits_numbers_not_text() {
    let mut marker = ToMarker::default();
    marker.set_row(42);
    let mut events: Vec<XmlEvent> = Vec::new();
    marker.write_to(&mut events);
    match &events[8] {
        XmlEvent::NumberText(n) => assert_eq!(*n, 42),
        _ => panic!("row coordinate should be a number event"),
    }
}

#[test]
fn bool_attribute_reads_one_and_true() {
    let mut tag = XmlTag::new(String::from("c:rAngAx"));
    tag.add_attribute(String::from("val"), String::from("1"));
    let mut axes = RightAngleAxes::default();
    assert!(axes.set_attributes(&tag));
    assert!(*axes.get_val());

    let mut tag2 = XmlTag::new(String::from("c:showLeaderLines"));
    tag2.add_attribute(String::from("val"), String::from("true"));
    let mut lines = ShowLeaderLines::default();
    assert!(lines.set_attributes(&tag2));
    assert!(*lines.get_val());

    let mut tag3 = XmlTag::new(String::from("c:rAngAx"));
    tag3.add_attribute(String::from("val"), String::from("0"));
    assert!(axes.set_attributes(&tag3));
    assert!(!*axes.get_val());

    let tag4 = XmlTag::new(String::from("c:rAngAx"));
    assert!(!axes.set_attributes(&tag4));
}

#[test]
fn bool_attribute_write_emits_val() {
    let mut axes = RightAngleAxes::default();
    axes.set_val(true);
    let mut events: Vec<XmlEvent> = Vec::new();
    axes.write_to(&mut events);
    assert_eq!(events.len(), 1);
    match &events[0] {
        XmlEvent::EmptyTag(tag) => {
            assert_eq!(tag.get_name(), "c:rAngAx");
            assert_eq!(tag.get_attribute("val"), Some("1"));
            assert_eq!(tag.get_attribute("missing"), None);
        },
        _ => panic!("expected one empty tag"),
    }
}

#[test]
fn footer_reads_text_until_end_tag() {
    let events = vec![
        XmlEvent::Text(String::from("page footer")),
        end("oddFooter"),
    ];
    let mut footer = OddFooter::default();
    let mut pos: usize = 0;
    assert!(footer.set_attributes(&events, &mut pos));
    assert_eq!(footer.get_value(), "page footer");
}

#[test]
fn footer_write_skips_unset_value() {
    let footer = OddFooter::default();
    let mut events: Vec<XmlEvent> = Vec::new();
    footer.write_to(&mut events);
    assert!(events.is_empty());
    let mut set_footer = OddFooter::default();
    set_footer.set_value(String::from("p. 1"));
    set_footer.write_to(&mut events);
    assert_eq!(events.len(), 3);
    match &events[1] {
        XmlEvent::Text(t) => assert_eq!(t, "p. 1"),
        _ => panic!("expected the footer text"),
    }
}

#[test]
fn attribute_lookup_returns_first_match() {
    let mut tag = XmlTag::new(String::from("brk"));
    tag.add_attribute(String::from("id"), String::from("4"));
    tag.add_attribute(String::from("max"), String::from("16384"));
    tag.add_attribute(String::from("id"), String::from("9"));
    assert_eq!(tag.get_name(), "brk");
    assert_eq!(tag.get_attribute("id"), Some("4"));
    assert_eq!(tag.get_attribute("max"), Some("16384"));
    assert_eq!(tag.get_attribute("man"), None);
}

#[test]
fn two_cell_anchor_write_emits_markers_and_content() {
    let mut from = FromMarker::default();
    from.set_col(2);
    from.set_row(3);
    let mut to = ToMarker::default();
    to.set_col(5);
    to.set_row(9);
    let mut anchor = TwoCellAnchor::default();
    anchor.set_from_marker(from);
    anchor.set_to_marker(to);
    let mut picture = Picture::default();
    picture.set_name(String::from("logo"));
    anchor.set_picture(picture);
    let mut events: Vec<XmlEvent> = Vec::new();
    anchor.write_to(&mut events);
    // start, 14 from-marker events, 14 to-marker events, picture, clientData, end
    assert_eq!(events.len(), 32);
    match &events[0] {
        XmlEvent::StartTag(tag) => assert_eq!(tag.get_name(), "xdr:twoCellAnchor"),
        _ => panic!("expected the opening tag"),
    }
    match &events[29] {
        XmlEvent::EmptyTag(tag) => {
            assert_eq!(tag.get_name(), "xdr:pic");
            assert_eq!(tag.get_attribute("name"), Some("logo"));
        }
        _ => panic!("expected the picture payload"),
    }
    match &events[31] {
        XmlEvent::EndTag(name) => assert_eq!(name, "xdr:twoCellAnchor"),
        _ => panic!("expected the closing tag"),
    }
    // The embedded markers read back to the same values.
    let mut back = FromMarker::default();
    let mut pos: usize = 2;
    assert!(back.set_attributes(&events, &mut pos));
    assert_eq!(*back.get_col(), 2);
    assert_eq!(*back.get_row(), 3);
}

#[test]
fn one_cell_anchor_write_emits_decimal_extent() {
    let mut anchor = OneCellAnchor::default();
    anchor.set_extent(9525, 190500);
    let mut events: Vec<XmlEvent> = Vec::new();
    anchor.write_to(&mut events);
    // start, 14 marker events, ext, clientData, end
    assert_eq!(events.len(), 18);
    match &events[15] {
        XmlEvent::EmptyTag(tag) => {
            assert_eq!(tag.get_name(), "xdr:ext");
            assert_eq!(tag.get_attribute("cx"), Some("9525"));
            assert_eq!(tag.get_attribute("cy"), Some("190500"));
        }
        _ => panic!("expected the extent element"),
    }
}

#[test]
fn drawing_write_emits_root_and_kinds_in_order() {
    let mut ws = WorksheetDrawing::default();
    ws.add_two_cell_anchor_collection(TwoCellAnchor::default());
    let oles = OleObjects::default();
    let mut events: Vec<XmlEvent> = Vec::new();
    ws.write_to(&mut events, &oles);
    match &events[0] {
        XmlEvent::StartTag(tag) => {
            assert_eq!(tag.get_name(), "xdr:wsDr");
            assert!(tag.get_attribute("xmlns:xdr").is_some());
            assert!(tag.get_attribute("xmlns:a").is_some());
        }
        _ => panic!("expected the root tag"),
    }
    match events.last().unwrap() {
        XmlEvent::EndTag(name) => assert_eq!(name, "xdr:wsDr"),
        _ => panic!("expected the closing root tag"),
    }
    // root + one bare two-cell anchor (31 events) + closing root
    assert_eq!(events.len(), 33);
}

#[test]
fn ole_object_write_wraps_choice_and_fallback() {
    let mut ole = OleObject::default();
    ole.set_prog_id(String::from("Package"));
    ole.set_requires(String::from("x14"));
    let mut events: Vec<XmlEvent> = Vec::new();
    ole.write_to(&mut events, 3, 1025);
    assert_eq!(events.len(), 10);
    match &events[0] {
        XmlEvent::StartTag(tag) => assert_eq!(tag.get_name(), "mc:AlternateContent"),
        _ => panic!("expected the wrapper tag"),
    }
    match &events[1] {
        XmlEvent::StartTag(tag) => {
            assert_eq!(tag.get_name(), "mc:Choice");
            assert_eq!(tag.get_attribute("Requires"), Some("x14"));
        }
        _ => panic!("expected the choice tag"),
    }
    match &events[2] {
        XmlEvent::StartTag(tag) => {
            assert_eq!(tag.get_name(), "oleObject");
            assert_eq!(tag.get_attribute("progId"), Some("Package"));
            assert_eq!(tag.get_attribute("shapeId"), Some("1025"));
            assert_eq!(tag.get_attribute("r:id"), Some("rId3"));
        }
        _ => panic!("expected the object tag"),
    }
    match &events[3] {
        XmlEvent::EmptyTag(tag) => {
            assert_eq!(tag.get_name(), "objectPr");
            assert_eq!(tag.get_attribute("r:id"), Some("rId4"));
        }
        _ => panic!("expected the properties tag"),
    }
}

#[test]
fn two_cell_anchor_write_then_read_round_trips() {
    let mut from = FromMarker::default();
    from.set_col(2);
    from.set_row(3);
    let mut to = ToMarker::default();
    to.set_col(5);
    to.set_row(9);
    to.set_row_off(123);
    let mut anchor = TwoCellAnchor::default();
    anchor.set_from_marker(from);
    anchor.set_to_marker(to);
    let mut picture = Picture::default();
    picture.set_name(String::from("logo"));
    anchor.set_picture(picture);
    let mut events: Vec<XmlEvent> = Vec::new();
    anchor.write_to(&mut events);
    let mut back = TwoCellAnchor::default();
    let mut pos: usize = 1;
    assert!(back.set_attributes(&events, &mut pos));
    assert_eq!(pos, events.len());
    assert_eq!(*back.get_from_marker().get_col(), 2);
    assert_eq!(*back.get_from_marker().get_row(), 3);
    assert_eq!(*back.get_to_marker().get_col(), 5);
    assert_eq!(*back.get_to_marker().get_row(), 9);
    assert_eq!(*back.get_to_marker().get_row_off(), 123);
    assert!(back.is_image());
    assert_eq!(back.get_picture().unwrap().get_name(), "logo");
}

#[test]
fn one_cell_anchor_write_then_read_round_trips() {
    let mut from = FromMarker::default();
    from.set_col(4);
    from.set_row(7);
    let mut anchor = OneCellAnchor::default();
    anchor.set_from_marker(from);
    anchor.set_extent(9525, 190500);
    let mut events: Vec<XmlEvent> = Vec::new();
    anchor.write_to(&mut events);
    let mut back = OneCellAnchor::default();
    let mut pos: usize = 1;
    assert!(back.set_attributes(&events, &mut pos));
    assert_eq!(pos, events.len());
    assert_eq!(*back.get_from_marker().get_col(), 4);
    assert_eq!(*back.get_from_marker().get_row(), 7);
    assert_eq!(back.get_extent_width(), 9525);
    assert_eq!(back.get_extent_height(), 190500);
}

#[test]
fn one_cell_anchor_read_rejects_malformed_extent() {
    let mut tag = XmlTag::new(String::from("xdr:ext"));
    tag.add_attribute(String::from("cx"), String::from("wide"));
    tag.add_attribute(String::from("cy"), String::from("0"));
    let events = vec![XmlEvent::EmptyTag(tag), end("xdr:oneCellAnchor")];
    let mut anchor = OneCellAnchor::default();
    let mut pos: usize = 0;
    assert!(!anchor.set_attributes(&events, &mut pos));
    assert_eq!(pos, 0);
}

#[test]
fn drawing_load_files_anchors_by_payload_kind() {
    let mut ws = WorksheetDrawing::default();
    let mut chart = Chart::default();
    let mut chart_anchor = two_cell_with_payload_frame("plot");
    chart_anchor.set_from_marker({
        let mut m = FromMarker::default();
        m.set_row(6);
        m
    });
    chart.set_two_cell_anchor(chart_anchor);
    ws.add_chart_collection(chart);
    let mut image = Image::default();
    let mut pic_anchor = TwoCellAnchor::default();
    let mut picture = Picture::default();
    picture.set_name(String::from("photo"));
    pic_anchor.set_picture(picture);
    image.set_two_cell_anchor(pic_anchor);
    ws.add_image(image);
    let oles = OleObjects::default();
    let mut events: Vec<XmlEvent> = Vec::new();
    ws.write_to(&mut events, &oles);

    let mut back = WorksheetDrawing::default();
    let mut back_oles = OleObjects::default();
    let mut pos: usize = 1;
    assert!(back.set_attributes(&events, &mut pos, &mut back_oles));
    assert_eq!(pos, events.len());
    assert_eq!(back.get_chart_collection().len(), 1);
    assert_eq!(back.get_chart_collection()[0].get_row(), 6);
    assert_eq!(back.get_image_collection().len(), 1);
    assert_eq!(back.get_two_cell_anchor_collection().len(), 0);
    assert_eq!(back.get_one_cell_anchor_collection().len(), 0);
}

fn two_cell_with_payload_frame(name: &str) -> TwoCellAnchor {
    let mut anchor = TwoCellAnchor::default();
    let mut frame = GraphicFrame::default();
    frame.set_name(String::from(name));
    anchor.set_graphic_frame(frame);
    anchor
}

#[test]
fn drawing_load_routes_alternate_anchors_to_embedded_objects() {
    // One embedded object; inside the alternate-content wrapper its anchor
    // element is read into that object rather than into the collection.
    let mut oles = OleObjects::default();
    oles.add_ole_object(OleObject::default());
    let mut anchor_events: Vec<XmlEvent> = Vec::new();
    {
        let mut from = FromMarker::default();
        from.set_row(11);
        let mut anchor = TwoCellAnchor::default();
        anchor.set_from_marker(from);
        anchor.write_to(&mut anchor_events);
    }
    let mut events: Vec<XmlEvent> = Vec::new();
    events.push(start("mc:AlternateContent"));
    events.extend(anchor_events);
    events.push(end("mc:AlternateContent"));
    events.push(end("xdr:wsDr"));

    let mut ws = WorksheetDrawing::default();
    let mut pos: usize = 0;
    assert!(ws.set_attributes(&events, &mut pos, &mut oles));
    assert!(!ws.has_drawing_object());
    let list = oles.get_ole_object();
    assert_eq!(*list[0].get_two_cell_anchor().get_from_marker().get_row(), 11);
    assert!(list[0].get_two_cell_anchor().get_is_alternate_content());
}

#[test]
fn effect_list_write_then_read_round_trips() {
    let mut effects = EffectList::default();
    let mut glow = Glow::default();
    glow.set_radius(100);
    effects.set_glow(glow);
    let mut edge = SoftEdge::default();
    edge.set_radius(7);
    effects.set_soft_edge(edge);
    let mut events: Vec<XmlEvent> = Vec::new();
    effects.write_to(&mut events);
    assert_eq!(events.len(), 4);
    let mut back = EffectList::default();
    let mut pos: usize = 1;
    assert!(back.set_attributes(&events, &mut pos));
    assert_eq!(pos, events.len());
    assert_eq!(back.get_glow().unwrap().get_radius(), 100);
    assert!(back.get_outer_shadow().is_none());
    assert_eq!(back.get_soft_edge().unwrap().get_radius(), 7);
}

#[test]
fn effect_list_write_with_no_effect_is_one_empty_tag() {
    let effects = EffectList::default();
    let mut events: Vec<XmlEvent> = Vec::new();
    effects.write_to(&mut events);
    assert_eq!(events.len(), 1);
    match &events[0] {
        XmlEvent::EmptyTag(tag) => assert_eq!(tag.get_name(), "a:effectLst"),
        _ => panic!("expected one empty root"),
    }
}

#[test]
fn pie_chart_reads_its_pieces() {
    let mut vary = XmlTag::new(String::from("c:varyColors"));
    vary.add_attribute(String::from("val"), String::from("1"));
    let mut ser = XmlTag::new(String::from("c:ser"));
    ser.add_attribute(String::from("formula"), String::from("Sheet1!$A$1:$A$3"));
    let mut lines = XmlTag::new(String::from("c:showLeaderLines"));
    lines.add_attribute(String::from("val"), String::from("true"));
    let mut angle = XmlTag::new(String::from("c:firstSliceAng"));
    angle.add_attribute(String::from("val"), String::from("90"));
    let events = vec![
        XmlEvent::EmptyTag(vary),
        XmlEvent::EmptyTag(ser),
        start("c:dLbls"),
        XmlEvent::EmptyTag(lines),
        end("c:dLbls"),
        XmlEvent::EmptyTag(angle),
        end("c:pieChart"),
    ];
    let mut pie = PieChart::default();
    let mut pos: usize = 0;
    assert!(pie.set_attributes(&events, &mut pos));
    assert_eq!(pos, events.len());
    assert!(*pie.get_vary_colors().get_val());
    assert_eq!(pie.get_area_chart_series_list().get_area_chart_series().len(), 1);
    assert_eq!(
        pie.get_area_chart_series_list().get_area_chart_series()[0].get_formula(),
        "Sheet1!$A$1:$A$3"
    );
    assert!(*pie.get_data_labels().get_show_leader_lines().get_val());
    assert_eq!(*pie.get_first_slice_angle().get_val(), 90);
}

#[test]
fn pie_chart_rejects_out_of_range_angle() {
    let mut angle = XmlTag::new(String::from("c:firstSliceAng"));
    angle.add_attribute(String::from("val"), String::from("70000"));
    let events = vec![XmlEvent::EmptyTag(angle), end("c:pieChart")];
    let mut pie = PieChart::default();
    let mut pos: usize = 0;
    assert!(!pie.set_attributes(&events, &mut pos));
}

#[test]
fn paragraph_reads_properties_runs_and_end_properties() {
    let mut props = XmlTag::new(String::from("a:pPr"));
    props.add_attribute(String::from("algn"), String::from("ctr"));
    let mut end_props = XmlTag::new(String::from("a:endParaRPr"));
    end_props.add_attribute(String::from("sz"), String::from("1100"));
    let events = vec![
        XmlEvent::EmptyTag(props),
        start("a:r"),
        XmlEvent::Text(String::from("hello ")),
        end("a:r"),
        start("a:r"),
        XmlEvent::Text(String::from("world")),
        end("a:r"),
        XmlEvent::EmptyTag(end_props),
        end("a:p"),
    ];
    let mut paragraph = Paragraph::default();
    let mut pos: usize = 0;
    assert!(paragraph.set_attributes(&events, &mut pos));
    assert_eq!(pos, events.len());
    assert_eq!(paragraph.get_paragraph_properties().get_alignment(), "ctr");
    assert_eq!(paragraph.get_run().len(), 2);
    assert_eq!(paragraph.get_run()[0].get_text(), "hello ");
    assert_eq!(paragraph.get_run()[1].get_text(), "world");
    assert_eq!(
        paragraph.get_end_para_run_properties().unwrap().get_font_size(),
        1100
    );
}

#[test]
fn ole_object_write_then_read_round_trips_attributes() {
    let mut ole = OleObject::default();
    ole.set_prog_id(String::from("Package"));
    ole.set_requires(String::from("x14"));
    let mut props = EmbeddedObjectProperties::default();
    props.set_prog_id(String::from("Package"));
    props.set_shape_id(1025);
    ole.set_embedded_object_properties(props);
    let mut events: Vec<XmlEvent> = Vec::new();
    ole.write_to(&mut events, 3, 1025);
    let mut back = OleObject::default();
    let mut pos: usize = 1;
    assert!(back.set_attributes(&events, &mut pos));
    assert_eq!(pos, events.len());
    assert_eq!(back.get_requires(), "x14");
    assert_eq!(back.get_prog_id(), "Package");
    assert_eq!(back.get_embedded_object_properties().get_prog_id(), "Package");
    assert_eq!(back.get_embedded_object_properties().get_shape_id(), 1025);
}

#[test]
fn column_breaks_write_then_read_round_trips() {
    let mut breaks = ColumnBreaks::default();
    let mut b1 = Break::default();
    b1.set_id(4);
    b1.set_max(16384);
    b1.set_manual_page_break(true);
    let mut b2 = Break::default();
    b2.set_id(9);
    breaks.add_break_list(b1);
    breaks.add_break_list(b2);
    let mut events: Vec<XmlEvent> = Vec::new();
    breaks.write_to(&mut events);
    assert_eq!(events.len(), 4);
    match &events[0] {
        XmlEvent::StartTag(tag) => {
            assert_eq!(tag.get_name(), "colBreaks");
            assert_eq!(tag.get_attribute("count"), Some("2"));
            assert_eq!(tag.get_attribute("manualBreakCount"), Some("1"));
        }
        _ => panic!("expected the root tag with counts"),
    }
    let mut back = ColumnBreaks::default();
    let mut pos: usize = 1;
    assert!(back.set_attributes(&events, &mut pos));
    assert_eq!(pos, events.len());
    assert_eq!(back.count_breaks(), (2, 1));
    assert_eq!(*back.get_break_list()[0].get_id(), 4);
    assert_eq!(*back.get_break_list()[0].get_max(), 16384);
    assert!(*back.get_break_list()[0].get_manual_page_break());
    assert_eq!(*back.get_break_list()[1].get_id(), 9);
    assert!(!*back.get_break_list()[1].get_manual_page_break());
}

#[test]
fn empty_column_breaks_write_nothing() {
    let breaks = ColumnBreaks::default();
    let mut events: Vec<XmlEvent> = Vec::new();
    breaks.write_to(&mut events);
    assert!(events.is_empty());
}

#[test]
fn resize_flag_write_then_read_round_trips() {
    let mut flag = ResizeWithCells::default();
    flag.set_value(true);
    let mut events: Vec<XmlEvent> = Vec::new();
    flag.write_to(&mut events);
    assert_eq!(events.len(), 3);
    let mut back = ResizeWithCells::default();
    let mut pos: usize = 1;
    assert!(back.set_attributes(&events, &mut pos, false));
    assert_eq!(back.get_value(), Some(&true));
    // A blank flag writes one empty element, and an empty element reads back
    // as blank.
    let blank = ResizeWithCells::default();
    let mut events2: Vec<XmlEvent> = Vec::new();
    blank.write_to(&mut events2);
    assert_eq!(events2.len(), 1);
    let mut back2 = ResizeWithCells::default();
    let mut pos2: usize = 0;
    assert!(back2.set_attributes(&events2, &mut pos2, true));
    assert!(back2.get_value().is_none());
}

#[test]
fn data_validations_write_then_read_round_trips() {
    let mut validations = DataValidations::default();
    let mut rule = DataValidation::default();
    rule.set_validation_type(String::from("list"));
    rule.set_formula1(String::from("$A$1:$A$5"));
    rule.set_sequence_of_references(String::from("B2:B9"));
    validations.add_data_validation_list(rule);
    let mut events: Vec<XmlEvent> = Vec::new();
    validations.write_to(&mut events);
    assert_eq!(events.len(), 3);
    match &events[0] {
        XmlEvent::StartTag(tag) => {
            assert_eq!(tag.get_name(), "dataValidations");
            assert_eq!(tag.get_attribute("count"), Some("1"));
        }
        _ => panic!("expected the root tag with a count"),
    }
    let mut back = DataValidations::default();
    let mut pos: usize = 1;
    assert!(back.set_attributes(&events, &mut pos));
    assert_eq!(back.get_data_validation_list().len(), 1);
    assert_eq!(back.get_data_validation_list()[0].get_validation_type(), "list");
    assert_eq!(back.get_data_validation_list()[0].get_formula1(), "$A$1:$A$5");
    assert_eq!(
        back.get_data_validation_list()[0].get_sequence_of_references(),
        "B2:B9"
    );
}

#[test]
fn floor_write_then_read_round_trips() {
    let mut floor = Floor::default();
    let mut thickness = Thickness::default();
    thickness.set_val(12);
    floor.set_thickness(thickness);
    let mut props = ShapeProperties::default();
    props.set_preset_geometry(String::from("rect"));
    floor.set_shape_properties(props);
    let mut events: Vec<XmlEvent> = Vec::new();
    floor.write_to(&mut events);
    assert_eq!(events.len(), 4);
    let mut back = Floor::default();
    let mut pos: usize = 1;
    assert!(back.set_attributes(&events, &mut pos));
    assert_eq!(*back.get_thickness().unwrap().get_val(), 12);
    assert_eq!(back.get_shape_properties().unwrap().get_preset_geometry(), "rect");
}

#[test]
fn space_before_write_then_read_round_trips() {
    let mut space = SpaceBefore::default();
    let mut percent = SpacingPercent::default();
    percent.set_val(35000);
    space.set_spacing_percent(percent);
    let mut events: Vec<XmlEvent> = Vec::new();
    space.write_to(&mut events);
    assert_eq!(events.len(), 3);
    let mut back = SpaceBefore::default();
    let mut pos: usize = 1;
    assert!(back.set_attributes(&events, &mut pos));
    assert_eq!(*back.get_spacing_percent().unwrap().get_val(), 35000);
}

#[test]
fn text_element_write_then_read_round_trips() {
    let mut text = TextElement::default();
    text.set_text(String::from("hello"));
    let mut font = Font::default();
    font.set_name(String::from("Arial"));
    font.set_bold(true);
    text.set_font(font);
    let mut events: Vec<XmlEvent> = Vec::new();
    text.write_to(&mut events);
    assert_eq!(events.len(), 6);
    let mut back = TextElement::default();
    let mut pos: usize = 1;
    assert!(back.set_attributes(&events, &mut pos));
    assert_eq!(back.get_text(), "hello");
    assert_eq!(back.get_font().unwrap().get_name(), "Arial");
    assert!(back.get_font().unwrap().get_bold());
}

#[test]
fn pie_chart_write_then_read_round_trips() {
    let mut pie = PieChart::default();
    pie.get_vary_colors_mut().set_val(true);
    let mut series = AreaChartSeries::default();
    series.set_formula(String::from("Sheet1!$A$1:$A$3"));
    pie.get_area_chart_series_list_mut().add_area_chart_series(series);
    pie.get_first_slice_angle_mut().set_val(90);
    let mut events: Vec<XmlEvent> = Vec::new();
    pie.write_to(&mut events);
    assert_eq!(events.len(), 8);
    let mut back = PieChart::default();
    let mut pos: usize = 1;
    assert!(back.set_attributes(&events, &mut pos));
    assert_eq!(pos, events.len());
    assert!(*back.get_vary_colors().get_val());
    assert_eq!(
        back.get_area_chart_series_list().get_area_chart_series()[0].get_formula(),
        "Sheet1!$A$1:$A$3"
    );
    assert_eq!(*back.get_first_slice_angle().get_val(), 90);
}

#[test]
fn paragraph_write_then_read_round_trips() {
    let mut paragraph = Paragraph::default();
    paragraph.get_paragraph_properties_mut().set_alignment(String::from("ctr"));
    let mut first = Run::default();
    first.set_text(String::from("hello "));
    let mut second = Run::default();
    second.set_text(String::from("world"));
    paragraph.add_run(first);
    paragraph.add_run(second);
    let mut end_props = RunProperties::default();
    end_props.set_font_size(1100);
    paragraph.set_end_para_run_properties(end_props);
    let mut events: Vec<XmlEvent> = Vec::new();
    paragraph.write_to(&mut events);
    assert_eq!(events.len(), 10);
    let mut back = Paragraph::default();
    let mut pos: usize = 1;
    assert!(back.set_attributes(&events, &mut pos));
    assert_eq!(pos, events.len());
    assert_eq!(back.get_paragraph_properties().get_alignment(), "ctr");
    assert_eq!(back.get_run().len(), 2);
    assert_eq!(back.get_run()[0].get_text(), "hello ");
    assert_eq!(back.get_run()[1].get_text(), "world");
    assert_eq!(back.get_end_para_run_properties().unwrap().get_font_size(), 1100);
}

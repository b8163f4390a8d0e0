//! The style, text and sheet-settings records and their digests.

use sheetdraw::chart_parts::{AreaChartSeries, AreaChartSeriesList, DataLabels, FirstSliceAngle,
    Floor, Overlap, PieChart, RightAngleAxes, ShapeProperties, ShowLeaderLines, Thickness,
    TopMode, VaryColors};
use sheetdraw::chart_parts::LayoutModeValues;
use sheetdraw::drawing_parts::{EffectList, Glow, OuterShadow, Paragraph, ParagraphProperties,
    Run, RunProperties, SoftEdge, SpaceBefore, SpacingPercent};
use sheetdraw::sheet_parts::{Break, ColumnBreaks, DataValidation, DataValidations, OddFooter,
    ResizeWithCells};
use sheetdraw::style::Style;
use sheetdraw::style_parts::{Alignment, Borders, Fill, Font, NumberFormat, Protection};
use sheetdraw::text_element::TextElement;

#[test]
fn footer_digest_matches_md5_of_text() {
    let mut footer = OddFooter::default();
    assert!(!footer.has_param());
    assert_eq!(footer.get_value(), "");
    footer.set_value(String::from("hello"));
    assert!(footer.has_param());
    assert_eq!(footer.get_value(), "hello");
    // The digest really is the MD5 of the text, not the text itself.
    assert_eq!(footer._get_hash_code(), "5d41402abc4b2a76b9719d911017c592");
    assert_eq!(footer._get_hash_code(), format!("{:x}", md5::compute("hello")));
}

#[test]
fn default_style_digest_is_md5_of_five_nones() {
    let style = Style::default();
    assert_eq!(style.get_hash_code(), "d5dcd95f1f81a25e1a1356b0e26100a0");
    assert_eq!(
        style.get_hash_code(),
        format!("{:x}", md5::compute("NoneNoneNoneNoneNone"))
    );
}

#[test]
fn font_digest_covers_name_and_weight() {
    let mut font = Font::default();
    font.set_name(String::from("Calibri"));
    font.set_bold(true);
    assert_eq!(font.get_hash_code(), "9942ccda2ac80a8efbea3216b1ae9ff1");
    font.set_bold(false);
    assert_ne!(font.get_hash_code(), "9942ccda2ac80a8efbea3216b1ae9ff1");
}

#[test]
fn style_digest_changes_with_parts() {
    let mut style = Style::default();
    let plain = style.get_hash_code();
    let mut font = Font::default();
    font.set_name(String::from("Calibri"));
    style.set_font(font);
    let with_font = style.get_hash_code();
    assert_ne!(plain, with_font);
    // The digest chains the parts' digests: check against a direct rebuild.
    let mut font2 = Font::default();
    font2.set_name(String::from("Calibri"));
    let expected = format!(
        "{:x}",
        md5::compute(format!("{}NoneNoneNoneNone", font2.get_hash_code()))
    );
    assert_eq!(with_font, expected);
}

#[test]
fn style_lazy_getters_create_defaults() {
    let mut style = Style::default();
    assert!(style.get_font().is_none());
    style.get_font_mut().set_name(String::from("Arial"));
    assert_eq!(style.get_font().as_ref().unwrap().get_name(), "Arial");
    style.get_fill_mut().set_pattern_type(String::from("solid"));
    assert_eq!(style.get_fill().as_ref().unwrap().get_pattern_type(), "solid");
    style.get_borders_mut().set_line_style(String::from("thin"));
    assert_eq!(style.get_borders().as_ref().unwrap().get_line_style(), "thin");
    style.get_alignment_mut().set_horizontal(String::from("center"));
    assert_eq!(
        style.get_alignment().as_ref().unwrap().get_horizontal(),
        "center"
    );
    style.get_number_format_mut().set_format_code(String::from("0.00"));
    assert_eq!(
        style.get_number_format().as_ref().unwrap().get_format_code(),
        "0.00"
    );
    assert!(style.get_protection().is_none());
    let mut protection = Protection::default();
    protection.set_locked(true);
    style.set_protection(protection);
    assert!(style.get_protection().as_ref().unwrap().get_locked());
    style.set_xf_id(7);
    assert_eq!(*style.get_xf_id(), 7);
    style.set_quote_prefix(true);
    assert!(*style.get_quote_prefix());
    let fresh = Style::get_defalut_value();
    assert_eq!(*fresh.get_xf_id(), 0);
}

#[test]
fn text_element_digest_covers_text_and_font() {
    let mut text = TextElement::default();
    text.set_text(String::from("abc"));
    assert_eq!(text.get_text(), "abc");
    assert_eq!(text.get_hash_code(), "c90d3095258d749b0870aa9bb8974c7d");
    let mut font = Font::default();
    font.set_name(String::from("Arial"));
    text.set_font(font);
    assert_ne!(text.get_hash_code(), "c90d3095258d749b0870aa9bb8974c7d");
    assert_eq!(text.get_font().unwrap().get_name(), "Arial");
    text.get_font_mut().set_bold(true);
    assert!(text.get_run_properties().unwrap().get_bold());
}

#[test]
fn resize_with_cells_keeps_three_states() {
    let mut flag = ResizeWithCells::default();
    assert!(flag.get_value().is_none());
    flag.set_value(true);
    assert_eq!(flag.get_value(), Some(&true));
    flag.set_value(false);
    assert_eq!(flag.get_value(), Some(&false));
}

#[test]
fn column_breaks_count_totals_and_manual() {
    let mut breaks = ColumnBreaks::default();
    assert!(!breaks.has_param());
    let mut b1 = Break::default();
    b1.set_id(4);
    b1.set_max(16384);
    b1.set_manual_page_break(true);
    let mut b2 = Break::default();
    b2.set_id(9);
    let mut b3 = Break::default();
    b3.set_manual_page_break(true);
    breaks.add_break_list(b1);
    breaks.add_break_list(b2);
    breaks.add_break_list(b3);
    assert!(breaks.has_param());
    assert_eq!(breaks.count_breaks(), (3, 2));
    assert_eq!(*breaks.get_break_list()[0].get_id(), 4);
    assert_eq!(*breaks.get_break_list()[0].get_max(), 16384);
}

#[test]
fn data_validations_keep_insertion_order() {
    let mut validations = DataValidations::default();
    let mut rule = DataValidation::default();
    rule.set_validation_type(String::from("list"));
    rule.set_formula1(String::from("$A$1:$A$5"));
    rule.set_sequence_of_references(String::from("B2:B9"));
    validations.add_data_validation_list(rule);
    let list = validations.get_data_validation_list();
    assert_eq!(list.len(), 1);
    assert_eq!(list[0].get_validation_type(), "list");
    assert_eq!(list[0].get_formula1(), "$A$1:$A$5");
    assert_eq!(list[0].get_sequence_of_references(), "B2:B9");
    let replacement = vec![DataValidation::default(), DataValidation::default()];
    validations.set_data_validation_list(replacement);
    assert_eq!(validations.get_data_validation_list().len(), 2);
}

#[test]
fn pie_chart_parts_round_trip() {
    let mut pie = PieChart::default();
    pie.get_vary_colors_mut().set_val(true);
    assert!(*pie.get_vary_colors().get_val());
    let mut series = AreaChartSeries::default();
    series.set_formula(String::from("Sheet1!$A$1:$A$3"));
    pie.get_area_chart_series_list_mut().add_area_chart_series(series);
    assert_eq!(
        pie.get_area_chart_series_list().get_area_chart_series()[0].get_formula(),
        "Sheet1!$A$1:$A$3"
    );
    let mut labels = DataLabels::default();
    let mut lines = ShowLeaderLines::default();
    lines.set_val(true);
    labels.set_show_leader_lines(lines);
    pie.set_data_labels(labels);
    assert!(*pie.get_data_labels().get_show_leader_lines().get_val());
    pie.get_first_slice_angle_mut().set_val(90);
    assert_eq!(*pie.get_first_slice_angle().get_val(), 90);
    let mut fresh_list = AreaChartSeriesList::default();
    fresh_list.add_area_chart_series(AreaChartSeries::default());
    pie.set_area_chart_series_list(fresh_list);
    assert_eq!(pie.get_area_chart_series_list().get_area_chart_series().len(), 1);
    pie.set_vary_colors(VaryColors::default());
    assert!(!*pie.get_vary_colors().get_val());
    pie.set_first_slice_angle(FirstSliceAngle::default());
    assert_eq!(*pie.get_first_slice_angle().get_val(), 0);
}

#[test]
fn floor_holds_optional_parts() {
    let mut floor = Floor::default();
    assert!(floor.get_thickness().is_none());
    assert!(floor.get_shape_properties().is_none());
    let mut thickness = Thickness::default();
    thickness.set_val(12);
    floor.set_thickness(thickness);
    assert_eq!(*floor.get_thickness().unwrap().get_val(), 12);
    floor.get_thickness_mut().unwrap().set_val(15);
    assert_eq!(*floor.get_thickness().unwrap().get_val(), 15);
    let mut props = ShapeProperties::default();
    props.set_preset_geometry(String::from("rect"));
    floor.set_shape_properties(props);
    assert_eq!(floor.get_shape_properties().unwrap().get_preset_geometry(), "rect");
    floor
        .get_shape_properties_mut()
        .unwrap()
        .set_preset_geometry(String::from("ellipse"));
    assert_eq!(
        floor.get_shape_properties().unwrap().get_preset_geometry(),
        "ellipse"
    );
}

#[test]
fn small_chart_values_round_trip() {
    let mut axes = RightAngleAxes::default();
    axes.set_val(true);
    assert!(*axes.get_val());
    let mut overlap = Overlap::default();
    overlap.set_val(-27);
    assert_eq!(*overlap.get_val(), -27);
    let mut mode = TopMode::default();
    assert_eq!(*mode.get_val(), LayoutModeValues::Factor);
    mode.set_val(LayoutModeValues::Edge);
    assert_eq!(*mode.get_val(), LayoutModeValues::Edge);
}

#[test]
fn effect_list_holds_three_optional_effects() {
    let mut effects = EffectList::default();
    assert!(effects.get_glow().is_none());
    assert!(effects.get_outer_shadow().is_none());
    assert!(effects.get_soft_edge().is_none());
    let mut glow = Glow::default();
    glow.set_radius(100);
    effects.set_glow(glow);
    assert_eq!(effects.get_glow().unwrap().get_radius(), 100);
    effects.get_glow_mut().unwrap().set_radius(150);
    assert_eq!(effects.get_glow().unwrap().get_radius(), 150);
    let mut shadow = OuterShadow::default();
    shadow.set_blur_radius(40);
    effects.set_outer_shadow(shadow);
    assert_eq!(effects.get_outer_shadow().unwrap().get_blur_radius(), 40);
    let mut edge = SoftEdge::default();
    edge.set_radius(7);
    effects.set_soft_edge(edge);
    assert_eq!(effects.get_soft_edge().unwrap().get_radius(), 7);
    assert!(effects.get_outer_shadow_mut().is_some());
    assert!(effects.get_soft_edge_mut().is_some());
}

#[test]
fn space_before_holds_optional_percent() {
    let mut space = SpaceBefore::default();
    assert!(space.get_spacing_percent().is_none());
    let mut percent = SpacingPercent::default();
    percent.set_val(35000);
    space.set_spacing_percent(percent);
    assert_eq!(*space.get_spacing_percent().unwrap().get_val(), 35000);
    space.get_spacing_percent_mut().unwrap().set_val(10000);
    assert_eq!(*space.get_spacing_percent().unwrap().get_val(), 10000);
    space.remove_spacing_percent();
    assert!(space.get_spacing_percent().is_none());
}

#[test]
fn paragraph_collects_runs_in_order() {
    let mut paragraph = Paragraph::default();
    let mut props = ParagraphProperties::default();
    props.set_alignment(String::from("ctr"));
    paragraph.set_paragraph_properties(props);
    assert_eq!(paragraph.get_paragraph_properties().get_alignment(), "ctr");
    paragraph.get_paragraph_properties_mut().set_alignment(String::from("l"));
    assert_eq!(paragraph.get_paragraph_properties().get_alignment(), "l");
    let mut first = Run::default();
    first.set_text(String::from("hello "));
    let mut second = Run::default();
    second.set_text(String::from("world"));
    paragraph.add_run(first);
    paragraph.add_run(second);
    assert_eq!(paragraph.get_run().len(), 2);
    assert_eq!(paragraph.get_run()[0].get_text(), "hello ");
    assert_eq!(paragraph.get_run()[1].get_text(), "world");
    assert!(paragraph.get_end_para_run_properties().is_none());
    let mut end_props = RunProperties::default();
    end_props.set_font_size(1100);
    paragraph.set_end_para_run_properties(end_props);
    assert_eq!(
        paragraph.get_end_para_run_properties().unwrap().get_font_size(),
        1100
    );
    paragraph
        .get_end_para_run_properties_mut()
        .unwrap()
        .set_font_size(1200);
    assert_eq!(
        paragraph.get_end_para_run_properties().unwrap().get_font_size(),
        1200
    );
    paragraph.remove_end_para_run_properties();
    assert!(paragraph.get_end_para_run_properties().is_none());
}

#[test]
fn fill_borders_alignment_number_format_digests_differ() {
    let mut fill = Fill::default();
    fill.set_pattern_type(String::from("solid"));
    let mut borders = Borders::default();
    borders.set_line_style(String::from("solid"));
    // Same content string, same digest; the parts digest only their content.
    assert_eq!(fill.get_hash_code(), borders.get_hash_code());
    let mut alignment = Alignment::default();
    alignment.set_horizontal(String::from("so"));
    alignment.set_vertical(String::from("lid"));
    assert_eq!(alignment.get_hash_code(), fill.get_hash_code());
    let mut format = NumberFormat::default();
    format.set_format_code(String::from("0%"));
    assert_ne!(format.get_hash_code(), fill.get_hash_code());
}

//! Document model for spreadsheet drawings: grid-anchored floating objects
//! (images, charts, shapes, OLE objects) together with the structural
//! coordinate-adjustment engine that keeps every anchor consistent when rows
//! or columns are inserted into or removed from a sheet.

pub mod adjustment;
pub mod anchor;
pub mod cell_range;
pub mod chart;
pub mod chart_parts;
pub mod content;
pub mod drawing_parts;
pub mod embedded_object_properties;
pub mod hashing;
pub mod image;
pub mod laws;
pub mod marker;
pub mod ole_object;
pub mod ole_objects;
pub mod one_cell_anchor;
pub mod seq_util;
pub mod sheet_parts;
pub mod strutil;
pub mod style;
pub mod style_parts;
pub mod text_element;
pub mod two_cell_anchor;
pub mod vml_shape;
pub mod worksheet_drawing;
pub mod xml;

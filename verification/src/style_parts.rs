//! The parts a cell style is assembled from.  Each part carries the fields
//! the style digest reads, with a hash code built over a canonical string.

use vstd::prelude::*;
use vstd::string::StrSliceExecFns;
use vstd::string::StringExecFns;
use crate::hashing::{md5_hex, md5_hex_of};

verus! {

/// Mathematical model of a font: its name and weight.
pub struct FontView {
    pub name: Seq<char>,
    pub bold: bool,
}

/// The canonical string a font's hash code digests.
pub open spec fn font_hash_input(v: FontView) -> Seq<char> {
    v.name + (if v.bold {
        "1"@
    } else {
        "0"@
    })
}

/// A character font.
#[derive(Clone, Debug)]
pub struct Font {
    name: String,
    bold: bool,
}

impl View for Font {
    type V = FontView;

    closed spec fn view(&self) -> FontView {
        FontView { name: self.name@, bold: self.bold }
    }
}

impl Default for Font {
    fn default() -> (r: Self)
        ensures
            r@ == (FontView { name: Seq::<char>::empty(), bold: false }),
    {
        Font { name: String::new(), bold: false }
    }
}

impl Font {
    pub fn get_name(&self) -> (r: &str)
        ensures
            r@ == self@.name,
    {
        self.name.as_str()
    }

    pub fn set_name(&mut self, value: String)
        ensures
            final(self)@ == (FontView { name: value@, ..old(self)@ }),
    {
        self.name = value;
    }

    pub fn get_bold(&self) -> (r: bool)
        ensures
            r == self@.bold,
    {
        self.bold
    }

    pub fn set_bold(&mut self, value: bool)
        ensures
            final(self)@ == (FontView { bold: value, ..old(self)@ }),
    {
        self.bold = value;
    }

    /// The digest of this font's canonical string.
    pub fn get_hash_code(&self) -> (r: String)
        ensures
            r@ == md5_hex_of(font_hash_input(self@)),
    {
        let mut s = String::from_str(self.name.as_str());
        if self.bold {
            s.append("1");
        } else {
            s.append("0");
        }
        md5_hex(s.as_str())
    }
}

/// Mathematical model of a fill: its pattern name.
pub struct FillView {
    pub pattern_type: Seq<char>,
}

/// The canonical string a fill's hash code digests.
pub open spec fn fill_hash_input(v: FillView) -> Seq<char> {
    v.pattern_type
}

/// A cell background fill.
#[derive(Clone, Debug)]
pub struct Fill {
    pattern_type: String,
}

impl View for Fill {
    type V = FillView;

    closed spec fn view(&self) -> FillView {
        FillView { pattern_type: self.pattern_type@ }
    }
}

impl Default for Fill {
    fn default() -> (r: Self)
        ensures
            r@ == (FillView { pattern_type: Seq::<char>::empty() }),
    {
        Fill { pattern_type: String::new() }
    }
}

impl Fill {
    pub fn get_pattern_type(&self) -> (r: &str)
        ensures
            r@ == self@.pattern_type,
    {
        self.pattern_type.as_str()
    }

    pub fn set_pattern_type(&mut self, value: String)
        ensures
            final(self)@ == (FillView { pattern_type: value@ }),
    {
        self.pattern_type = value;
    }

    /// The digest of this fill's canonical string.
    pub fn get_hash_code(&self) -> (r: String)
        ensures
            r@ == md5_hex_of(fill_hash_input(self@)),
    {
        md5_hex(self.pattern_type.as_str())
    }
}

/// Mathematical model of a border set: its line style name.
pub struct BordersView {
    pub line_style: Seq<char>,
}

/// The canonical string a border set's hash code digests.
pub open spec fn borders_hash_input(v: BordersView) -> Seq<char> {
    v.line_style
}

/// The borders of a cell.
#[derive(Clone, Debug)]
pub struct Borders {
    line_style: String,
}

impl View for Borders {
    type V = BordersView;

    closed spec fn view(&self) -> BordersView {
        BordersView { line_style: self.line_style@ }
    }
}

impl Default for Borders {
    fn default() -> (r: Self)
        ensures
            r@ == (BordersView { line_style: Seq::<char>::empty() }),
    {
        Borders { line_style: String::new() }
    }
}

impl Borders {
    pub fn get_line_style(&self) -> (r: &str)
        ensures
            r@ == self@.line_style,
    {
        self.line_style.as_str()
    }

    pub fn set_line_style(&mut self, value: String)
        ensures
            final(self)@ == (BordersView { line_style: value@ }),
    {
        self.line_style = value;
    }

    /// The digest of this border set's canonical string.
    pub fn get_hash_code(&self) -> (r: String)
        ensures
            r@ == md5_hex_of(borders_hash_input(self@)),
    {
        md5_hex(self.line_style.as_str())
    }
}

/// Mathematical model of an alignment: its horizontal and vertical settings.
pub struct AlignmentView {
    pub horizontal: Seq<char>,
    pub vertical: Seq<char>,
}

/// The canonical string an alignment's hash code digests.
pub open spec fn alignment_hash_input(v: AlignmentView) -> Seq<char> {
    v.horizontal + v.vertical
}

/// A cell alignment.
#[derive(Clone, Debug)]
pub struct Alignment {
    horizontal: String,
    vertical: String,
}

impl View for Alignment {
    type V = AlignmentView;

    closed spec fn view(&self) -> AlignmentView {
        AlignmentView { horizontal: self.horizontal@, vertical: self.vertical@ }
    }
}

impl Default for Alignment {
    fn default() -> (r: Self)
        ensures
            r@ == (AlignmentView {
                horizontal: Seq::<char>::empty(),
                vertical: Seq::<char>::empty(),
            }),
    {
        Alignment { horizontal: String::new(), vertical: String::new() }
    }
}

impl Alignment {
    pub fn get_horizontal(&self) -> (r: &str)
        ensures
            r@ == self@.horizontal,
    {
        self.horizontal.as_str()
    }

    pub fn set_horizontal(&mut self, value: String)
        ensures
            final(self)@ == (AlignmentView { horizontal: value@, ..old(self)@ }),
    {
        self.horizontal = value;
    }

    pub fn get_vertical(&self) -> (r: &str)
        ensures
            r@ == self@.vertical,
    {
        self.vertical.as_str()
    }

    pub fn set_vertical(&mut self, value: String)
        ensures
            final(self)@ == (AlignmentView { vertical: value@, ..old(self)@ }),
    {
        self.vertical = value;
    }

    /// The digest of this alignment's canonical string.
    pub fn get_hash_code(&self) -> (r: String)
        ensures
            r@ == md5_hex_of(alignment_hash_input(self@)),
    {
        let mut s = String::from_str(self.horizontal.as_str());
        s.append(self.vertical.as_str());
        md5_hex(s.as_str())
    }
}

/// Mathematical model of a number format: its format code.
pub struct NumberFormatView {
    pub format_code: Seq<char>,
}

/// The canonical string a number format's hash code digests.
pub open spec fn number_format_hash_input(v: NumberFormatView) -> Seq<char> {
    v.format_code
}

/// A cell number format.
#[derive(Clone, Debug)]
pub struct NumberFormat {
    format_code: String,
}

impl View for NumberFormat {
    type V = NumberFormatView;

    closed spec fn view(&self) -> NumberFormatView {
        NumberFormatView { format_code: self.format_code@ }
    }
}

impl Default for NumberFormat {
    fn default() -> (r: Self)
        ensures
            r@ == (NumberFormatView { format_code: Seq::<char>::empty() }),
    {
        NumberFormat { format_code: String::new() }
    }
}

impl NumberFormat {
    pub fn get_format_code(&self) -> (r: &str)
        ensures
            r@ == self@.format_code,
    {
        self.format_code.as_str()
    }

    pub fn set_format_code(&mut self, value: String)
        ensures
            final(self)@ == (NumberFormatView { format_code: value@ }),
    {
        self.format_code = value;
    }

    /// The digest of this number format's canonical string.
    pub fn get_hash_code(&self) -> (r: String)
        ensures
            r@ == md5_hex_of(number_format_hash_input(self@)),
    {
        md5_hex(self.format_code.as_str())
    }
}

/// Mathematical model of a protection setting.
pub struct ProtectionView {
    pub locked: bool,
    pub hidden: bool,
}

/// A cell protection setting.
#[derive(Clone, Debug)]
pub struct Protection {
    locked: bool,
    hidden: bool,
}

impl View for Protection {
    type V = ProtectionView;

    closed spec fn view(&self) -> ProtectionView {
        ProtectionView { locked: self.locked, hidden: self.hidden }
    }
}

impl Default for Protection {
    fn default() -> (r: Self)
        ensures
            r@ == (ProtectionView { locked: false, hidden: false }),
    {
        Protection { locked: false, hidden: false }
    }
}

impl Protection {
    pub fn get_locked(&self) -> (r: bool)
        ensures
            r == self@.locked,
    {
        self.locked
    }

    pub fn set_locked(&mut self, value: bool)
        ensures
            final(self)@ == (ProtectionView { locked: value, ..old(self)@ }),
    {
        self.locked = value;
    }

    pub fn get_hidden(&self) -> (r: bool)
        ensures
            r == self@.hidden,
    {
        self.hidden
    }

    pub fn set_hidden(&mut self, value: bool)
        ensures
            final(self)@ == (ProtectionView { hidden: value, ..old(self)@ }),
    {
        self.hidden = value;
    }
}

} // verus!

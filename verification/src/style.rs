//! A cell style record: optional references to each styling part, plus the
//! format-record index and quote-prefix flag.  Its hash code digests the
//! concatenated digests of the five content parts, writing the word "None"
//! for an absent part.

use vstd::prelude::*;
use vstd::string::StrSliceExecFns;
use vstd::string::StringExecFns;
use crate::hashing::{md5_hex, md5_hex_of};
use crate::style_parts::{alignment_hash_input, borders_hash_input, fill_hash_input,
    font_hash_input, number_format_hash_input};
use crate::style_parts::{Alignment, AlignmentView, Borders, BordersView, Fill, FillView, Font,
    FontView, NumberFormat, NumberFormatView, Protection, ProtectionView};

verus! {

/// Mathematical model of a style record.
pub struct StyleView {
    pub font: Option<FontView>,
    pub fill: Option<FillView>,
    pub borders: Option<BordersView>,
    pub alignment: Option<AlignmentView>,
    pub number_format: Option<NumberFormatView>,
    pub protection: Option<ProtectionView>,
    pub xf_id: int,
    pub quote_prefix: bool,
}

/// The canonical string a style's hash code digests: the digests of the five
/// content parts in order, with "None" standing for an absent part.  The
/// protection setting, the format-record index and the quote-prefix flag do
/// not enter the digest.
pub open spec fn style_hash_input(v: StyleView) -> Seq<char> {
    (match v.font {
        Some(f) => md5_hex_of(font_hash_input(f)),
        None => "None"@,
    }) + (match v.fill {
        Some(f) => md5_hex_of(fill_hash_input(f)),
        None => "None"@,
    }) + (match v.borders {
        Some(b) => md5_hex_of(borders_hash_input(b)),
        None => "None"@,
    }) + (match v.alignment {
        Some(a) => md5_hex_of(alignment_hash_input(a)),
        None => "None"@,
    }) + (match v.number_format {
        Some(n) => md5_hex_of(number_format_hash_input(n)),
        None => "None"@,
    })
}

/// A cell style record.
#[derive(Clone, Debug)]
pub struct Style {
    font: Option<Font>,
    fill: Option<Fill>,
    borders: Option<Borders>,
    alignment: Option<Alignment>,
    number_format: Option<NumberFormat>,
    protection: Option<Protection>,
    xf_id: usize,
    quote_prefix: bool,
}

impl View for Style {
    type V = StyleView;

    closed spec fn view(&self) -> StyleView {
        StyleView {
            font: match self.font {
                Some(f) => Some(f@),
                None => None,
            },
            fill: match self.fill {
                Some(f) => Some(f@),
                None => None,
            },
            borders: match self.borders {
                Some(b) => Some(b@),
                None => None,
            },
            alignment: match self.alignment {
                Some(a) => Some(a@),
                None => None,
            },
            number_format: match self.number_format {
                Some(n) => Some(n@),
                None => None,
            },
            protection: match self.protection {
                Some(p) => Some(p@),
                None => None,
            },
            xf_id: self.xf_id as int,
            quote_prefix: self.quote_prefix,
        }
    }
}

impl Default for Style {
    /// The default style has no parts, format-record index 0 and no quote
    /// prefix.
    fn default() -> (r: Self)
        ensures
            r@.font is None,
            r@.fill is None,
            r@.borders is None,
            r@.alignment is None,
            r@.number_format is None,
            r@.protection is None,
            r@.xf_id == 0,
            !r@.quote_prefix,
    {
        Style {
            font: None,
            fill: None,
            borders: None,
            alignment: None,
            number_format: None,
            protection: None,
            xf_id: 0,
            quote_prefix: false,
        }
    }
}

impl Style {
    pub fn get_font(&self) -> (r: &Option<Font>)
        ensures
            ((*r) is Some) == (self@.font is Some),
            (*r) matches Some(f) ==> self@.font == Some(f@),
    {
        &self.font
    }

    /// The font, created as the default font first if the style had none.
    pub fn get_font_mut(&mut self) -> (r: &mut Font)
        ensures
            r@ == (match old(self)@.font {
                Some(f) => f,
                None => FontView { name: Seq::<char>::empty(), bold: false },
            }),
            final(self)@ == (StyleView { font: Some(final(r)@), ..old(self)@ }),
    {
        if self.font.is_none() {
            self.font = Some(Font::default());
        }
        match &mut self.font {
            Some(f) => f,
            None => vstd::pervasive::unreached(),
        }
    }

    pub fn set_font(&mut self, value: Font)
        ensures
            final(self)@ == (StyleView { font: Some(value@), ..old(self)@ }),
    {
        self.font = Some(value);
    }

    pub fn get_fill(&self) -> (r: &Option<Fill>)
        ensures
            ((*r) is Some) == (self@.fill is Some),
            (*r) matches Some(f) ==> self@.fill == Some(f@),
    {
        &self.fill
    }

    /// The fill, created as the default fill first if the style had none.
    pub fn get_fill_mut(&mut self) -> (r: &mut Fill)
        ensures
            r@ == (match old(self)@.fill {
                Some(f) => f,
                None => FillView { pattern_type: Seq::<char>::empty() },
            }),
            final(self)@ == (StyleView { fill: Some(final(r)@), ..old(self)@ }),
    {
        if self.fill.is_none() {
            self.fill = Some(Fill::default());
        }
        match &mut self.fill {
            Some(f) => f,
            None => vstd::pervasive::unreached(),
        }
    }

    pub fn set_fill(&mut self, value: Fill)
        ensures
            final(self)@ == (StyleView { fill: Some(value@), ..old(self)@ }),
    {
        self.fill = Some(value);
    }

    pub fn get_borders(&self) -> (r: &Option<Borders>)
        ensures
            ((*r) is Some) == (self@.borders is Some),
            (*r) matches Some(b) ==> self@.borders == Some(b@),
    {
        &self.borders
    }

    /// The borders, created as the default borders first if the style had
    /// none.
    pub fn get_borders_mut(&mut self) -> (r: &mut Borders)
        ensures
            r@ == (match old(self)@.borders {
                Some(b) => b,
                None => BordersView { line_style: Seq::<char>::empty() },
            }),
            final(self)@ == (StyleView { borders: Some(final(r)@), ..old(self)@ }),
    {
        if self.borders.is_none() {
            self.borders = Some(Borders::default());
        }
        match &mut self.borders {
            Some(b) => b,
            None => vstd::pervasive::unreached(),
        }
    }

    pub fn set_borders(&mut self, value: Borders)
        ensures
            final(self)@ == (StyleView { borders: Some(value@), ..old(self)@ }),
    {
        self.borders = Some(value);
    }

    pub fn get_alignment(&self) -> (r: &Option<Alignment>)
        ensures
            ((*r) is Some) == (self@.alignment is Some),
            (*r) matches Some(a) ==> self@.alignment == Some(a@),
    {
        &self.alignment
    }

    /// The alignment, created as the default alignment first if the style
    /// had none.
    pub fn get_alignment_mut(&mut self) -> (r: &mut Alignment)
        ensures
            r@ == (match old(self)@.alignment {
                Some(a) => a,
                None => AlignmentView {
                    horizontal: Seq::<char>::empty(),
                    vertical: Seq::<char>::empty(),
                },
            }),
            final(self)@ == (StyleView { alignment: Some(final(r)@), ..old(self)@ }),
    {
        if self.alignment.is_none() {
            self.alignment = Some(Alignment::default());
        }
        match &mut self.alignment {
            Some(a) => a,
            None => vstd::pervasive::unreached(),
        }
    }

    pub fn set_alignment(&mut self, value: Alignment)
        ensures
            final(self)@ == (StyleView { alignment: Some(value@), ..old(self)@ }),
    {
        self.alignment = Some(value);
    }

    pub fn get_number_format(&self) -> (r: &Option<NumberFormat>)
        ensures
            ((*r) is Some) == (self@.number_format is Some),
            (*r) matches Some(n) ==> self@.number_format == Some(n@),
    {
        &self.number_format
    }

    /// The number format, created as the default format first if the style
    /// had none.
    pub fn get_number_format_mut(&mut self) -> (r: &mut NumberFormat)
        ensures
            r@ == (match old(self)@.number_format {
                Some(n) => n,
                None => NumberFormatView { format_code: Seq::<char>::empty() },
            }),
            final(self)@ == (StyleView { number_format: Some(final(r)@), ..old(self)@ }),
    {
        if self.number_format.is_none() {
            self.number_format = Some(NumberFormat::default());
        }
        match &mut self.number_format {
            Some(n) => n,
            None => vstd::pervasive::unreached(),
        }
    }

    pub fn set_number_format(&mut self, value: NumberFormat)
        ensures
            final(self)@ == (StyleView { number_format: Some(value@), ..old(self)@ }),
    {
        self.number_format = Some(value);
    }

    pub fn get_protection(&self) -> (r: &Option<Protection>)
        ensures
            ((*r) is Some) == (self@.protection is Some),
            (*r) matches Some(p) ==> self@.protection == Some(p@),
    {
        &self.protection
    }

    pub fn set_protection(&mut self, value: Protection)
        ensures
            final(self)@ == (StyleView { protection: Some(value@), ..old(self)@ }),
    {
        self.protection = Some(value);
    }

    pub fn get_xf_id(&self) -> (r: &usize)
        ensures
            *r as int == self@.xf_id,
    {
        &self.xf_id
    }

    pub fn set_xf_id(&mut self, value: usize)
        ensures
            final(self)@ == (StyleView { xf_id: value as int, ..old(self)@ }),
    {
        self.xf_id = value;
    }

    pub fn get_quote_prefix(&self) -> (r: &bool)
        ensures
            *r == self@.quote_prefix,
    {
        &self.quote_prefix
    }

    pub fn set_quote_prefix(&mut self, value: bool)
        ensures
            final(self)@ == (StyleView { quote_prefix: value, ..old(self)@ }),
    {
        self.quote_prefix = value;
    }

    /// A fresh style with every default.
    pub fn get_defalut_value() -> (r: Style)
        ensures
            r@.font is None,
            r@.fill is None,
            r@.borders is None,
            r@.alignment is None,
            r@.number_format is None,
            r@.protection is None,
            r@.xf_id == 0,
            !r@.quote_prefix,
    {
        Style::default()
    }

    /// The digest of this style's canonical string.
    pub fn get_hash_code(&self) -> (r: String)
        ensures
            r@ == md5_hex_of(style_hash_input(self@)),
    {
        let mut s = String::new();
        match &self.font {
            Some(f) => {
                let h = f.get_hash_code();
                s.append(h.as_str());
            },
            None => {
                s.append("None");
            },
        }
        match &self.fill {
            Some(f) => {
                let h = f.get_hash_code();
                s.append(h.as_str());
            },
            None => {
                s.append("None");
            },
        }
        match &self.borders {
            Some(b) => {
                let h = b.get_hash_code();
                s.append(h.as_str());
            },
            None => {
                s.append("None");
            },
        }
        match &self.alignment {
            Some(a) => {
                let h = a.get_hash_code();
                s.append(h.as_str());
            },
            None => {
                s.append("None");
            },
        }
        match &self.number_format {
            Some(n) => {
                let h = n.get_hash_code();
                s.append(h.as_str());
            },
            None => {
                s.append("None");
            },
        }
        proof {
            assert(s@ == style_hash_input(self@));
        }
        md5_hex(s.as_str())
    }
}

} // verus!

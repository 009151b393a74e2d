//! The fourteen built-in fonts: each resolves to an encoding, a PDF
//! name, text widths against a metrics table, and the font object
//! record that references it from a document.

use vstd::prelude::*;

use crate::encoding::{
    char_lookup, encode_seq, symbol_encoding, symbol_view, win_ansi_encoding, win_ansi_view,
    Encoding, EncodingView,
};
use crate::metrics::{width_lookup, FontMetrics};

verus! {

/// The "Base14" built-in fonts.
/// Underscores in these names are hyphens in the real names.
#[allow(non_camel_case_types)]
#[derive(Debug, PartialEq, Eq, Hash, Copy, Clone, Structural)]
pub enum BuiltinFont {
    Courier,
    Courier_Bold,
    Courier_Oblique,
    Courier_BoldOblique,
    Helvetica,
    Helvetica_Bold,
    Helvetica_Oblique,
    Helvetica_BoldOblique,
    Times_Roman,
    Times_Bold,
    Times_Italic,
    Times_BoldItalic,
    Symbol,
    ZapfDingbats,
}

/// The canonical display name of a built-in font: the variant's
/// identifier with the internal word separator rewritten to a hyphen.
pub open spec fn spec_pdf_name(font: BuiltinFont) -> Seq<char> {
    match font {
        BuiltinFont::Courier => "Courier"@,
        BuiltinFont::Courier_Bold => "Courier-Bold"@,
        BuiltinFont::Courier_Oblique => "Courier-Oblique"@,
        BuiltinFont::Courier_BoldOblique => "Courier-BoldOblique"@,
        BuiltinFont::Helvetica => "Helvetica"@,
        BuiltinFont::Helvetica_Bold => "Helvetica-Bold"@,
        BuiltinFont::Helvetica_Oblique => "Helvetica-Oblique"@,
        BuiltinFont::Helvetica_BoldOblique => "Helvetica-BoldOblique"@,
        BuiltinFont::Times_Roman => "Times-Roman"@,
        BuiltinFont::Times_Bold => "Times-Bold"@,
        BuiltinFont::Times_Italic => "Times-Italic"@,
        BuiltinFont::Times_BoldItalic => "Times-BoldItalic"@,
        BuiltinFont::Symbol => "Symbol"@,
        BuiltinFont::ZapfDingbats => "ZapfDingbats"@,
    }
}

impl BuiltinFont {
    /// Get the PDF name of this font.
    pub fn pdf_name(&self) -> (r: String)
        ensures
            r@ == spec_pdf_name(*self),
    {
        match *self {
            BuiltinFont::Courier => String::from_str("Courier"),
            BuiltinFont::Courier_Bold => String::from_str("Courier-Bold"),
            BuiltinFont::Courier_Oblique => String::from_str("Courier-Oblique"),
            BuiltinFont::Courier_BoldOblique => String::from_str("Courier-BoldOblique"),
            BuiltinFont::Helvetica => String::from_str("Helvetica"),
            BuiltinFont::Helvetica_Bold => String::from_str("Helvetica-Bold"),
            BuiltinFont::Helvetica_Oblique => String::from_str("Helvetica-Oblique"),
            BuiltinFont::Helvetica_BoldOblique => String::from_str("Helvetica-BoldOblique"),
            BuiltinFont::Times_Roman => String::from_str("Times-Roman"),
            BuiltinFont::Times_Bold => String::from_str("Times-Bold"),
            BuiltinFont::Times_Italic => String::from_str("Times-Italic"),
            BuiltinFont::Times_BoldItalic => String::from_str("Times-BoldItalic"),
            BuiltinFont::Symbol => String::from_str("Symbol"),
            BuiltinFont::ZapfDingbats => String::from_str("ZapfDingbats"),
        }
    }
}

/// The encoding a font resolves to: the symbol font uses the symbol
/// encoding, every other variant the Western one. (ZapfDingbats is
/// documented as needing a dedicated encoding and falls back to the
/// Western one; the gap is kept as it is.)
pub open spec fn spec_encoding(font: BuiltinFont) -> EncodingView {
    if font == BuiltinFont::Symbol {
        symbol_view()
    } else {
        win_ansi_view()
    }
}

/// The total advance width of a sequence of code points: each code's
/// width from the table, with the fallback width 100 where the table
/// defines none.
pub open spec fn spec_codes_width(widths: Seq<(u8, u16)>, codes: Seq<u8>) -> int
    decreases codes.len(),
{
    if codes.len() == 0 {
        0
    } else {
        spec_codes_width(widths, codes.drop_last()) + match width_lookup(widths, codes.last()) {
            Some(w) => w as int,
            None => 100,
        }
    }
}

/// The rendered width of `text` in `font`, in thousandths of text-space
/// units: the text is encoded through the font's encoding (characters
/// outside it are excluded) and the widths of the codes are summed.
pub open spec fn spec_width_raw(font: BuiltinFont, widths: Seq<(u8, u16)>, text: Seq<char>) -> int {
    spec_codes_width(widths, encode_seq(spec_encoding(font).chars, text))
}

/// The record that references this font from a document: a fixed-shape
/// dictionary naming its type, subtype, base font and encoding.
pub open spec fn spec_font_record(font: BuiltinFont) -> Seq<char> {
    "<< /Type /Font /Subtype /Type1 /BaseFont /"@ + spec_pdf_name(font) + " /Encoding /"@
        + spec_encoding(font).name + " >>\n"@
}

/// No prefix sum of code widths exceeds the total, and every sum is
/// nonnegative.
proof fn lemma_codes_width_take(widths: Seq<(u8, u16)>, codes: Seq<u8>, i: int)
    requires
        0 <= i <= codes.len(),
    ensures
        0 <= spec_codes_width(widths, codes.take(i)) <= spec_codes_width(widths, codes),
    decreases codes.len(),
{
    if codes.len() == 0 {
        assert(codes.take(i) =~= codes);
    } else if i == codes.len() {
        assert(codes.take(i) =~= codes);
        lemma_codes_width_take(widths, codes.drop_last(), 0);
        assert(codes.drop_last().take(0) =~= codes.take(0));
    } else {
        assert(codes.take(i) =~= codes.drop_last().take(i));
        lemma_codes_width_take(widths, codes.drop_last(), i);
    }
}

impl BuiltinFont {
    /// The encoding is the Western one for all builtin fonts except
    /// the symbol font, which uses the symbol encoding.
    pub fn get_encoding(&self) -> (e: Encoding)
        ensures
            e@ == spec_encoding(*self),
    {
        match *self {
            BuiltinFont::Symbol => symbol_encoding(),
            _ => win_ansi_encoding(),
        }
    }

    /// Get the width of a string in thousandths of units of text space,
    /// against the given advance-width table for this font.
    pub fn get_width_raw(&self, metrics: &FontMetrics, text: &str) -> (w: u32)
        requires
            spec_width_raw(*self, metrics@, text@) <= u32::MAX,
        ensures
            w as int == spec_width_raw(*self, metrics@, text@),
    {
        let encoding = self.get_encoding();
        let codes = encoding.encode_string(text);
        let n = codes.len();
        let mut result: u32 = 0;
        let mut i: usize = 0;
        while i < n
            invariant
                0 <= i <= n,
                n == codes@.len(),
                codes@ == encode_seq(spec_encoding(*self).chars, text@),
                spec_codes_width(metrics@, codes@) <= u32::MAX,
                result as int == spec_codes_width(metrics@, codes@.take(i as int)),
            decreases n - i,
    {
            proof {
                lemma_codes_width_take(metrics@, codes@, i + 1);
                assert(codes@.take(i + 1 as int).drop_last() =~= codes@.take(i as int));
                assert(codes@.take(i + 1 as int).last() == codes@[i as int]);
            }
            let step: u32 = match metrics.get_width(codes[i]) {
                Some(w) => w as u32,
                None => 100,
            };
            result = result + step;
            i = i + 1;
        }
        proof {
            assert(codes@.take(n as int) =~= codes@);
        }
        result
    }

    /// The textual record written into a freshly allocated font object;
    /// handing it to the document's object allocator is the caller's
    /// part.
    pub fn font_object_record(&self) -> (r: String)
        ensures
            r@ == spec_font_record(*self),
    {
        let mut r = String::from_str("<< /Type /Font /Subtype /Type1 /BaseFont /");
        let name = self.pdf_name();
        r.append(name.as_str());
        r.append(" /Encoding /");
        let encoding = self.get_encoding();
        r.append(encoding.get_name());
        r.append(" >>\n");
        proof {
            assert(r@ =~= spec_font_record(*self));
        }
        r
    }
}

/// Code widths sum over concatenation.
proof fn lemma_codes_width_append(widths: Seq<(u8, u16)>, x: Seq<u8>, y: Seq<u8>)
    ensures
        spec_codes_width(widths, x + y) == spec_codes_width(widths, x) + spec_codes_width(widths, y),
    decreases y.len(),
{
    if y.len() == 0 {
        assert(x + y =~= x);
    } else {
        assert((x + y).drop_last() =~= x + y.drop_last());
        assert((x + y).last() == y.last());
        lemma_codes_width_append(widths, x, y.drop_last());
    }
}

/// The raw width is additive: the empty text has width 0, and the width
/// of a concatenation is the sum of the widths of its parts.
pub proof fn lemma_width_raw_additive(
    font: BuiltinFont,
    widths: Seq<(u8, u16)>,
    a: Seq<char>,
    b: Seq<char>,
)
    ensures
        spec_width_raw(font, widths, Seq::<char>::empty()) == 0,
        spec_width_raw(font, widths, a + b) == spec_width_raw(font, widths, a) + spec_width_raw(
            font,
            widths,
            b,
        ),
{
    let chars = spec_encoding(font).chars;
    crate::encoding::lemma_encode_seq_append(chars, a, b);
    lemma_codes_width_append(widths, encode_seq(chars, a), encode_seq(chars, b));
}

/// The symbol variant resolves to the symbol table; each of the
/// thirteen other variants resolves to the Western table.
pub proof fn lemma_encoding_choice(font: BuiltinFont)
    ensures
        font == BuiltinFont::Symbol ==> spec_encoding(font) == symbol_view(),
        font != BuiltinFont::Symbol ==> spec_encoding(font) == win_ansi_view(),
{
}

/// A character the font's encoding covers but whose code the metrics
/// table leaves without a width contributes exactly the fallback 100.
pub proof fn lemma_default_width(
    font: BuiltinFont,
    widths: Seq<(u8, u16)>,
    text: Seq<char>,
    c: char,
)
    requires
        char_lookup(spec_encoding(font).chars, c) is Some,
        width_lookup(widths, char_lookup(spec_encoding(font).chars, c)->Some_0) is None,
    ensures
        spec_width_raw(font, widths, text.push(c)) == spec_width_raw(font, widths, text) + 100,
{
    let chars = spec_encoding(font).chars;
    let code = char_lookup(chars, c)->Some_0;
    assert(text.push(c).drop_last() =~= text);
    assert(text.push(c).last() == c);
    assert(encode_seq(chars, text.push(c)) == encode_seq(chars, text) + seq![code]);
    lemma_codes_width_append(widths, encode_seq(chars, text), seq![code]);
    assert(spec_codes_width(widths, seq![code]) == 100) by {
        assert(spec_codes_width(widths, Seq::<u8>::empty()) == 0);
        assert(seq![code].drop_last() =~= Seq::<u8>::empty());
        assert(seq![code].last() == code);
    }
}

/// True when `c` occurs in `s`; a recursive twin of `Seq::contains`.
spec fn has_char(s: Seq<char>, c: char) -> bool
    decreases s.len(),
{
    if s.len() == 0 {
        false
    } else {
        s.last() == c || has_char(s.drop_last(), c)
    }
}

proof fn lemma_has_char_contains(s: Seq<char>, c: char)
    ensures
        has_char(s, c) <==> s.contains(c),
    decreases s.len(),
{
    if s.len() == 0 {
    } else {
        lemma_has_char_contains(s.drop_last(), c);
        if s.last() == c {
            assert(s[s.len() - 1] == c);
        } else if has_char(s.drop_last(), c) {
            let i = choose|i: int| 0 <= i < s.drop_last().len() && s.drop_last()[i] == c;
            assert(s[i] == c);
        } else {
            if s.contains(c) {
                let i = choose|i: int| 0 <= i < s.len() && s[i] == c;
                if i < s.len() - 1 {
                    assert(s.drop_last()[i] == c);
                }
                assert(false);
            }
        }
    }
}

/// A PDF name never contains the internal word separator: hyphens stand
/// where the variant identifiers carry underscores.
pub proof fn lemma_pdf_name_no_separator(font: BuiltinFont)
    ensures
        !spec_pdf_name(font).contains('_'),
{
    reveal_with_fuel(has_char, 25);
    lemma_has_char_contains(spec_pdf_name(font), '_');
    match font {
        BuiltinFont::Courier => {
            reveal_strlit("Courier");
            assert(!has_char("Courier"@, '_'));
        },
        BuiltinFont::Courier_Bold => {
            reveal_strlit("Courier-Bold");
            assert(!has_char("Courier-Bold"@, '_'));
        },
        BuiltinFont::Courier_Oblique => {
            reveal_strlit("Courier-Oblique");
            assert(!has_char("Courier-Oblique"@, '_'));
        },
        BuiltinFont::Courier_BoldOblique => {
            reveal_strlit("Courier-BoldOblique");
            assert(!has_char("Courier-BoldOblique"@, '_'));
        },
        BuiltinFont::Helvetica => {
            reveal_strlit("Helvetica");
            assert(!has_char("Helvetica"@, '_'));
        },
        BuiltinFont::Helvetica_Bold => {
            reveal_strlit("Helvetica-Bold");
            assert(!has_char("Helvetica-Bold"@, '_'));
        },
        BuiltinFont::Helvetica_Oblique => {
            reveal_strlit("Helvetica-Oblique");
            assert(!has_char("Helvetica-Oblique"@, '_'));
        },
        BuiltinFont::Helvetica_BoldOblique => {
            reveal_strlit("Helvetica-BoldOblique");
            assert(!has_char("Helvetica-BoldOblique"@, '_'));
        },
        BuiltinFont::Times_Roman => {
            reveal_strlit("Times-Roman");
            assert(!has_char("Times-Roman"@, '_'));
        },
        BuiltinFont::Times_Bold => {
            reveal_strlit("Times-Bold");
            assert(!has_char("Times-Bold"@, '_'));
        },
        BuiltinFont::Times_Italic => {
            reveal_strlit("Times-Italic");
            assert(!has_char("Times-Italic"@, '_'));
        },
        BuiltinFont::Times_BoldItalic => {
            reveal_strlit("Times-BoldItalic");
            assert(!has_char("Times-BoldItalic"@, '_'));
        },
        BuiltinFont::Symbol => {
            reveal_strlit("Symbol");
            assert(!has_char("Symbol"@, '_'));
        },
        BuiltinFont::ZapfDingbats => {
            reveal_strlit("ZapfDingbats");
            assert(!has_char("ZapfDingbats"@, '_'));
        },
    }
}

/// The record of each of the fourteen variants, bit-exact: type, subtype,
/// hyphen-normalized base font name, and the resolved encoding name.
pub proof fn lemma_font_record_exact()
    ensures
        spec_font_record(BuiltinFont::Courier) == "<< /Type /Font /Subtype /Type1 /BaseFont /Courier /Encoding /WinAnsiEncoding >>\n"@,
        spec_font_record(BuiltinFont::Courier_Bold) == "<< /Type /Font /Subtype /Type1 /BaseFont /Courier-Bold /Encoding /WinAnsiEncoding >>\n"@,
        spec_font_record(BuiltinFont::Courier_Oblique) == "<< /Type /Font /Subtype /Type1 /BaseFont /Courier-Oblique /Encoding /WinAnsiEncoding >>\n"@,
        spec_font_record(BuiltinFont::Courier_BoldOblique) == "<< /Type /Font /Subtype /Type1 /BaseFont /Courier-BoldOblique /Encoding /WinAnsiEncoding >>\n"@,
        spec_font_record(BuiltinFont::Helvetica) == "<< /Type /Font /Subtype /Type1 /BaseFont /Helvetica /Encoding /WinAnsiEncoding >>\n"@,
        spec_font_record(BuiltinFont::Helvetica_Bold) == "<< /Type /Font /Subtype /Type1 /BaseFont /Helvetica-Bold /Encoding /WinAnsiEncoding >>\n"@,
        spec_font_record(BuiltinFont::Helvetica_Oblique) == "<< /Type /Font /Subtype /Type1 /BaseFont /Helvetica-Oblique /Encoding /WinAnsiEncoding >>\n"@,
        spec_font_record(BuiltinFont::Helvetica_BoldOblique) == "<< /Type /Font /Subtype /Type1 /BaseFont /Helvetica-BoldOblique /Encoding /WinAnsiEncoding >>\n"@,
        spec_font_record(BuiltinFont::Times_Roman) == "<< /Type /Font /Subtype /Type1 /BaseFont /Times-Roman /Encoding /WinAnsiEncoding >>\n"@,
        spec_font_record(BuiltinFont::Times_Bold) == "<< /Type /Font /Subtype /Type1 /BaseFont /Times-Bold /Encoding /WinAnsiEncoding >>\n"@,
        spec_font_record(BuiltinFont::Times_Italic) == "<< /Type /Font /Subtype /Type1 /BaseFont /Times-Italic /Encoding /WinAnsiEncoding >>\n"@,
        spec_font_record(BuiltinFont::Times_BoldItalic) == "<< /Type /Font /Subtype /Type1 /BaseFont /Times-BoldItalic /Encoding /WinAnsiEncoding >>\n"@,
        spec_font_record(BuiltinFont::Symbol) == "<< /Type /Font /Subtype /Type1 /BaseFont /Symbol /Encoding /SymbolEncoding >>\n"@,
        spec_font_record(BuiltinFont::ZapfDingbats) == "<< /Type /Font /Subtype /Type1 /BaseFont /ZapfDingbats /Encoding /WinAnsiEncoding >>\n"@,
{
    reveal_strlit("<< /Type /Font /Subtype /Type1 /BaseFont /");
    reveal_strlit(" /Encoding /");
    reveal_strlit(" >>\n");
    reveal_strlit("WinAnsiEncoding");
    reveal_strlit("SymbolEncoding");
    reveal_strlit("Courier");
    reveal_strlit("<< /Type /Font /Subtype /Type1 /BaseFont /Courier /Encoding /WinAnsiEncoding >>\n");
    reveal_strlit("Courier-Bold");
    reveal_strlit("<< /Type /Font /Subtype /Type1 /BaseFont /Courier-Bold /Encoding /WinAnsiEncoding >>\n");
    reveal_strlit("Courier-Oblique");
    reveal_strlit("<< /Type /Font /Subtype /Type1 /BaseFont /Courier-Oblique /Encoding /WinAnsiEncoding >>\n");
    reveal_strlit("Courier-BoldOblique");
    reveal_strlit("<< /Type /Font /Subtype /Type1 /BaseFont /Courier-BoldOblique /Encoding /WinAnsiEncoding >>\n");
    reveal_strlit("Helvetica");
    reveal_strlit("<< /Type /Font /Subtype /Type1 /BaseFont /Helvetica /Encoding /WinAnsiEncoding >>\n");
    reveal_strlit("Helvetica-Bold");
    reveal_strlit("<< /Type /Font /Subtype /Type1 /BaseFont /Helvetica-Bold /Encoding /WinAnsiEncoding >>\n");
    reveal_strlit("Helvetica-Oblique");
    reveal_strlit("<< /Type /Font /Subtype /Type1 /BaseFont /Helvetica-Oblique /Encoding /WinAnsiEncoding >>\n");
    reveal_strlit("Helvetica-BoldOblique");
    reveal_strlit("<< /Type /Font /Subtype /Type1 /BaseFont /Helvetica-BoldOblique /Encoding /WinAnsiEncoding >>\n");
    reveal_strlit("Times-Roman");
    reveal_strlit("<< /Type /Font /Subtype /Type1 /BaseFont /Times-Roman /Encoding /WinAnsiEncoding >>\n");
    reveal_strlit("Times-Bold");
    reveal_strlit("<< /Type /Font /Subtype /Type1 /BaseFont /Times-Bold /Encoding /WinAnsiEncoding >>\n");
    reveal_strlit("Times-Italic");
    reveal_strlit("<< /Type /Font /Subtype /Type1 /BaseFont /Times-Italic /Encoding /WinAnsiEncoding >>\n");
    reveal_strlit("Times-BoldItalic");
    reveal_strlit("<< /Type /Font /Subtype /Type1 /BaseFont /Times-BoldItalic /Encoding /WinAnsiEncoding >>\n");
    reveal_strlit("Symbol");
    reveal_strlit("<< /Type /Font /Subtype /Type1 /BaseFont /Symbol /Encoding /SymbolEncoding >>\n");
    reveal_strlit("ZapfDingbats");
    reveal_strlit("<< /Type /Font /Subtype /Type1 /BaseFont /ZapfDingbats /Encoding /WinAnsiEncoding >>\n");
    assert(spec_font_record(BuiltinFont::Courier) =~= "<< /Type /Font /Subtype /Type1 /BaseFont /Courier /Encoding /WinAnsiEncoding >>\n"@);
    assert(spec_font_record(BuiltinFont::Courier_Bold) =~= "<< /Type /Font /Subtype /Type1 /BaseFont /Courier-Bold /Encoding /WinAnsiEncoding >>\n"@);
    assert(spec_font_record(BuiltinFont::Courier_Oblique) =~= "<< /Type /Font /Subtype /Type1 /BaseFont /Courier-Oblique /Encoding /WinAnsiEncoding >>\n"@);
    assert(spec_font_record(BuiltinFont::Courier_BoldOblique) =~= "<< /Type /Font /Subtype /Type1 /BaseFont /Courier-BoldOblique /Encoding /WinAnsiEncoding >>\n"@);
    assert(spec_font_record(BuiltinFont::Helvetica) =~= "<< /Type /Font /Subtype /Type1 /BaseFont /Helvetica /Encoding /WinAnsiEncoding >>\n"@);
    assert(spec_font_record(BuiltinFont::Helvetica_Bold) =~= "<< /Type /Font /Subtype /Type1 /BaseFont /Helvetica-Bold /Encoding /WinAnsiEncoding >>\n"@);
    assert(spec_font_record(BuiltinFont::Helvetica_Oblique) =~= "<< /Type /Font /Subtype /Type1 /BaseFont /Helvetica-Oblique /Encoding /WinAnsiEncoding >>\n"@);
    assert(spec_font_record(BuiltinFont::Helvetica_BoldOblique) =~= "<< /Type /Font /Subtype /Type1 /BaseFont /Helvetica-BoldOblique /Encoding /WinAnsiEncoding >>\n"@);
    assert(spec_font_record(BuiltinFont::Times_Roman) =~= "<< /Type /Font /Subtype /Type1 /BaseFont /Times-Roman /Encoding /WinAnsiEncoding >>\n"@);
    assert(spec_font_record(BuiltinFont::Times_Bold) =~= "<< /Type /Font /Subtype /Type1 /BaseFont /Times-Bold /Encoding /WinAnsiEncoding >>\n"@);
    assert(spec_font_record(BuiltinFont::Times_Italic) =~= "<< /Type /Font /Subtype /Type1 /BaseFont /Times-Italic /Encoding /WinAnsiEncoding >>\n"@);
    assert(spec_font_record(BuiltinFont::Times_BoldItalic) =~= "<< /Type /Font /Subtype /Type1 /BaseFont /Times-BoldItalic /Encoding /WinAnsiEncoding >>\n"@);
    assert(spec_font_record(BuiltinFont::Symbol) =~= "<< /Type /Font /Subtype /Type1 /BaseFont /Symbol /Encoding /SymbolEncoding >>\n"@);
    assert(spec_font_record(BuiltinFont::ZapfDingbats) =~= "<< /Type /Font /Subtype /Type1 /BaseFont /ZapfDingbats /Encoding /WinAnsiEncoding >>\n"@);
}

} // verus!

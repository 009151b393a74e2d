use pdf_fonts::{BuiltinFont, FontMetrics};

const ALL_FONTS: [BuiltinFont; 14] = [
    BuiltinFont::Courier,
    BuiltinFont::Courier_Bold,
    BuiltinFont::Courier_Oblique,
    BuiltinFont::Courier_BoldOblique,
    BuiltinFont::Helvetica,
    BuiltinFont::Helvetica_Bold,
    BuiltinFont::Helvetica_Oblique,
    BuiltinFont::Helvetica_BoldOblique,
    BuiltinFont::Times_Roman,
    BuiltinFont::Times_Bold,
    BuiltinFont::Times_Italic,
    BuiltinFont::Times_BoldItalic,
    BuiltinFont::Symbol,
    BuiltinFont::ZapfDingbats,
];

const ALL_NAMES: [&str; 14] = [
    "Courier",
    "Courier-Bold",
    "Courier-Oblique",
    "Courier-BoldOblique",
    "Helvetica",
    "Helvetica-Bold",
    "Helvetica-Oblique",
    "Helvetica-BoldOblique",
    "Times-Roman",
    "Times-Bold",
    "Times-Italic",
    "Times-BoldItalic",
    "Symbol",
    "ZapfDingbats",
];

#[test]
fn pdf_names_are_hyphenated() {
    for (font, name) in ALL_FONTS.iter().zip(ALL_NAMES.iter()) {
        assert_eq!(*name, font.pdf_name());
    }
}

#[test]
fn pdf_names_have_no_separator() {
    for font in ALL_FONTS.iter() {
        assert!(!font.pdf_name().contains('_'));
    }
    assert_eq!("Courier-BoldOblique", BuiltinFont::Courier_BoldOblique.pdf_name());
}

#[test]
fn encoding_choice_per_variant() {
    for font in ALL_FONTS.iter() {
        let expected = if *font == BuiltinFont::Symbol {
            "SymbolEncoding"
        } else {
            "WinAnsiEncoding"
        };
        assert_eq!(expected, font.get_encoding().get_name());
    }
}

#[test]
fn font_object_records_are_exact() {
    for (font, name) in ALL_FONTS.iter().zip(ALL_NAMES.iter()) {
        let encoding = if *font == BuiltinFont::Symbol {
            "SymbolEncoding"
        } else {
            "WinAnsiEncoding"
        };
        let expected = format!(
            "<< /Type /Font /Subtype /Type1 /BaseFont /{} /Encoding /{} >>\n",
            name, encoding
        );
        assert_eq!(expected, font.font_object_record());
    }
}

#[test]
fn width_raw_sums_metric_widths() {
    let mut m = FontMetrics::new();
    m.set_width(b'A', 600);
    m.set_width(b'B', 700);
    let font = BuiltinFont::Courier;
    assert_eq!(0, font.get_width_raw(&m, ""));
    assert_eq!(600, font.get_width_raw(&m, "A"));
    assert_eq!(1300, font.get_width_raw(&m, "AB"));
}

#[test]
fn width_raw_is_additive() {
    let mut m = FontMetrics::new();
    m.set_width(b'H', 722);
    m.set_width(b'i', 278);
    let font = BuiltinFont::Helvetica;
    let whole = font.get_width_raw(&m, "Hi");
    let parts = font.get_width_raw(&m, "H") + font.get_width_raw(&m, "i");
    assert_eq!(whole, parts);
}

#[test]
fn unmetered_glyph_contributes_fallback() {
    let mut m = FontMetrics::new();
    m.set_width(b'A', 600);
    let font = BuiltinFont::Courier;
    // 'C' is in the Western encoding but has no width in this table:
    // it contributes exactly 100.
    assert_eq!(100, font.get_width_raw(&m, "C"));
    assert_eq!(700, font.get_width_raw(&m, "AC"));
}

#[test]
fn uncovered_character_is_excluded() {
    let mut m = FontMetrics::new();
    m.set_width(b'A', 600);
    let font = BuiltinFont::Courier;
    assert_eq!(600, font.get_width_raw(&m, "A\u{0100}"));
}

#[test]
fn metrics_lookup_and_override() {
    let mut m = FontMetrics::new();
    assert_eq!(None, m.get_width(65));
    m.set_width(65, 600);
    assert_eq!(Some(600), m.get_width(65));
    m.set_width(65, 500);
    assert_eq!(Some(500), m.get_width(65));
    assert_eq!(None, m.get_width(66));
}

#[test]
fn scaled_width_formula() {
    let mut m = FontMetrics::new();
    for code in b'0'..=b'9' {
        m.set_width(code, 600);
    }
    let font = BuiltinFont::Courier;
    let raw = font.get_width_raw(&m, "0123456789");
    assert_eq!(6000, raw);
    let scaled = 10.0f32 * raw as f32 / 1000.0;
    assert_eq!(60.0f32, scaled);
}

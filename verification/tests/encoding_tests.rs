use pdf_fonts::encoding::{symbol_encoding, win_ansi_encoding};

#[test]
fn test_get_winansi_points() {
    let enc = win_ansi_encoding();
    assert_eq!(Some('A' as u8), enc.get_code("A"));
    assert_eq!(Some('Z' as u8), enc.get_code("Z"));
    assert_eq!(Some('a' as u8), enc.get_code("a"));
    assert_eq!(Some('z' as u8), enc.get_code("z"));
    assert_eq!(Some(' ' as u8), enc.get_code("space"));
    assert_eq!(Some('&' as u8), enc.get_code("ampersand"));
}

#[test]
fn win_ansi_letters_are_ascii() {
    let enc = win_ansi_encoding();
    for code in b'A'..=b'Z' {
        let name = (code as char).to_string();
        assert_eq!(Some(code), enc.get_code(&name));
    }
    for code in b'a'..=b'z' {
        let name = (code as char).to_string();
        assert_eq!(Some(code), enc.get_code(&name));
    }
}

#[test]
fn win_ansi_digits_are_ascii() {
    let enc = win_ansi_encoding();
    let names = [
        "zero", "one", "two", "three", "four", "five", "six", "seven", "eight", "nine",
    ];
    for (k, name) in names.iter().enumerate() {
        assert_eq!(Some(b'0' + k as u8), enc.get_code(name));
    }
}

#[test]
fn win_ansi_punctuation_is_ascii() {
    let enc = win_ansi_encoding();
    let cases: [(&str, u8); 33] = [
        ("space", b' '),
        ("exclam", b'!'),
        ("quotedbl", b'"'),
        ("numbersign", b'#'),
        ("dollar", b'$'),
        ("percent", b'%'),
        ("ampersand", b'&'),
        ("quotesingle", b'\''),
        ("parenleft", b'('),
        ("parenright", b')'),
        ("asterisk", b'*'),
        ("plus", b'+'),
        ("comma", b','),
        ("hyphen", b'-'),
        ("period", b'.'),
        ("slash", b'/'),
        ("colon", b':'),
        ("semicolon", b';'),
        ("less", b'<'),
        ("equal", b'='),
        ("greater", b'>'),
        ("question", b'?'),
        ("at", b'@'),
        ("bracketleft", b'['),
        ("backslash", b'\\'),
        ("bracketright", b']'),
        ("asciicircum", b'^'),
        ("underscore", b'_'),
        ("grave", b'`'),
        ("braceleft", b'{'),
        ("bar", b'|'),
        ("braceright", b'}'),
        ("asciitilde", b'~'),
    ];
    for (name, code) in cases.iter() {
        assert_eq!(Some(*code), enc.get_code(name));
    }
}

#[test]
fn win_ansi_extended_range() {
    let enc = win_ansi_encoding();
    assert_eq!(Some(0o200), enc.get_code("Euro"));
    assert_eq!(Some(0xE9), enc.get_code("eacute"));
    assert_eq!(Some(0xFF), enc.get_code("ydieresis"));
    assert_eq!(Some(0xD7), enc.get_code("multiply"));
}

#[test]
fn win_ansi_unknown_name_is_absent() {
    let enc = win_ansi_encoding();
    assert_eq!(None, enc.get_code("definitely_not_a_glyph"));
    assert_eq!(None, enc.get_code(""));
    assert_eq!(None, enc.get_code("Alpha"));
}

#[test]
fn win_ansi_placeholder_names() {
    let enc = win_ansi_encoding();
    // Placeholder names are inserted like any other name; a repeated
    // name keeps the code of its last insertion.
    assert_eq!(Some(0o201), enc.get_code("..1"));
    assert_eq!(Some(0o255), enc.get_code("..5"));
    assert_eq!(Some(0o240), enc.get_code("..0"));
}

#[test]
fn win_ansi_encode_string_ascii() {
    let enc = win_ansi_encoding();
    assert_eq!(vec![72u8, 101, 108, 108, 111], enc.encode_string("Hello"));
    assert_eq!(vec![65u8, 66, 32], enc.encode_string("AB "));
    let empty: Vec<u8> = Vec::new();
    assert_eq!(empty, enc.encode_string(""));
}

#[test]
fn win_ansi_encode_string_drops_uncovered() {
    let enc = win_ansi_encoding();
    assert_eq!(vec![65u8, 66], enc.encode_string("A\u{0100}B"));
    assert_eq!(vec![0xE9u8], enc.encode_string("\u{e9}"));
    assert_eq!(vec![0x80u8], enc.encode_string("\u{20ac}"));
}

#[test]
fn symbol_encoding_name_and_codes() {
    let enc = symbol_encoding();
    assert_eq!("SymbolEncoding", enc.get_name());
    assert_eq!(Some(0x41), enc.get_code("Alpha"));
    assert_eq!(Some(0x61), enc.get_code("alpha"));
    assert_eq!(Some(b' '), enc.get_code("space"));
    assert_eq!(None, enc.get_code("eacute"));
}

#[test]
fn encoding_names() {
    assert_eq!("WinAnsiEncoding", win_ansi_encoding().get_name());
    assert_eq!("SymbolEncoding", symbol_encoding().get_name());
}

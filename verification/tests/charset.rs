use hd44780_driver::charset::{Charset, CharsetA00, CharsetA02, CharsetUniversal, CharsetWithFallback, Fallback};

#[test]
fn a00_scenario() {
    // The Japanese-standard table's documented exceptions: the yen sign
    // takes the backslash slot, tilde's slot holds a right arrow, and
    // backslash itself has no glyph.
    assert_eq!(CharsetA00.code_from_utf8('\u{a5}'), Some(0x5c));
    assert_eq!(CharsetA00.code_from_utf8('\u{2192}'), Some(0x7e));
    assert_eq!(CharsetA00.code_from_utf8('\\'), None);
}

#[test]
fn a00_ascii_and_katakana() {
    assert_eq!(CharsetA00.code_from_utf8('A'), Some(0x41));
    assert_eq!(CharsetA00.code_from_utf8('}'), Some(0x7d));
    assert_eq!(CharsetA00.code_from_utf8('~'), None);
    // Katakana lands in the upper code page.
    assert_eq!(CharsetA00.code_from_utf8('\u{30a2}'), Some(0xb1));
    assert_eq!(CharsetA00.code_from_utf8('\u{30f3}'), Some(0xdd));
    // The full block glyph sits at the very top.
    assert_eq!(CharsetA00.code_from_utf8('\u{2588}'), Some(0xff));
}

#[test]
fn a00_unicode_whitespace_maps_to_space() {
    // The Japanese table treats full Unicode whitespace as a blank cell.
    assert_eq!(CharsetA00.code_from_utf8('\u{3000}'), Some(0x20));
    assert_eq!(CharsetA00.code_from_utf8('\u{2003}'), Some(0x20));
    assert!(CharsetA00.is_whitespace('\u{3000}'));
    // The universal table's whitespace notion stays ASCII.
    assert!(!CharsetUniversal.is_whitespace('\u{3000}'));
    assert!(CharsetUniversal.is_whitespace(' '));
}

#[test]
fn a02_scenario() {
    // Latin-1 maps through, with repurposed cells excepted; Cyrillic is
    // folded onto visually similar Latin glyphs.
    assert_eq!(CharsetA02.code_from_utf8('\u{e9}'), Some(0xe9));
    assert_eq!(CharsetA02.code_from_utf8('\u{a8}'), None);
    assert_eq!(CharsetA02.code_from_utf8('\u{0410}'), Some(b'A'));
    assert_eq!(CharsetA02.code_from_utf8('\u{0416}'), Some(0x82));
    // The lower code page holds the symbol block.
    assert_eq!(CharsetA02.code_from_utf8('\u{2192}'), Some(0x0a));
    assert_eq!(CharsetA02.code_from_utf8('\u{2302}'), Some(0x7f));
    assert_eq!(CharsetA02.code_from_utf8('~'), Some(0x7e));
}

#[test]
fn universal_table() {
    assert_eq!(CharsetUniversal.code_from_utf8('A'), Some(0x41));
    assert_eq!(CharsetUniversal.code_from_utf8('\\'), None);
    assert_eq!(CharsetUniversal.code_from_utf8('\u{10}'), None);
    assert_eq!(CharsetUniversal.code_from_utf8('\u{e9}'), None);
}

#[test]
fn fallback_substitutes() {
    let empty = Fallback::<CharsetA00, 32>::new(CharsetA00);
    assert_eq!(empty.code_from_utf8_with_fallback('\\'), 32);
    assert_eq!(empty.code_from_utf8_with_fallback('A'), 0x41);

    let question = Fallback::<CharsetUniversal, 63>::new(CharsetUniversal);
    assert_eq!(question.code_from_utf8_with_fallback('\u{e9}'), b'?');
    let inner = question.into_inner();
    assert_eq!(inner.code_from_utf8('B'), Some(0x42));
}

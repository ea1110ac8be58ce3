use vstd::prelude::*;

verus! {

/// A character table of the controller ROM: which code point maps to
/// which one-byte character code.
pub trait Charset: Sized {
    /// The character code for code point `c`, or `None` when the table
    /// has no glyph for it.
    spec fn spec_code(self, c: u32) -> Option<u8>;

    /// Which code points this table treats as whitespace.
    spec fn spec_is_whitespace(self, c: u32) -> bool;

    /// Look up the character code for `ch`.
    fn code_from_utf8(&self, ch: char) -> (r: Option<u8>)
        ensures
            r == self.spec_code(ch as u32),
    ;

    /// Whether this table treats `ch` as whitespace.
    fn is_whitespace(&self, ch: char) -> (r: bool)
        ensures
            r == self.spec_is_whitespace(ch as u32),
    ;
}

/// A character table together with a substitute byte for unmappable
/// code points, so that every character encodes to something.
pub trait CharsetWithFallback: Sized {
    /// The character code for code point `c`, falling back to the
    /// substitute byte where the table has no glyph.
    spec fn spec_code_with_fallback(self, c: u32) -> u8;

    /// Which code points the underlying table treats as whitespace.
    spec fn spec_is_whitespace(self, c: u32) -> bool;

    /// Encode `ch`, substituting the fallback byte when the table has no
    /// glyph for it.
    fn code_from_utf8_with_fallback(&self, ch: char) -> (r: u8)
        ensures
            r == self.spec_code_with_fallback(ch as u32),
    ;

    /// Whether the underlying table treats `ch` as whitespace.
    fn is_whitespace(&self, ch: char) -> (r: bool)
        ensures
            r == self.spec_is_whitespace(ch as u32),
    ;
}

/// Wraps a character table with a fallback byte, typically a space or a
/// question mark, substituted for unmappable characters.
#[derive(Clone, Copy, Debug)]
pub struct Fallback<C: Charset, const FB: u8>(pub C);

/// A fallback wrapper substituting a blank cell.
pub type EmptyFallback<C> = Fallback<C, 32>;

/// A fallback wrapper substituting a question mark.
pub type QuestionFallback<C> = Fallback<C, 63>;

impl<C: Charset, const FB: u8> Fallback<C, FB> {
    pub fn new(c: C) -> (r: Self)
        ensures
            r == (Fallback::<C, FB>(c)),
    {
        Fallback(c)
    }

    pub fn into_inner(self) -> (r: C)
        ensures
            r == self.0,
    {
        self.0
    }
}

impl<C: Charset, const FB: u8> CharsetWithFallback for Fallback<C, FB> {
    open spec fn spec_code_with_fallback(self, c: u32) -> u8 {
        match self.0.spec_code(c) {
            Some(code) => code,
            None => FB,
        }
    }

    open spec fn spec_is_whitespace(self, c: u32) -> bool {
        self.0.spec_is_whitespace(c)
    }

    fn code_from_utf8_with_fallback(&self, ch: char) -> (r: u8) {
        match self.0.code_from_utf8(ch) {
            Some(code) => code,
            None => FB,
        }
    }

    fn is_whitespace(&self, ch: char) -> (r: bool) {
        self.0.is_whitespace(ch)
    }
}

/// The code points ASCII counts as whitespace: space, tab, line feed,
/// form feed and carriage return.
pub open spec fn spec_ascii_whitespace(c: u32) -> bool {
    c == 0x20 || c == 0x09 || c == 0x0A || c == 0x0C || c == 0x0D
}

/// The code points Unicode gives the white-space property.
pub open spec fn spec_unicode_whitespace(c: u32) -> bool {
    (0x09 <= c && c <= 0x0D) || c == 0x20 || c == 0x85 || c == 0xA0 || c == 0x1680 || (0x2000 <= c && c <= 0x200A)
        || c == 0x2028 || c == 0x2029 || c == 0x202F || c == 0x205F || c == 0x3000
}

fn is_ascii_whitespace_code(c: u32) -> (r: bool)
    ensures
        r == spec_ascii_whitespace(c),
{
    c == 0x20 || c == 0x09 || c == 0x0A || c == 0x0C || c == 0x0D
}

fn is_unicode_whitespace_code(c: u32) -> (r: bool)
    ensures
        r == spec_unicode_whitespace(c),
{
    (0x09 <= c && c <= 0x0D) || c == 0x20 || c == 0x85 || c == 0xA0 || c == 0x1680 || (0x2000 <= c && c <= 0x200A)
        || c == 0x2028 || c == 0x2029 || c == 0x202F || c == 0x205F || c == 0x3000
}

/// Symbols common to both the Japanese and the European character ROM:
/// the seven-bit range, less the cells the ROMs repurpose.
#[derive(Clone, Copy, Debug, PartialEq, Eq, Structural)]
pub struct CharsetUniversal;

/// The codes every controller ROM shares: seven-bit characters map
/// through, except backslash and the control range the ROMs redefine.
pub open spec fn universal_code(c: u32) -> Option<u8> {
    if c == 0x5C || (0x10 <= c && c <= 0x1F) {
        None
    } else if c <= 0x7D {
        Some(c as u8)
    } else {
        None
    }
}

impl Charset for CharsetUniversal {
    open spec fn spec_code(self, c: u32) -> Option<u8> {
        universal_code(c)
    }

    open spec fn spec_is_whitespace(self, c: u32) -> bool {
        spec_ascii_whitespace(c)
    }

    fn code_from_utf8(&self, ch: char) -> (r: Option<u8>) {
        let c = ch as u32;
        if c == 0x5C || (0x10 <= c && c <= 0x1F) {
            None
        } else if c <= 0x7D {
            Some(c as u8)
        } else {
            None
        }
    }

    fn is_whitespace(&self, ch: char) -> (r: bool) {
        is_ascii_whitespace_code(ch as u32)
    }
}

/// Japanese Standard Font Character Set: ASCII plus katakana, a few Greek
/// letters and special glyphs in the upper code page, with documented
/// exceptions such as backslash mapping to the yen sign and tilde's slot
/// holding a right arrow.
#[derive(Clone, Copy, Debug, PartialEq, Eq, Structural)]
pub struct CharsetA00;

/// The code the Japanese-standard character ROM assigns to code point `c`.
pub open spec fn a00_code(c: u32) -> Option<u8> {
    if c == 0xA5 {  // yen sign takes the backslash slot
        Some(0x5Cu8)
    } else if c == 0x5C {  // backslash has no glyph of its own
        None
    } else if 0x10 <= c && c <= 0x1F {
        None
    } else if c <= 0x7D {  // seven-bit codes map through
        Some(c as u8)
    } else if c == 0x2192 {  // right arrow
        Some(0x7Eu8)
    } else if c == 0x2190 {  // left arrow
        Some(0x7Fu8)
    } else if c == 0xFF01 {  // full-width exclamation mark
        Some(0x21u8)
    } else if c == 0xFF1F {  // full-width question mark
        Some(0x3Fu8)
    } else if c == 0x3002 {  // kuten
        Some(0xA1u8)
    } else if c == 0x300C {  // left corner bracket
        Some(0xA2u8)
    } else if c == 0x300D {  // right corner bracket
        Some(0xA3u8)
    } else if c == 0x3001 {  // touten
        Some(0xA4u8)
    } else if c == 0x30FB {  // nakaguro
        Some(0xA5u8)
    } else if c == 0x30F2 {  // wo
        Some(0xA6u8)
    } else if c == 0x30A1 {  // small a
        Some(0xA7u8)
    } else if c == 0x30A3 {  // small i
        Some(0xA8u8)
    } else if c == 0x30A5 {  // small u
        Some(0xA9u8)
    } else if c == 0x30A7 {  // small e
        Some(0xAAu8)
    } else if c == 0x30A9 {  // small o
        Some(0xABu8)
    } else if c == 0x30E3 {  // small ya
        Some(0xACu8)
    } else if c == 0x30E5 {  // small yu
        Some(0xADu8)
    } else if c == 0x30E7 {  // small yo
        Some(0xAEu8)
    } else if c == 0x30C3 {  // small tu
        Some(0xAFu8)
    } else if c == 0x30FC {  // prolonged sound mark
        Some(0xB0u8)
    } else if c == 0x30A2 {  // a
        Some(0xB1u8)
    } else if c == 0x30A4 {  // i
        Some(0xB2u8)
    } else if c == 0x30A6 {  // u
        Some(0xB3u8)
    } else if c == 0x30A8 {  // e
        Some(0xB4u8)
    } else if c == 0x30AA {  // o
        Some(0xB5u8)
    } else if c == 0x30AB {  // ka
        Some(0xB6u8)
    } else if c == 0x30AD {  // ki
        Some(0xB7u8)
    } else if c == 0x30AF {  // ku
        Some(0xB8u8)
    } else if c == 0x30B1 {  // ke
        Some(0xB9u8)
    } else if c == 0x30B3 {  // ko
        Some(0xBAu8)
    } else if c == 0x30B5 {  // sa
        Some(0xBBu8)
    } else if c == 0x30B7 {  // si
        Some(0xBCu8)
    } else if c == 0x30B9 {  // su
        Some(0xBDu8)
    } else if c == 0x30BB {  // se
        Some(0xBEu8)
    } else if c == 0x30BD {  // so
        Some(0xBFu8)
    } else if c == 0x30BF {  // ta
        Some(0xC0u8)
    } else if c == 0x30C1 {  // ti
        Some(0xC1u8)
    } else if c == 0x30C4 {  // tu
        Some(0xC2u8)
    } else if c == 0x30C6 {  // te
        Some(0xC3u8)
    } else if c == 0x30C8 {  // to
        Some(0xC4u8)
    } else if c == 0x30CA {  // na
        Some(0xC5u8)
    } else if c == 0x30CB {  // ni
        Some(0xC6u8)
    } else if c == 0x30CC {  // nu
        Some(0xC7u8)
    } else if c == 0x30CD {  // ne
        Some(0xC8u8)
    } else if c == 0x30CE {  // no
        Some(0xC9u8)
    } else if c == 0x30CF {  // ha
        Some(0xCAu8)
    } else if c == 0x30D2 {  // hi
        Some(0xCBu8)
    } else if c == 0x30D5 {  // hu
        Some(0xCCu8)
    } else if c == 0x30D8 {  // he
        Some(0xCDu8)
    } else if c == 0x30DB {  // ho
        Some(0xCEu8)
    } else if c == 0x30DE {  // ma
        Some(0xCFu8)
    } else if c == 0x30DF {  // mi
        Some(0xD0u8)
    } else if c == 0x30E0 {  // mu
        Some(0xD1u8)
    } else if c == 0x30E1 {  // me
        Some(0xD2u8)
    } else if c == 0x30E2 {  // mo
        Some(0xD3u8)
    } else if c == 0x30E4 {  // ya
        Some(0xD4u8)
    } else if c == 0x30E6 {  // yu
        Some(0xD5u8)
    } else if c == 0x30E8 {  // yo
        Some(0xD6u8)
    } else if c == 0x30E9 {  // ra
        Some(0xD7u8)
    } else if c == 0x30EA {  // ri
        Some(0xD8u8)
    } else if c == 0x30EB {  // ru
        Some(0xD9u8)
    } else if c == 0x30EC {  // re
        Some(0xDAu8)
    } else if c == 0x30ED {  // ro
        Some(0xDBu8)
    } else if c == 0x30EF {  // wa
        Some(0xDCu8)
    } else if c == 0x30F3 {  // n
        Some(0xDDu8)
    } else if c == 0x309B || c == 0x3099 {  // dakuten
        Some(0xDEu8)
    } else if c == 0x309C || c == 0x309A {  // handakuten
        Some(0xDFu8)
    } else if c == 0x03B1 {  // small alpha
        Some(0xE0u8)
    } else if c == 0x00E4 {  // small a with diaeresis
        Some(0xE1u8)
    } else if c == 0x03B2 {  // small beta
        Some(0xE2u8)
    } else if c == 0x03B5 {  // small epsilon
        Some(0xE3u8)
    } else if c == 0x00B5 {  // small mu/micro
        Some(0xE4u8)
    } else if c == 0x03C3 {  // small sigma
        Some(0xE5u8)
    } else if c == 0x03C1 {  // small rho
        Some(0xE6u8)
    } else if c == 0x221A {  // square root
        Some(0xE8u8)
    } else if c == 0x00A2 {  // cent
        Some(0xECu8)
    } else if c == 0x2C60 {  // capital l with double bar
        Some(0xEDu8)
    } else if c == 0x00F1 {  // small n with tilde
        Some(0xEEu8)
    } else if c == 0x00F6 {  // small o with diaeresis
        Some(0xEFu8)
    } else if c == 0x03B8 {  // small theta
        Some(0xF2u8)
    } else if c == 0x221E {  // infinity
        Some(0xF3u8)
    } else if c == 0x03A9 {  // capital omega
        Some(0xF4u8)
    } else if c == 0x00FC {  // small u with diaeresis
        Some(0xF5u8)
    } else if c == 0x03A3 {  // capital sigma
        Some(0xF6u8)
    } else if c == 0x03C0 {  // small pi
        Some(0xF7u8)
    } else if c == 0x5343 {  // sen, one thousand
        Some(0xFAu8)
    } else if c == 0x4E07 {  // man, ten thousand
        Some(0xFBu8)
    } else if c == 0x5186 {  // yen
        Some(0xFCu8)
    } else if c == 0x00F7 {  // division
        Some(0xFDu8)
    } else if c == 0x2588 {  // full block
        Some(0xFFu8)
    } else if spec_unicode_whitespace(c) {  // any whitespace becomes a blank cell
        Some(0x20u8)
    } else {
        None
    }
}

impl Charset for CharsetA00 {
    open spec fn spec_code(self, c: u32) -> Option<u8> {
        a00_code(c)
    }

    open spec fn spec_is_whitespace(self, c: u32) -> bool {
        spec_unicode_whitespace(c)
    }

    #[verifier::rlimit(30)]
    fn code_from_utf8(&self, ch: char) -> (r: Option<u8>) {
        let c = ch as u32;
        if c == 0xA5 {
            Some(0x5Cu8)
        } else if c == 0x5C {
            None
        } else if 0x10 <= c && c <= 0x1F {
            None
        } else if c <= 0x7D {
            Some(c as u8)
        } else if c == 0x2192 {
            Some(0x7Eu8)
        } else if c == 0x2190 {
            Some(0x7Fu8)
        } else if c == 0xFF01 {
            Some(0x21u8)
        } else if c == 0xFF1F {
            Some(0x3Fu8)
        } else if c == 0x3002 {
            Some(0xA1u8)
        } else if c == 0x300C {
            Some(0xA2u8)
        } else if c == 0x300D {
            Some(0xA3u8)
        } else if c == 0x3001 {
            Some(0xA4u8)
        } else if c == 0x30FB {
            Some(0xA5u8)
        } else if c == 0x30F2 {
            Some(0xA6u8)
        } else if c == 0x30A1 {
            Some(0xA7u8)
        } else if c == 0x30A3 {
            Some(0xA8u8)
        } else if c == 0x30A5 {
            Some(0xA9u8)
        } else if c == 0x30A7 {
            Some(0xAAu8)
        } else if c == 0x30A9 {
            Some(0xABu8)
        } else if c == 0x30E3 {
            Some(0xACu8)
        } else if c == 0x30E5 {
            Some(0xADu8)
        } else if c == 0x30E7 {
            Some(0xAEu8)
        } else if c == 0x30C3 {
            Some(0xAFu8)
        } else if c == 0x30FC {
            Some(0xB0u8)
        } else if c == 0x30A2 {
            Some(0xB1u8)
        } else if c == 0x30A4 {
            Some(0xB2u8)
        } else if c == 0x30A6 {
            Some(0xB3u8)
        } else if c == 0x30A8 {
            Some(0xB4u8)
        } else if c == 0x30AA {
            Some(0xB5u8)
        } else if c == 0x30AB {
            Some(0xB6u8)
        } else if c == 0x30AD {
            Some(0xB7u8)
        } else if c == 0x30AF {
            Some(0xB8u8)
        } else if c == 0x30B1 {
            Some(0xB9u8)
        } else if c == 0x30B3 {
            Some(0xBAu8)
        } else if c == 0x30B5 {
            Some(0xBBu8)
        } else if c == 0x30B7 {
            Some(0xBCu8)
        } else if c == 0x30B9 {
            Some(0xBDu8)
        } else if c == 0x30BB {
            Some(0xBEu8)
        } else if c == 0x30BD {
            Some(0xBFu8)
        } else if c == 0x30BF {
            Some(0xC0u8)
        } else if c == 0x30C1 {
            Some(0xC1u8)
        } else if c == 0x30C4 {
            Some(0xC2u8)
        } else if c == 0x30C6 {
            Some(0xC3u8)
        } else if c == 0x30C8 {
            Some(0xC4u8)
        } else if c == 0x30CA {
            Some(0xC5u8)
        } else if c == 0x30CB {
            Some(0xC6u8)
        } else if c == 0x30CC {
            Some(0xC7u8)
        } else if c == 0x30CD {
            Some(0xC8u8)
        } else if c == 0x30CE {
            Some(0xC9u8)
        } else if c == 0x30CF {
            Some(0xCAu8)
        } else if c == 0x30D2 {
            Some(0xCBu8)
        } else if c == 0x30D5 {
            Some(0xCCu8)
        } else if c == 0x30D8 {
            Some(0xCDu8)
        } else if c == 0x30DB {
            Some(0xCEu8)
        } else if c == 0x30DE {
            Some(0xCFu8)
        } else if c == 0x30DF {
            Some(0xD0u8)
        } else if c == 0x30E0 {
            Some(0xD1u8)
        } else if c == 0x30E1 {
            Some(0xD2u8)
        } else if c == 0x30E2 {
            Some(0xD3u8)
        } else if c == 0x30E4 {
            Some(0xD4u8)
        } else if c == 0x30E6 {
            Some(0xD5u8)
        } else if c == 0x30E8 {
            Some(0xD6u8)
        } else if c == 0x30E9 {
            Some(0xD7u8)
        } else if c == 0x30EA {
            Some(0xD8u8)
        } else if c == 0x30EB {
            Some(0xD9u8)
        } else if c == 0x30EC {
            Some(0xDAu8)
        } else if c == 0x30ED {
            Some(0xDBu8)
        } else if c == 0x30EF {
            Some(0xDCu8)
        } else if c == 0x30F3 {
            Some(0xDDu8)
        } else if c == 0x309B || c == 0x3099 {
            Some(0xDEu8)
        } else if c == 0x309C || c == 0x309A {
            Some(0xDFu8)
        } else if c == 0x03B1 {
            Some(0xE0u8)
        } else if c == 0x00E4 {
            Some(0xE1u8)
        } else if c == 0x03B2 {
            Some(0xE2u8)
        } else if c == 0x03B5 {
            Some(0xE3u8)
        } else if c == 0x00B5 {
            Some(0xE4u8)
        } else if c == 0x03C3 {
            Some(0xE5u8)
        } else if c == 0x03C1 {
            Some(0xE6u8)
        } else if c == 0x221A {
            Some(0xE8u8)
        } else if c == 0x00A2 {
            Some(0xECu8)
        } else if c == 0x2C60 {
            Some(0xEDu8)
        } else if c == 0x00F1 {
            Some(0xEEu8)
        } else if c == 0x00F6 {
            Some(0xEFu8)
        } else if c == 0x03B8 {
            Some(0xF2u8)
        } else if c == 0x221E {
            Some(0xF3u8)
        } else if c == 0x03A9 {
            Some(0xF4u8)
        } else if c == 0x00FC {
            Some(0xF5u8)
        } else if c == 0x03A3 {
            Some(0xF6u8)
        } else if c == 0x03C0 {
            Some(0xF7u8)
        } else if c == 0x5343 {
            Some(0xFAu8)
        } else if c == 0x4E07 {
            Some(0xFBu8)
        } else if c == 0x5186 {
            Some(0xFCu8)
        } else if c == 0x00F7 {
            Some(0xFDu8)
        } else if c == 0x2588 {
            Some(0xFFu8)
        } else if is_unicode_whitespace_code(c) {
            Some(0x20u8)
        } else {
            None
        }
    }

    fn is_whitespace(&self, ch: char) -> (r: bool) {
        is_unicode_whitespace_code(ch as u32)
    }
}

/// European Standard Font Character Set: Latin-1 with a handful of
/// repurposed cells, Cyrillic approximated onto visually similar Latin
/// glyphs, and a block of symbols in the lower code page.
#[derive(Clone, Copy, Debug, PartialEq, Eq, Structural)]
pub struct CharsetA02;

/// The code the European-standard character ROM assigns to code point `c`.
pub open spec fn a02_code(c: u32) -> Option<u8> {
    if c <= 0x0F || (0x20 <= c && c <= 0x7E) {  // CGRAM codes and ASCII map through
        Some(c as u8)
    } else if c == 0xA8 || c == 0xAC || c == 0xAD || c == 0xAF || c == 0xB4 || c == 0xB8 || c == 0xD8 || c == 0xF8 {  // latin-1 cells the ROM repurposes
        None
    } else if 0xA1 <= c && c <= 0xFF {  // latin-1 supplement
        Some(c as u8)
    } else if c == 0x23F5 {  // right-pointing triangle
        Some(0x00u8)
    } else if c == 0x23F4 {  // left-pointing triangle
        Some(0x01u8)
    } else if c == 0x201C {  // left double quotation mark
        Some(0x02u8)
    } else if c == 0x201D {  // right double quotation mark
        Some(0x03u8)
    } else if c == 0x23EB {  // double up triangle
        Some(0x04u8)
    } else if c == 0x23EC {  // double down triangle
        Some(0x05u8)
    } else if c == 0x23FA {  // record circle
        Some(0x06u8)
    } else if c == 0x21B2 {  // down arrow with tip left
        Some(0x07u8)
    } else if c == 0x2191 {  // up arrow
        Some(0x08u8)
    } else if c == 0x2193 {  // down arrow
        Some(0x09u8)
    } else if c == 0x2192 {  // right arrow
        Some(0x0Au8)
    } else if c == 0x2190 {  // left arrow
        Some(0x0Bu8)
    } else if c == 0x2264 {  // less than or equal
        Some(0x0Cu8)
    } else if c == 0x2265 {  // greater than or equal
        Some(0x0Du8)
    } else if c == 0x23F6 {  // up-pointing triangle
        Some(0x0Eu8)
    } else if c == 0x23F7 {  // down-pointing triangle
        Some(0x0Fu8)
    } else if c == 0x2302 {  // house
        Some(0x7Fu8)
    } else if c == 0x0410 {  // capital a
        Some(0x41u8)
    } else if c == 0x0411 {  // capital be
        Some(0x80u8)
    } else if c == 0x0412 {  // capital ve
        Some(0x42u8)
    } else if c == 0x0413 {  // capital ghe
        Some(0x92u8)
    } else if c == 0x0414 {  // capital de
        Some(0x81u8)
    } else if c == 0x0415 {  // capital ie
        Some(0x45u8)
    } else if c == 0x0416 {  // capital zhe
        Some(0x82u8)
    } else if c == 0x0417 {  // capital ze
        Some(0x83u8)
    } else if c == 0x0418 {  // capital i
        Some(0x84u8)
    } else if c == 0x0419 {  // capital short i
        Some(0x85u8)
    } else if c == 0x041A {  // capital ka
        Some(0x4Bu8)
    } else if c == 0x041B {  // capital el
        Some(0x86u8)
    } else if c == 0x041C {  // capital em
        Some(0x4Du8)
    } else if c == 0x041D {  // capital en
        Some(0x48u8)
    } else if c == 0x041E {  // capital o
        Some(0x4Fu8)
    } else if c == 0x041F {  // capital pe
        Some(0x87u8)
    } else if c == 0x0420 {  // capital er
        Some(0x50u8)
    } else if c == 0x0421 {  // capital es
        Some(0x43u8)
    } else if c == 0x0422 {  // capital te
        Some(0x54u8)
    } else if c == 0x0423 {  // capital u
        Some(0x88u8)
    } else if c == 0x0425 {  // capital ha
        Some(0x58u8)
    } else if c == 0x0426 {  // capital tse
        Some(0x89u8)
    } else if c == 0x0427 {  // capital che
        Some(0x8Au8)
    } else if c == 0x0428 {  // capital sha
        Some(0x8Bu8)
    } else if c == 0x0429 {  // capital shcha
        Some(0x8Cu8)
    } else if c == 0x042A {  // capital hard sign
        Some(0x8Du8)
    } else if c == 0x042B {  // capital yeru
        Some(0x8Eu8)
    } else if c == 0x042C {  // capital soft sign
        Some(0x62u8)
    } else if c == 0x042D {  // capital e
        Some(0x8Fu8)
    } else if c == 0x042E {  // capital yu
        Some(0xACu8)
    } else if c == 0x042F {  // capital ya
        Some(0xADu8)
    } else if c == 0x03B1 {  // small alpha
        Some(0x90u8)
    } else if c == 0x266A {  // eighth note
        Some(0x91u8)
    } else if c == 0x03C0 {  // small pi
        Some(0x93u8)
    } else if c == 0x03A3 {  // capital sigma
        Some(0x94u8)
    } else if c == 0x03C3 {  // small sigma
        Some(0x95u8)
    } else if c == 0x266C {  // beamed sixteenth notes
        Some(0x96u8)
    } else if c == 0x03C4 {  // small tau
        Some(0x97u8)
    } else if c == 0x1F514 {  // bell
        Some(0x98u8)
    } else if c == 0x03F4 {  // capital theta
        Some(0x99u8)
    } else if c == 0x03A9 {  // capital omega
        Some(0x9Au8)
    } else if c == 0x03B4 {  // small delta
        Some(0x9Bu8)
    } else if c == 0x221E {  // infinity
        Some(0x9Cu8)
    } else if c == 0x2665 {  // heart
        Some(0x9Du8)
    } else if c == 0x03B5 {  // small epsilon
        Some(0x9Eu8)
    } else if c == 0x2229 {  // intersection
        Some(0x9Fu8)
    } else if c == 0x23F8 {  // double vertical bar
        Some(0xA0u8)
    } else if c == 0x2A0D {  // finite part integral
        Some(0xA8u8)
    } else if c == 0x03C9 {  // small omega
        Some(0xB8u8)
    } else if c == 0x0278 {  // small phi
        Some(0xD8u8)
    } else if c == 0x222E {  // contour integral
        Some(0xF8u8)
    } else if c == 0x2018 {  // left single quotation mark
        Some(0xAFu8)
    } else if c == 0x2019 {  // right single quotation mark
        Some(0x27u8)
    } else {
        None
    }
}

impl Charset for CharsetA02 {
    open spec fn spec_code(self, c: u32) -> Option<u8> {
        a02_code(c)
    }

    open spec fn spec_is_whitespace(self, c: u32) -> bool {
        spec_ascii_whitespace(c)
    }

    #[verifier::rlimit(30)]
    fn code_from_utf8(&self, ch: char) -> (r: Option<u8>) {
        let c = ch as u32;
        if c <= 0x0F || (0x20 <= c && c <= 0x7E) {
            Some(c as u8)
        } else if c == 0xA8 || c == 0xAC || c == 0xAD || c == 0xAF || c == 0xB4 || c == 0xB8 || c == 0xD8 || c == 0xF8 {
            None
        } else if 0xA1 <= c && c <= 0xFF {
            Some(c as u8)
        } else if c == 0x23F5 {
            Some(0x00u8)
        } else if c == 0x23F4 {
            Some(0x01u8)
        } else if c == 0x201C {
            Some(0x02u8)
        } else if c == 0x201D {
            Some(0x03u8)
        } else if c == 0x23EB {
            Some(0x04u8)
        } else if c == 0x23EC {
            Some(0x05u8)
        } else if c == 0x23FA {
            Some(0x06u8)
        } else if c == 0x21B2 {
            Some(0x07u8)
        } else if c == 0x2191 {
            Some(0x08u8)
        } else if c == 0x2193 {
            Some(0x09u8)
        } else if c == 0x2192 {
            Some(0x0Au8)
        } else if c == 0x2190 {
            Some(0x0Bu8)
        } else if c == 0x2264 {
            Some(0x0Cu8)
        } else if c == 0x2265 {
            Some(0x0Du8)
        } else if c == 0x23F6 {
            Some(0x0Eu8)
        } else if c == 0x23F7 {
            Some(0x0Fu8)
        } else if c == 0x2302 {
            Some(0x7Fu8)
        } else if c == 0x0410 {
            Some(0x41u8)
        } else if c == 0x0411 {
            Some(0x80u8)
        } else if c == 0x0412 {
            Some(0x42u8)
        } else if c == 0x0413 {
            Some(0x92u8)
        } else if c == 0x0414 {
            Some(0x81u8)
        } else if c == 0x0415 {
            Some(0x45u8)
        } else if c == 0x0416 {
            Some(0x82u8)
        } else if c == 0x0417 {
            Some(0x83u8)
        } else if c == 0x0418 {
            Some(0x84u8)
        } else if c == 0x0419 {
            Some(0x85u8)
        } else if c == 0x041A {
            Some(0x4Bu8)
        } else if c == 0x041B {
            Some(0x86u8)
        } else if c == 0x041C {
            Some(0x4Du8)
        } else if c == 0x041D {
            Some(0x48u8)
        } else if c == 0x041E {
            Some(0x4Fu8)
        } else if c == 0x041F {
            Some(0x87u8)
        } else if c == 0x0420 {
            Some(0x50u8)
        } else if c == 0x0421 {
            Some(0x43u8)
        } else if c == 0x0422 {
            Some(0x54u8)
        } else if c == 0x0423 {
            Some(0x88u8)
        } else if c == 0x0425 {
            Some(0x58u8)
        } else if c == 0x0426 {
            Some(0x89u8)
        } else if c == 0x0427 {
            Some(0x8Au8)
        } else if c == 0x0428 {
            Some(0x8Bu8)
        } else if c == 0x0429 {
            Some(0x8Cu8)
        } else if c == 0x042A {
            Some(0x8Du8)
        } else if c == 0x042B {
            Some(0x8Eu8)
        } else if c == 0x042C {
            Some(0x62u8)
        } else if c == 0x042D {
            Some(0x8Fu8)
        } else if c == 0x042E {
            Some(0xACu8)
        } else if c == 0x042F {
            Some(0xADu8)
        } else if c == 0x03B1 {
            Some(0x90u8)
        } else if c == 0x266A {
            Some(0x91u8)
        } else if c == 0x03C0 {
            Some(0x93u8)
        } else if c == 0x03A3 {
            Some(0x94u8)
        } else if c == 0x03C3 {
            Some(0x95u8)
        } else if c == 0x266C {
            Some(0x96u8)
        } else if c == 0x03C4 {
            Some(0x97u8)
        } else if c == 0x1F514 {
            Some(0x98u8)
        } else if c == 0x03F4 {
            Some(0x99u8)
        } else if c == 0x03A9 {
            Some(0x9Au8)
        } else if c == 0x03B4 {
            Some(0x9Bu8)
        } else if c == 0x221E {
            Some(0x9Cu8)
        } else if c == 0x2665 {
            Some(0x9Du8)
        } else if c == 0x03B5 {
            Some(0x9Eu8)
        } else if c == 0x2229 {
            Some(0x9Fu8)
        } else if c == 0x23F8 {
            Some(0xA0u8)
        } else if c == 0x2A0D {
            Some(0xA8u8)
        } else if c == 0x03C9 {
            Some(0xB8u8)
        } else if c == 0x0278 {
            Some(0xD8u8)
        } else if c == 0x222E {
            Some(0xF8u8)
        } else if c == 0x2018 {
            Some(0xAFu8)
        } else if c == 0x2019 {
            Some(0x27u8)
        } else {
            None
        }
    }

    fn is_whitespace(&self, ch: char) -> (r: bool) {
        is_ascii_whitespace_code(ch as u32)
    }
}

} // verus!

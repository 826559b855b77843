//! The glyph table: which segments are lit for each value.

use vstd::prelude::*;

verus! {

/// Which of the seven segments are lit, in the fixed order a, b, c, d, e, f, g.
///
/// ```text
///  ________
/// |\__a___/|
/// | |    | |
/// |f|    |b|
/// | |____| |
/// |/  g   \|
/// |\______/|
/// | |    | |
/// |e|    |c|
/// | |____| |
/// |/__d___\|
/// ```
#[derive(Clone, Copy, Debug, PartialEq, Eq, Structural)]
pub struct GlyphPattern {
    pub a: bool,
    pub b: bool,
    pub c: bool,
    pub d: bool,
    pub e: bool,
    pub f: bool,
    pub g: bool,
}

impl GlyphPattern {
    /// The seven segment states as a sequence, `a` first and `g` last.
    pub open spec fn segments(self) -> Seq<bool> {
        seq![self.a, self.b, self.c, self.d, self.e, self.f, self.g]
    }

    /// No segment is lit.
    pub open spec fn is_blank(self) -> bool {
        !self.a && !self.b && !self.c && !self.d && !self.e && !self.f && !self.g
    }
}

/// A pattern written as seven bits, 1 for lit, in the order a, b, c, d, e, f, g.
pub open spec fn bits(a: int, b: int, c: int, d: int, e: int, f: int, g: int) -> GlyphPattern {
    GlyphPattern { a: a == 1, b: b == 1, c: c == 1, d: d == 1, e: e == 1, f: f == 1, g: g == 1 }
}

/// The pattern with no segment lit.
pub open spec fn blank() -> GlyphPattern {
    bits(0, 0, 0, 0, 0, 0, 0)
}

/// The hexadecimal table: a glyph for each of 0 to 15, blank for every other integer.
pub open spec fn hex_glyph(value: int) -> GlyphPattern {
    if value == 0 {
        bits(1, 1, 1, 1, 1, 1, 0)
    } else if value == 1 {
        bits(0, 1, 1, 0, 0, 0, 0)
    } else if value == 2 {
        bits(1, 1, 0, 1, 1, 0, 1)
    } else if value == 3 {
        bits(1, 1, 1, 1, 0, 0, 1)
    } else if value == 4 {
        bits(0, 1, 1, 0, 0, 1, 1)
    } else if value == 5 {
        bits(1, 0, 1, 1, 0, 1, 1)
    } else if value == 6 {
        bits(1, 0, 1, 1, 1, 1, 1)
    } else if value == 7 {
        bits(1, 1, 1, 0, 0, 0, 0)
    } else if value == 8 {
        bits(1, 1, 1, 1, 1, 1, 1)
    } else if value == 9 {
        bits(1, 1, 1, 1, 0, 1, 1)
    } else if value == 10 {
        bits(1, 1, 1, 0, 1, 1, 1)
    } else if value == 11 {
        bits(0, 0, 1, 1, 1, 1, 1)
    } else if value == 12 {
        bits(1, 0, 0, 1, 1, 1, 0)
    } else if value == 13 {
        bits(0, 1, 1, 1, 1, 0, 1)
    } else if value == 14 {
        bits(1, 0, 0, 1, 1, 1, 1)
    } else if value == 15 {
        bits(1, 0, 0, 0, 1, 1, 1)
    } else {
        blank()
    }
}

/// The decimal table: the hexadecimal table on 0 to 9, blank for every other integer.
pub open spec fn decimal_glyph(value: int) -> GlyphPattern {
    if 0 <= value <= 9 {
        hex_glyph(value)
    } else {
        blank()
    }
}

/// The value that the hexadecimal table is asked for when the decimal table is
/// asked for `value`: the digit itself, or 255, which has no glyph.
pub open spec fn decimal_to_hex(value: u8) -> u8 {
    if value > 9 {
        255
    } else {
        value
    }
}

/// Looks `value` up in the hexadecimal table.
pub fn lookup_hex(value: u8) -> (pattern: GlyphPattern)
    ensures
        pattern == hex_glyph(value as int),
        value > 15 ==> pattern == blank(),
{
    let on: bool = true;
    let off: bool = false;
    match value {
        0 => GlyphPattern { a: on, b: on, c: on, d: on, e: on, f: on, g: off },
        1 => GlyphPattern { a: off, b: on, c: on, d: off, e: off, f: off, g: off },
        2 => GlyphPattern { a: on, b: on, c: off, d: on, e: on, f: off, g: on },
        3 => GlyphPattern { a: on, b: on, c: on, d: on, e: off, f: off, g: on },
        4 => GlyphPattern { a: off, b: on, c: on, d: off, e: off, f: on, g: on },
        5 => GlyphPattern { a: on, b: off, c: on, d: on, e: off, f: on, g: on },
        6 => GlyphPattern { a: on, b: off, c: on, d: on, e: on, f: on, g: on },
        7 => GlyphPattern { a: on, b: on, c: on, d: off, e: off, f: off, g: off },
        8 => GlyphPattern { a: on, b: on, c: on, d: on, e: on, f: on, g: on },
        9 => GlyphPattern { a: on, b: on, c: on, d: on, e: off, f: on, g: on },
        10 => GlyphPattern { a: on, b: on, c: on, d: off, e: on, f: on, g: on },
        11 => GlyphPattern { a: off, b: off, c: on, d: on, e: on, f: on, g: on },
        12 => GlyphPattern { a: on, b: off, c: off, d: on, e: on, f: on, g: off },
        13 => GlyphPattern { a: off, b: on, c: on, d: on, e: on, f: off, g: on },
        14 => GlyphPattern { a: on, b: off, c: off, d: on, e: on, f: on, g: on },
        15 => GlyphPattern { a: on, b: off, c: off, d: off, e: on, f: on, g: on },
        _ => GlyphPattern { a: off, b: off, c: off, d: off, e: off, f: off, g: off },
    }
}

/// Looks `value` up in the decimal table.
///
/// Every value above 9 is first replaced by 255, for which the hexadecimal
/// table has no glyph, so a caller of the decimal table never sees a letter.
pub fn lookup(value: u8) -> (pattern: GlyphPattern)
    ensures
        pattern == decimal_glyph(value as int),
        pattern == hex_glyph(decimal_to_hex(value) as int),
        value > 9 ==> pattern == blank(),
{
    let folded: u8 = if value > 9 { 255 } else { value };
    lookup_hex(folded)
}

/// Every integer outside 0 to 9, negative ones and large ones alike, has the
/// blank pattern in the decimal table.
pub proof fn lemma_decimal_blank_outside_digits(value: int)
    requires
        value < 0 || value > 9,
    ensures
        decimal_glyph(value) == blank(),
        decimal_glyph(value).is_blank(),
{
}

/// Every integer outside 0 to 15, negative ones and large ones alike, has the
/// blank pattern in the hexadecimal table.
pub proof fn lemma_hex_blank_outside_digits(value: int)
    requires
        value < 0 || value > 15,
    ensures
        hex_glyph(value) == blank(),
        hex_glyph(value).is_blank(),
{
}

/// The two tables agree on the decimal digits.
pub proof fn lemma_tables_agree_on_decimal_digits(value: int)
    requires
        0 <= value <= 9,
    ensures
        decimal_glyph(value) == hex_glyph(value),
{
}

/// Every value that has a glyph lights at least one segment, so a blank
/// display always stands for a value without a glyph.
pub proof fn lemma_glyphs_are_not_blank(value: int)
    requires
        0 <= value <= 15,
    ensures
        !hex_glyph(value).is_blank(),
        value <= 9 ==> !decimal_glyph(value).is_blank(),
{
}

/// No two values share a glyph: what the display shows tells which of the
/// sixteen values was asked for.
pub proof fn lemma_glyphs_are_distinct(first: int, second: int)
    requires
        0 <= first <= 15,
        0 <= second <= 15,
        hex_glyph(first) == hex_glyph(second),
    ensures
        first == second,
{
}

} // verus!

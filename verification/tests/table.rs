use seven_segment::glyph::{lookup, lookup_hex};
use seven_segment::GlyphPattern;

fn pattern(bits: [u8; 7]) -> GlyphPattern {
    GlyphPattern {
        a: bits[0] == 1,
        b: bits[1] == 1,
        c: bits[2] == 1,
        d: bits[3] == 1,
        e: bits[4] == 1,
        f: bits[5] == 1,
        g: bits[6] == 1,
    }
}

const DIGITS: [[u8; 7]; 10] = [
    [1, 1, 1, 1, 1, 1, 0],
    [0, 1, 1, 0, 0, 0, 0],
    [1, 1, 0, 1, 1, 0, 1],
    [1, 1, 1, 1, 0, 0, 1],
    [0, 1, 1, 0, 0, 1, 1],
    [1, 0, 1, 1, 0, 1, 1],
    [1, 0, 1, 1, 1, 1, 1],
    [1, 1, 1, 0, 0, 0, 0],
    [1, 1, 1, 1, 1, 1, 1],
    [1, 1, 1, 1, 0, 1, 1],
];

const LETTERS: [[u8; 7]; 6] = [
    [1, 1, 1, 0, 1, 1, 1],
    [0, 0, 1, 1, 1, 1, 1],
    [1, 0, 0, 1, 1, 1, 0],
    [0, 1, 1, 1, 1, 0, 1],
    [1, 0, 0, 1, 1, 1, 1],
    [1, 0, 0, 0, 1, 1, 1],
];

#[test]
fn decimal_table_lists_every_digit() {
    for value in 0u8..10 {
        assert_eq!(lookup(value), pattern(DIGITS[value as usize]), "digit {}", value);
    }
}

#[test]
fn hex_table_lists_every_digit_and_letter() {
    for value in 0u8..10 {
        assert_eq!(lookup_hex(value), pattern(DIGITS[value as usize]), "digit {}", value);
    }
    for value in 10u8..16 {
        assert_eq!(lookup_hex(value), pattern(LETTERS[value as usize - 10]), "letter {}", value);
    }
}

#[test]
fn tables_agree_on_decimal_digits() {
    for value in 0u8..10 {
        assert_eq!(lookup(value), lookup_hex(value));
    }
}

#[test]
fn decimal_table_is_blank_above_nine() {
    let blank = pattern([0, 0, 0, 0, 0, 0, 0]);
    assert_eq!(lookup(10), blank);
    assert_eq!(lookup(15), blank);
    assert_eq!(lookup(16), blank);
    assert_eq!(lookup(200), blank);
    assert_eq!(lookup(255), blank);
    for value in 10u8..=255 {
        assert_eq!(lookup(value), blank, "value {}", value);
    }
}

#[test]
fn hex_table_is_blank_above_fifteen() {
    let blank = pattern([0, 0, 0, 0, 0, 0, 0]);
    assert_eq!(lookup_hex(16), blank);
    assert_eq!(lookup_hex(255), blank);
    for value in 16u8..=255 {
        assert_eq!(lookup_hex(value), blank, "value {}", value);
    }
}

#[test]
fn decimal_table_never_shows_a_letter() {
    for value in 10u8..16 {
        assert_ne!(lookup(value), lookup_hex(value), "value {}", value);
    }
}

#[test]
fn glyphs_are_distinct_and_not_blank() {
    let blank = pattern([0, 0, 0, 0, 0, 0, 0]);
    for first in 0u8..16 {
        assert_ne!(lookup_hex(first), blank);
        for second in 0u8..16 {
            if first != second {
                assert_ne!(lookup_hex(first), lookup_hex(second), "{} and {}", first, second);
            }
        }
    }
}

//! From a character to its glyph.

use vstd::prelude::*;
use crate::font::{
    DIGITS, EQUALS, EXCLAMATION, HASH, HYPHEN, LETTERS, PERIOD, PLUS, SPACE, UNSUPPORTED,
};

verus! {

/// `c` is one of the ASCII letters, in either case.
pub open spec fn is_letter(c: char) -> bool {
    'A' <= c <= 'Z' || 'a' <= c <= 'z'
}

/// `c` is one of the ASCII digits.
pub open spec fn is_digit(c: char) -> bool {
    '0' <= c <= '9'
}

/// `c` is one of the seven symbols that have a glyph of their own.
pub open spec fn is_symbol(c: char) -> bool {
    c == '!' || c == '.' || c == ' ' || c == '-' || c == '=' || c == '#' || c == '+'
}

/// The code of `c`, or of its upper-case form where `c` is an ASCII lower-case letter.
/// Characters outside ASCII keep their code.
pub open spec fn upper_code(c: char) -> int {
    if 'a' <= c <= 'z' {
        c as int - 32
    } else {
        c as int
    }
}

/// The place of the letter `c` in [`LETTERS`]: its upper-case form counted from `A`.
pub open spec fn letter_index(c: char) -> int
    recommends
        is_letter(c),
{
    upper_code(c) - 'A' as int
}

/// The place of the digit `c` in [`DIGITS`]: `c` counted from `0`.
pub open spec fn digit_index(c: char) -> int
    recommends
        is_digit(c),
{
    c as int - '0' as int
}

/// The columns of the symbol `c`.
pub open spec fn symbol_glyph(c: char) -> Seq<u8>
    recommends
        is_symbol(c),
{
    if c == '!' {
        EXCLAMATION@
    } else if c == '.' {
        PERIOD@
    } else if c == ' ' {
        SPACE@
    } else if c == '-' {
        HYPHEN@
    } else if c == '=' {
        EQUALS@
    } else if c == '#' {
        HASH@
    } else {
        PLUS@
    }
}

/// The columns that the font draws for `c`: a letter's by its upper-case form, a
/// digit's, a symbol's, and for every other character those of [`UNSUPPORTED`].
pub open spec fn glyph(c: char) -> Seq<u8> {
    if is_letter(c) {
        LETTERS[letter_index(c)]@
    } else if is_digit(c) {
        DIGITS[digit_index(c)]@
    } else if is_symbol(c) {
        symbol_glyph(c)
    } else {
        UNSUPPORTED@
    }
}

/// Looks up the glyph of `c`. Letters are drawn in upper case; a character that the
/// font does not cover gets [`UNSUPPORTED`]. Some glyphs are narrower than five
/// columns: `!` takes a single one.
pub fn col_def(c: char) -> (columns: &'static [u8])
    ensures
        columns@ == glyph(c),
{
    let mut code: usize = c as usize;
    if code > 96 && code < 123 {
        code = code - 32;
    }
    if code > 64 && code < 91 {
        return &LETTERS[code - 65];
    }
    if code > 47 && code < 58 {
        return &DIGITS[code - 48];
    }
    match c {
        '!' => &EXCLAMATION,
        '.' => &PERIOD,
        ' ' => &SPACE,
        '-' => &HYPHEN,
        '=' => &EQUALS,
        '#' => &HASH,
        '+' => &PLUS,
        _ => &UNSUPPORTED,
    }
}

/// Every ASCII letter, upper or lower case, has the glyph that [`LETTERS`] holds at
/// the place of its upper-case form counted from `A`, and that glyph is five columns
/// wide.
pub proof fn lemma_letter_glyph(c: char)
    requires
        is_letter(c),
    ensures
        0 <= letter_index(c) < 26,
        glyph(c) == LETTERS[letter_index(c)]@,
        glyph(c).len() == 5,
{
}

/// A lower-case letter has the glyph of its upper-case form.
pub proof fn lemma_case_is_ignored(lower: char, upper: char)
    requires
        'a' <= lower <= 'z',
        upper as int == lower as int - 32,
    ensures
        glyph(lower) == glyph(upper),
{
}

/// Every digit has the glyph that [`DIGITS`] holds at its place counted from `0`,
/// and that glyph is four columns wide.
pub proof fn lemma_digit_glyph(c: char)
    requires
        is_digit(c),
    ensures
        0 <= digit_index(c) < 10,
        glyph(c) == DIGITS[digit_index(c)]@,
        glyph(c).len() == 4,
{
}

/// Each of the seven symbols has its own glyph, bit for bit.
pub proof fn lemma_symbol_glyphs()
    ensures
        glyph('!') == seq![0x17u8],
        glyph('.') == seq![0x10u8],
        glyph(' ') == seq![0x0u8],
        glyph('-') == seq![0x4u8, 0x4, 0x4],
        glyph('=') == seq![0xau8, 0xa, 0xa],
        glyph('#') == seq![0xau8, 0x1f, 0xa, 0x1f, 0xa],
        glyph('+') == seq![0x4u8, 0xe, 0x4],
{
}

/// A character that is no ASCII letter, no digit and none of the seven symbols has
/// the glyph [`UNSUPPORTED`].
pub proof fn lemma_unsupported_glyph(c: char)
    requires
        !is_letter(c),
        !is_digit(c),
        !is_symbol(c),
    ensures
        glyph(c) == seq![0x11u8, 0x13, 0x15, 0x19, 0x11],
{
}

/// Every glyph is one to five columns wide, and each of its columns fits in five bits.
pub proof fn lemma_glyph_shape(c: char)
    ensures
        1 <= glyph(c).len() <= 5,
        forall|i: int| 0 <= i < glyph(c).len() ==> #[trigger] glyph(c)[i] <= 31,
{
}

/// Two lookups of one character give the same columns.
pub proof fn lemma_lookup_repeats(c: char, first: &[u8], second: &[u8])
    requires
        first@ == glyph(c),
        second@ == glyph(c),
    ensures
        first@ == second@,
{
}

} // verus!

//! The glyph tables of the font.
//!
//! A glyph is a run of columns, left to right. A column holds five pixels in its
//! low five bits: bit 0 is the top row, bit 4 the bottom row. `0x1e = 0b11110`,
//! the first column of `A`, therefore leaves the top-left pixel dark.

use vstd::prelude::*;

verus! {

/// The letters `A` to `Z`, five columns each.
pub const LETTERS: [[u8; 5]; 26] = [
    /*A*/ [0x1e, 0x9, 0x9, 0x9, 0x1e],
    /*B*/ [0x1f, 0x15, 0x15, 0x15, 0xa],
    /*C*/ [0xe, 0x11, 0x11, 0x11, 0x11],
    /*D*/ [0x1f, 0x11, 0x11, 0x11, 0xe],
    /*E*/ [0x1f, 0x15, 0x15, 0x15, 0x11],
    /*F*/ [0x1f, 0x5, 0x5, 0x5, 0x1],
    /*G*/ [0xe, 0x11, 0x15, 0x15, 0x9],
    /*H*/ [0x1f, 0x4, 0x4, 0x4, 0x1f],
    /*I*/ [0x1f, 0x0, 0x0, 0x0, 0x0],
    /*J*/ [0xc, 0x10, 0x10, 0x10, 0xf],
    /*K*/ [0x1f, 0x4, 0x4, 0xa, 0x11],
    /*L*/ [0x1f, 0x10, 0x10, 0x10, 0x8],
    /*M*/ [0x1f, 0x1, 0x6, 0x1, 0x1f],
    /*N*/ [0x1f, 0x1, 0xe, 0x10, 0x1f],
    /*O*/ [0xe, 0x11, 0x11, 0x11, 0xe],
    /*P*/ [0x1f, 0x5, 0x5, 0x5, 0x2],
    /*Q*/ [0xe, 0x11, 0x15, 0x9, 0x16],
    /*R*/ [0x1f, 0x5, 0x5, 0xd, 0x16],
    /*S*/ [0x16, 0x15, 0x15, 0x15, 0xd],
    /*T*/ [0x1, 0x1, 0x1f, 0x1, 0x1],
    /*U*/ [0xf, 0x10, 0x10, 0x10, 0xf],
    /*V*/ [0x7, 0x8, 0x10, 0x8, 0x7],
    /*W*/ [0xf, 0x10, 0x1f, 0x10, 0xf],
    /*X*/ [0x11, 0xa, 0x4, 0xa, 0x11],
    /*Y*/ [0x1, 0x2, 0x1c, 0x2, 0x1],
    /*Z*/ [0x11, 0x19, 0x15, 0x13, 0x11],
];

/// The digits `0` to `9`, four columns each.
pub const DIGITS: [[u8; 4]; 10] = [
    /*0*/ [0x1f, 0x11, 0x11, 0x1f],
    /*1*/ [0x4, 0x2, 0x1, 0x1f],
    /*2*/ [0x1d, 0x15, 0x15, 0x17],
    /*3*/ [0x15, 0x15, 0x15, 0x1f],
    /*4*/ [0x7, 0x4, 0x4, 0x1f],
    /*5*/ [0x17, 0x15, 0x15, 0x1d],
    /*6*/ [0x1f, 0x15, 0x15, 0x1d],
    /*7*/ [0x3, 0x1, 0x1, 0x1f],
    /*8*/ [0x1f, 0x15, 0x15, 0x1f],
    /*9*/ [0x7, 0x5, 0x5, 0x1f],
];

/// The glyph of `!`.
pub const EXCLAMATION: [u8; 1] = [0x17];

/// The glyph of `.`.
pub const PERIOD: [u8; 1] = [0x10];

/// The glyph of the space character.
pub const SPACE: [u8; 1] = [0x0];

/// The glyph of `-`.
pub const HYPHEN: [u8; 3] = [0x4, 0x4, 0x4];

/// The glyph of `=`.
pub const EQUALS: [u8; 3] = [0xa, 0xa, 0xa];

/// The glyph of `#`.
pub const HASH: [u8; 5] = [0xa, 0x1f, 0xa, 0x1f, 0xa];

/// The glyph of `+`.
pub const PLUS: [u8; 3] = [0x4, 0xe, 0x4];

/// The glyph that stands for every character the font does not cover.
pub const UNSUPPORTED: [u8; 5] = [0x11, 0x13, 0x15, 0x19, 0x11];

/// One blank column: the gap between two characters, and the padding after a text.
pub const SPACING: [u8; 1] = [0x0];

} // verus!

//! A five-row bitmap font for ASCII text, and the layout of a text in it.

pub mod font;
pub mod layout;
pub mod resolver;

pub use font::{
    DIGITS, EQUALS, EXCLAMATION, HASH, HYPHEN, LETTERS, PERIOD, PLUS, SPACE, SPACING, UNSUPPORTED,
};
pub use layout::{buff_size, col_defs};
pub use resolver::col_def;

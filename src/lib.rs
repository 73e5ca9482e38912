//! Right padding of text values: each value is cut at a grapheme boundary or
//! extended with a cycled fill string to a requested length, row by row over
//! columns of nullable text.

pub mod pad;
pub mod column;
pub mod func;
pub mod laws;

//! Small helpers: the character-to-character lookup trait and text
//! conversions between strings and character vectors.

pub mod map;
pub mod text;

//! Parsing of notes: a block of `key: value` lines between two `---`
//! markers, followed by free text.

pub mod decimal;
pub mod instant;
pub mod search;
pub mod note;

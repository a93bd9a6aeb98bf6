//! Regex-based text extraction: a pattern is compiled once, a capture group is
//! selected by number or by name, and the selected group is extracted from a
//! whole document or from each line of the input.

pub mod driver;
pub mod engine;
pub mod machine;
pub mod pattern;
pub mod selector;

//! Terminal color resolution for a file-listing tool.
//!
//! Maps each semantic display element of a listed filesystem entry (its node
//! kind, a permission bit, its age, an ownership field, its size tier) to a
//! fixed indexed terminal color, and renders text in that color only when
//! standard output is an interactive terminal.

pub mod ansi;
pub mod color;

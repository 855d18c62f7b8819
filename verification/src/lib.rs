//! hq: query HTML documents with CSS selectors and print the matched
//! fragments, either on one line or as an indented tree.

pub mod text;
pub mod tree;
pub mod render;
pub mod select;
pub mod pipeline;

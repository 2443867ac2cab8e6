//! Converts BBCode markup into HTML.
//!
//! A conversion first protects the contents of `[code]` and `[preformatted]`
//! blocks and then applies a fixed, ordered table of regular-expression
//! substitutions, each pass working on the output of the one before.
//!
//! The expressions are matched by the `regex` crate. What that crate
//! computes is named in `matching` and taken on trust; everything else is
//! proved against those names: `text` replaces literal substrings, `literal`
//! renders literal blocks, `table` builds the pattern table, and `convert`
//! runs the passes.

pub mod convert;
pub mod literal;
pub mod matcher;
pub mod matching;
pub mod table;
pub mod text;

pub use convert::{str_to_html, BBCode};
pub use matcher::Matcher;
pub use table::patterns;

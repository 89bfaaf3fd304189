//! A parser for LRC lyric files: metadata tags (`[key: value]`) and
//! timestamped lyric lines (`[mm:ss.xx]text`).
//!
//! Line matching is done by the `regex` crate; what each of the three fixed
//! patterns matches is stated in `pattern`, and the parser is verified
//! against those statements.

pub mod laws;
pub mod lrcparser;
pub mod pattern;

pub use lrcparser::LRCParser;
pub use lrcparser::ParseWarning;

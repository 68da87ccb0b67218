//! Structured, line-oriented rendering of version-control history.
//!
//! The core is the format-code interpreter: it maps one textual format code
//! to a field of a commit's metadata, serialized as a JSON value, or to a
//! descriptive error for codes that are deliberately rejected. Around it sit
//! the hex and decimal formatting helpers, the reference index that maps a
//! commit identifier to the short names of the references pointing at it,
//! and the record emitter that assembles one JSON line per commit.

pub mod codes;
pub mod commit;
pub mod emit;
pub mod hex;
pub mod interp;
pub mod json;
pub mod laws;
pub mod refindex;
pub mod strutil;
pub mod timefmt;

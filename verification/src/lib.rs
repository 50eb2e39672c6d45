//! Error-reporting layer of a parser-driven code formatter.
//!
//! Every failure the formatter can run into — reading input, detecting a
//! language, parsing, fetching or compiling a grammar, running queries,
//! writing output, checking idempotence — is classified into one closed
//! taxonomy, [`error::TopiaryError`]. The taxonomy carries enough structured
//! context to render a precise diagnostic ([`render`]), to walk the chain of
//! causes ([`source`]), and to let callers branch on the failure category
//! without inspecting message text.

pub mod convert;
pub mod error;
pub mod laws;
pub mod render;
pub mod source;

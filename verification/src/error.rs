//! The closed taxonomy of failures the formatter can report.
//!
//! A failure raised by a lower layer (the standard library, the version
//! control library, the dynamic loader, the grammar engine) is captured at
//! the boundary as one of the cause records below — a plain value holding the
//! description the diagnostic layer reads from it — and is then wrapped in
//! exactly one variant of [`TopiaryError`]. Every value is write-once: it is
//! built where the failure is first detected and never mutated afterwards.

use vstd::prelude::*;

verus! {

/// Description carried by a low-level input/output failure.
#[derive(Debug, PartialEq, Eq)]
pub struct IoCause {
    pub message: String,
}

/// Description carried by a failure to decode borrowed bytes as UTF-8.
#[derive(Debug, PartialEq, Eq)]
pub struct Utf8Cause {
    pub message: String,
}

/// Description carried by a failure to decode an owned buffer as UTF-8.
#[derive(Debug, PartialEq, Eq)]
pub struct FromUtf8Cause {
    pub message: String,
}

/// Description carried by a failure of a string-formatting primitive.
#[derive(Debug, PartialEq, Eq)]
pub struct FmtCause {
    pub message: String,
}

/// Description carried by a failure to flush a buffered writer and
/// recover the buffer it wrapped.
#[derive(Debug, PartialEq, Eq)]
pub struct IntoInnerCause {
    pub message: String,
}

/// Description carried by a failure of the version control library while
/// fetching a grammar repository.
#[derive(Debug, PartialEq, Eq)]
pub struct GitCause {
    pub message: String,
}

/// Description carried by a failure to load a parser as a dynamic library.
#[derive(Debug, PartialEq, Eq)]
pub struct LoadingCause {
    pub message: String,
}

/// Description carried by the grammar engine's rejection of a query file.
#[derive(Debug, PartialEq, Eq)]
pub struct QueryCause {
    pub message: String,
}

/// The category of a query-file rejection, as the grammar engine reports it.
#[derive(Debug, Clone, Copy, PartialEq, Eq)]
pub enum QueryRejectionKind {
    Syntax,
    NodeType,
    Field,
    Capture,
    Predicate,
    Structure,
    Language,
}

/// The grammar engine's rejection of a query file, as plain data: the
/// zero-based row and column and the byte offset of the offending pattern,
/// the engine's message, and the category of the rejection.
#[derive(Debug, PartialEq, Eq)]
pub struct QueryRejection {
    pub row: usize,
    pub column: usize,
    pub offset: usize,
    pub message: String,
    pub kind: QueryRejectionKind,
}

/// The various errors the formatter may return.
#[derive(Debug, PartialEq, Eq)]
pub enum TopiaryError {
    /// The input produced output that cannot be formatted, i.e. trying to
    /// format the output again produced an error. If this happened using the
    /// bundled query files, it is a bug.
    Formatting(Box<TopiaryError>),
    /// The input produced output that isn't idempotent, i.e. formatting the
    /// output again made further changes. If this happened using the bundled
    /// query files, it is a bug.
    Idempotence,
    /// An internal error occurred. This is a bug.
    Internal(String, Option<IoCause>),
    /// The grammar could not parse the input without errors in this span.
    Parsing {
        start_line: usize,
        start_column: usize,
        end_line: usize,
        end_column: usize,
    },
    /// There was an error in the query file. If this happened using the
    /// bundled query files, it is a bug.
    Query(String, Option<QueryCause>),
    /// Could not detect the input language from the filename and its
    /// optional extension.
    LanguageDetection(String, Option<String>),
    /// Could not read the input.
    Reading(ReadingError),
    /// Could not write the formatted output.
    Writing(WritingError),
    /// Any issue that occurred related to fetching a grammar from a
    /// repository.
    Git(GitCause),
    /// There was an error loading the parser's dynamic library.
    ParserLoading(LoadingCause),
    /// Any error related to compiling a parser from native sources.
    ParserCompilation(ParserCompilationError),
}

/// A subtype of `TopiaryError::Reading`.
#[derive(Debug, PartialEq, Eq)]
pub enum ReadingError {
    Io(String, IoCause),
    Utf8(Utf8Cause),
}

/// A subtype of `TopiaryError::Writing`.
#[derive(Debug, PartialEq, Eq)]
pub enum WritingError {
    Fmt(FmtCause),
    IntoInner(IntoInnerCause),
    Io(IoCause),
    FromUtf8(FromUtf8Cause),
}

/// A subtype of `TopiaryError::ParserCompilation`.
#[derive(Debug, PartialEq, Eq)]
pub enum ParserCompilationError {
    Io(IoCause),
    Cc(String, String),
}

impl TopiaryError {
    /// A `Parsing` span is well-formed when its end position is not before
    /// its start position, line-major then column; every other variant is
    /// unconditionally well-formed, down through a `Formatting` wrapper.
    pub open spec fn well_formed(self) -> bool
        decreases self,
    {
        match self {
            TopiaryError::Parsing { start_line, start_column, end_line, end_column } => {
                end_line > start_line || (end_line == start_line && end_column >= start_column)
            },
            TopiaryError::Formatting(inner) => inner.well_formed(),
            _ => true,
        }
    }
}

} // verus!

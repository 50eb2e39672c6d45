//! The conversion layer: total, lossless mappings into the taxonomy.
//!
//! A foreign failure crosses into this layer in two steps. A trusted adapter
//! captures, at the boundary, the description the foreign value carries —
//! the only part of it the diagnostic layer reads — as one of the cause
//! records of [`crate::error`]. A verified conversion then wraps that record
//! in its one taxonomy variant: a bare input/output failure is presumed to
//! occur during output and goes to `Writing::Io` (reads go through
//! [`reading_io_failure`], which demands a context string), a decoding
//! failure on borrowed bytes to `Reading::Utf8`, one on an owned buffer to
//! `Writing::FromUtf8`, a buffer-flush failure to `Writing::IntoInner`, and
//! a string-formatting failure to `Writing::Fmt`.

use crate::error::{
    FmtCause, FromUtf8Cause, GitCause, IntoInnerCause, IoCause, LoadingCause,
    ParserCompilationError, QueryCause, QueryRejection, QueryRejectionKind, ReadingError,
    TopiaryError, Utf8Cause, WritingError,
};
use crate::render::{dec_str, usize_to_string};
use vstd::prelude::*;

verus! {

impl From<IoCause> for TopiaryError {
    /// A bare input/output failure is classified as a writing failure.
    fn from(e: IoCause) -> (r: TopiaryError) {
        TopiaryError::Writing(WritingError::Io(e))
    }
}

impl vstd::std_specs::convert::FromSpecImpl<IoCause> for TopiaryError {
    open spec fn obeys_from_spec() -> bool {
        true
    }

    open spec fn from_spec(e: IoCause) -> TopiaryError {
        TopiaryError::Writing(WritingError::Io(e))
    }
}

impl From<Utf8Cause> for TopiaryError {
    /// A failure to decode borrowed bytes is classified as a reading
    /// failure.
    fn from(e: Utf8Cause) -> (r: TopiaryError) {
        TopiaryError::Reading(ReadingError::Utf8(e))
    }
}

impl vstd::std_specs::convert::FromSpecImpl<Utf8Cause> for TopiaryError {
    open spec fn obeys_from_spec() -> bool {
        true
    }

    open spec fn from_spec(e: Utf8Cause) -> TopiaryError {
        TopiaryError::Reading(ReadingError::Utf8(e))
    }
}

impl From<FromUtf8Cause> for TopiaryError {
    /// A failure to decode an owned buffer is classified as a writing
    /// failure.
    fn from(e: FromUtf8Cause) -> (r: TopiaryError) {
        TopiaryError::Writing(WritingError::FromUtf8(e))
    }
}

impl vstd::std_specs::convert::FromSpecImpl<FromUtf8Cause> for TopiaryError {
    open spec fn obeys_from_spec() -> bool {
        true
    }

    open spec fn from_spec(e: FromUtf8Cause) -> TopiaryError {
        TopiaryError::Writing(WritingError::FromUtf8(e))
    }
}

impl From<IntoInnerCause> for TopiaryError {
    /// A buffer-flush failure is classified as a writing failure.
    fn from(e: IntoInnerCause) -> (r: TopiaryError) {
        TopiaryError::Writing(WritingError::IntoInner(e))
    }
}

impl vstd::std_specs::convert::FromSpecImpl<IntoInnerCause> for TopiaryError {
    open spec fn obeys_from_spec() -> bool {
        true
    }

    open spec fn from_spec(e: IntoInnerCause) -> TopiaryError {
        TopiaryError::Writing(WritingError::IntoInner(e))
    }
}

impl From<FmtCause> for TopiaryError {
    /// A string-formatting failure is classified as a writing failure.
    fn from(e: FmtCause) -> (r: TopiaryError) {
        TopiaryError::Writing(WritingError::Fmt(e))
    }
}

impl vstd::std_specs::convert::FromSpecImpl<FmtCause> for TopiaryError {
    open spec fn obeys_from_spec() -> bool {
        true
    }

    open spec fn from_spec(e: FmtCause) -> TopiaryError {
        TopiaryError::Writing(WritingError::Fmt(e))
    }
}

#[verifier::external_type_specification]
#[verifier::external_body]
pub struct ExIoError(std::io::Error);

#[verifier::external_type_specification]
#[verifier::external_body]
pub struct ExUtf8Error(std::str::Utf8Error);

#[verifier::external_type_specification]
#[verifier::external_body]
pub struct ExFromUtf8Cause(std::string::FromUtf8Error);

#[verifier::external_type_specification]
#[verifier::external_body]
pub struct ExFmtError(std::fmt::Error);

#[verifier::external_type_specification]
#[verifier::external_body]
#[verifier::reject_recursive_types(W)]
pub struct ExIntoInnerError<W>(std::io::IntoInnerError<W>);

#[verifier::external_type_specification]
#[verifier::external_body]
pub struct ExGitError(git2::Error);

#[verifier::external_type_specification]
#[verifier::external_body]
pub struct ExLibloadingError(libloading::Error);

#[verifier::external_type_specification]
#[verifier::external_body]
pub struct ExQueryError(tree_sitter::QueryError);

/// The description std::str::Utf8Error renders: a fixed sentence built from
/// the positions the error stores, a function of the value alone.
pub uninterp spec fn utf8_display_of(e: std::str::Utf8Error) -> Seq<char>;

/// The description std::string::FromUtf8Error renders: it delegates to the
/// decoding error it stores, a function of the value alone.
pub uninterp spec fn from_utf8_display_of(e: std::string::FromUtf8Error) -> Seq<char>;

/// The description git2::Error renders: the message it stores, with its
/// class and code appended when they are set, a function of the value alone.
pub uninterp spec fn git_display_of(e: git2::Error) -> Seq<char>;

/// The description libloading::Error renders: a fixed sentence per variant
/// (the operating system's own message, where one was stored, stays behind
/// the foreign error's deeper cause and is not rendered), a function of the
/// value alone.
pub uninterp spec fn loading_display_of(e: libloading::Error) -> Seq<char>;

/// What tree_sitter::QueryError stores in its public fields: position,
/// offset, message and category of the rejected pattern, a function of the
/// value alone.
pub uninterp spec fn query_fields_of(e: tree_sitter::QueryError) -> QueryRejection;

/// Relies on std::io::Error's Display implementation for the description of
/// the failure it carries. For operating-system errors that text comes from
/// the platform's locale-dependent message table, so no name is given to it.
#[verifier::external_body]
fn io_cause(e: std::io::Error) -> (r: IoCause) {
    IoCause { message: e.to_string() }
}

/// Relies on std::str::Utf8Error's Display implementation for the
/// description of where decoding the borrowed bytes failed.
#[verifier::external_body]
fn utf8_cause(e: std::str::Utf8Error) -> (r: Utf8Cause)
    ensures
        r.message@ == utf8_display_of(e),
{
    Utf8Cause { message: e.to_string() }
}

/// Relies on std::string::FromUtf8Error's Display implementation for the
/// description of where decoding the owned buffer failed.
#[verifier::external_body]
fn from_utf8_cause(e: std::string::FromUtf8Error) -> (r: FromUtf8Cause)
    ensures
        r.message@ == from_utf8_display_of(e),
{
    FromUtf8Cause { message: e.to_string() }
}

/// Relies on std::io::IntoInnerError's Display implementation, which renders
/// the input/output failure that stopped the flush; that text may be
/// locale-dependent, so no name is given to it.
#[verifier::external_body]
fn into_inner_cause<W>(e: std::io::IntoInnerError<W>) -> (r: IntoInnerCause) {
    IntoInnerCause { message: e.to_string() }
}

/// Relies on git2::Error's Display implementation: the message held by the
/// error, with its class and code appended when they are set.
#[verifier::external_body]
fn git_cause(e: git2::Error) -> (r: GitCause)
    ensures
        r.message@ == git_display_of(e),
{
    GitCause { message: e.to_string() }
}

/// Relies on libloading::Error's Display implementation: a fixed sentence
/// naming the loader call that failed.
#[verifier::external_body]
fn loading_cause(e: libloading::Error) -> (r: LoadingCause)
    ensures
        r.message@ == loading_display_of(e),
{
    LoadingCause { message: e.to_string() }
}

/// Relies on tree_sitter::QueryError's public fields alone: the stored
/// position, offset, message and category are moved into the library's
/// model one for one; nothing is computed, so the capture cannot abort.
#[verifier::external_body]
fn query_rejection_of(e: tree_sitter::QueryError) -> (r: QueryRejection)
    ensures
        r == query_fields_of(e),
{
    let kind = match e.kind {
        tree_sitter::QueryErrorKind::Syntax => QueryRejectionKind::Syntax,
        tree_sitter::QueryErrorKind::NodeType => QueryRejectionKind::NodeType,
        tree_sitter::QueryErrorKind::Field => QueryRejectionKind::Field,
        tree_sitter::QueryErrorKind::Capture => QueryRejectionKind::Capture,
        tree_sitter::QueryErrorKind::Predicate => QueryRejectionKind::Predicate,
        tree_sitter::QueryErrorKind::Structure => QueryRejectionKind::Structure,
        tree_sitter::QueryErrorKind::Language => QueryRejectionKind::Language,
    };
    QueryRejection { row: e.row, column: e.column, offset: e.offset, message: e.message, kind }
}

/// The fixed phrase the grammar engine puts before each category of
/// rejection; a language-level rejection carries no phrase.
pub open spec fn query_kind_phrase(k: QueryRejectionKind) -> Seq<char> {
    match k {
        QueryRejectionKind::Field => "Invalid field name "@,
        QueryRejectionKind::NodeType => "Invalid node type "@,
        QueryRejectionKind::Capture => "Invalid capture name "@,
        QueryRejectionKind::Predicate => "Invalid predicate: "@,
        QueryRejectionKind::Structure => "Impossible pattern:\n"@,
        QueryRejectionKind::Syntax => "Invalid syntax:\n"@,
        QueryRejectionKind::Language => ""@,
    }
}

/// The fixed phrase for a rejection category, as an executable string.
fn query_kind_str(k: QueryRejectionKind) -> (s: &'static str)
    ensures
        s@ == query_kind_phrase(k),
{
    match k {
        QueryRejectionKind::Field => "Invalid field name ",
        QueryRejectionKind::NodeType => "Invalid node type ",
        QueryRejectionKind::Capture => "Invalid capture name ",
        QueryRejectionKind::Predicate => "Invalid predicate: ",
        QueryRejectionKind::Structure => "Impossible pattern:\n",
        QueryRejectionKind::Syntax => "Invalid syntax:\n",
        QueryRejectionKind::Language => "",
    }
}

/// The description the grammar engine renders for a rejection: its one-based
/// position, the category phrase and the message; a language-level rejection
/// renders its message alone.
pub open spec fn query_rejection_description(r: QueryRejection) -> Seq<char> {
    if r.kind is Language {
        r.message@
    } else {
        "Query error at "@ + dec_str((r.row + 1) as nat) + ":"@ + dec_str((r.column + 1) as nat)
            + ". "@ + query_kind_phrase(r.kind) + r.message@
    }
}

/// Renders the description of a query rejection, exactly as
/// [`query_rejection_description`] states it. The stored row and column must
/// leave room for their one-based rendering.
pub fn describe_query_rejection(r: &QueryRejection) -> (s: String)
    requires
        r.row < usize::MAX,
        r.column < usize::MAX,
    ensures
        s@ == query_rejection_description(*r),
{
    match r.kind {
        QueryRejectionKind::Language => r.message.clone(),
        _ => {
            let mut s = String::from_str("Query error at ");
            let part = usize_to_string(r.row + 1);
            s.append(part.as_str());
            s.append(":");
            let part = usize_to_string(r.column + 1);
            s.append(part.as_str());
            s.append(". ");
            s.append(query_kind_str(r.kind));
            s.append(r.message.as_str());
            proof {
                assert(s@ =~= query_rejection_description(*r));
            }
            s
        },
    }
}

/// Classifies a bare input/output failure: always a writing failure, never
/// any other variant. Reads are expected to go through
/// [`reading_io_failure`] with a context string instead.
pub fn from_io_failure(e: std::io::Error) -> (r: TopiaryError)
    ensures
        r matches TopiaryError::Writing(WritingError::Io(_)),
{
    TopiaryError::from(io_cause(e))
}

/// Classifies a failure to decode borrowed bytes: always `Reading::Utf8`,
/// never any other variant, carrying the failure's own description.
pub fn from_utf8_failure(e: std::str::Utf8Error) -> (r: TopiaryError)
    ensures
        r matches TopiaryError::Reading(ReadingError::Utf8(c)) && c.message@ == utf8_display_of(e),
{
    TopiaryError::from(utf8_cause(e))
}

/// Classifies a failure to decode an owned buffer: always
/// `Writing::FromUtf8`, never any other variant, carrying the failure's own
/// description.
pub fn from_string_utf8_failure(e: std::string::FromUtf8Error) -> (r: TopiaryError)
    ensures
        r matches TopiaryError::Writing(WritingError::FromUtf8(c)) && c.message@
            == from_utf8_display_of(e),
{
    TopiaryError::from(from_utf8_cause(e))
}

/// Classifies a buffer-flush failure: always `Writing::IntoInner`, never any
/// other variant.
pub fn from_flush_failure<W>(e: std::io::IntoInnerError<W>) -> (r: TopiaryError)
    ensures
        r matches TopiaryError::Writing(WritingError::IntoInner(_)),
{
    TopiaryError::from(into_inner_cause(e))
}

/// Classifies a string-formatting failure: always `Writing::Fmt`, never any
/// other variant. std documents that failure's rendering as exactly this
/// fixed sentence, so the cause record is built here and the whole
/// conversion is verified.
pub fn from_fmt_failure(_e: std::fmt::Error) -> (r: TopiaryError)
    ensures
        r matches TopiaryError::Writing(WritingError::Fmt(cause)) && cause.message@
            == "an error occurred when formatting an argument"@,
{
    let message = String::from_str("an error occurred when formatting an argument");
    TopiaryError::from(FmtCause { message })
}

/// Builds the reading failure for an input that could not be read: the
/// context string supplied by the call site becomes the rendered message,
/// and the input/output failure is kept as the cause.
pub fn reading_io_failure(context: String, e: std::io::Error) -> (r: TopiaryError)
    ensures
        r matches TopiaryError::Reading(ReadingError::Io(m, _)) && m@ == context@,
{
    TopiaryError::Reading(ReadingError::Io(context, io_cause(e)))
}

/// Classifies a repository-fetch failure: always `Git`, never any other
/// variant, carrying the failure's own description.
pub fn from_git_failure(e: git2::Error) -> (r: TopiaryError)
    ensures
        r matches TopiaryError::Git(c) && c.message@ == git_display_of(e),
{
    TopiaryError::Git(git_cause(e))
}

/// Classifies a dynamic-library-loading failure: always `ParserLoading`,
/// never any other variant, carrying the failure's own description.
pub fn from_loading_failure(e: libloading::Error) -> (r: TopiaryError)
    ensures
        r matches TopiaryError::ParserLoading(c) && c.message@ == loading_display_of(e),
{
    TopiaryError::ParserLoading(loading_cause(e))
}

/// Builds the query failure for a rejected query file: the message supplied
/// by the call site is rendered, and the grammar engine's rejection is kept
/// as the cause, described exactly as the engine renders it. In the absurd
/// case where a stored position leaves no room for its one-based rendering,
/// the stored message alone is kept as the description.
pub fn from_query_failure(message: String, e: tree_sitter::QueryError) -> (r: TopiaryError)
    ensures
        ({
            let rej = query_fields_of(e);
            if rej.row < usize::MAX && rej.column < usize::MAX {
                r matches TopiaryError::Query(m, Some(c)) && m@ == message@ && c.message@
                    == query_rejection_description(rej)
            } else {
                r matches TopiaryError::Query(m, Some(c)) && m@ == message@ && c.message@
                    == rej.message@
            }
        }),
{
    let rej = query_rejection_of(e);
    if rej.row < usize::MAX && rej.column < usize::MAX {
        let description = describe_query_rejection(&rej);
        TopiaryError::Query(message, Some(QueryCause { message: description }))
    } else {
        TopiaryError::Query(message, Some(QueryCause { message: rej.message }))
    }
}

/// Wraps a captured input/output cause in the compilation sub-taxonomy:
/// the exact model-level step behind [`compilation_io_failure`].
pub fn from_compilation_io_cause(cause: IoCause) -> (r: TopiaryError)
    ensures
        r == TopiaryError::ParserCompilation(ParserCompilationError::Io(cause)),
{
    TopiaryError::ParserCompilation(ParserCompilationError::Io(cause))
}

/// Classifies an input/output failure met while compiling a parser: always
/// `ParserCompilation` over its input/output sub-variant.
pub fn compilation_io_failure(e: std::io::Error) -> (r: TopiaryError)
    ensures
        r matches TopiaryError::ParserCompilation(ParserCompilationError::Io(_)),
{
    from_compilation_io_cause(io_cause(e))
}

} // verus!

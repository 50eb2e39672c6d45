//! Exposure of the causal predecessor of an error, one level at a time.
//!
//! A variant exposes its wrapped value as a cause exactly when that value
//! carries diagnostic information beyond the top-line message: `Idempotence`,
//! `Parsing` and `LanguageDetection` expose none; `Internal` and `Query`
//! expose their wrapped failure only when present; `Reading`, `Writing`,
//! `Formatting`, `Git`, `ParserLoading` and `ParserCompilation` over an
//! input/output failure always expose theirs. A caller walks the whole chain
//! by asking each exposed `Formatting` cause for its own cause in turn.

use crate::error::{
    FmtCause, FromUtf8Cause, GitCause, IntoInnerCause, IoCause, LoadingCause,
    ParserCompilationError, QueryCause, ReadingError, TopiaryError, Utf8Cause, WritingError,
};
use crate::render::message_of;
use vstd::prelude::*;

verus! {

/// A borrowed view of the value a taxonomy variant wraps: either a nested
/// taxonomy value (under `Formatting`) or one of the captured low-level
/// cause records.
#[derive(Debug, PartialEq, Eq)]
pub enum ErrorSource<'a> {
    Topiary(&'a TopiaryError),
    Io(&'a IoCause),
    Utf8(&'a Utf8Cause),
    FromUtf8(&'a FromUtf8Cause),
    Fmt(&'a FmtCause),
    IntoInner(&'a IntoInnerCause),
    Git(&'a GitCause),
    Loading(&'a LoadingCause),
    Query(&'a QueryCause),
}

/// The cause each variant exposes: the single specification the accessor is
/// held to.
pub open spec fn source_of<'a>(e: &'a TopiaryError) -> Option<ErrorSource<'a>> {
    match e {
        TopiaryError::Formatting(inner) => Some(ErrorSource::Topiary(inner)),
        TopiaryError::Idempotence => None,
        TopiaryError::Internal(_, cause) => match cause {
            Some(c) => Some(ErrorSource::Io(c)),
            None => None,
        },
        TopiaryError::Parsing { .. } => None,
        TopiaryError::Query(_, cause) => match cause {
            Some(c) => Some(ErrorSource::Query(c)),
            None => None,
        },
        TopiaryError::LanguageDetection(_, _) => None,
        TopiaryError::Reading(ReadingError::Io(_, cause)) => Some(ErrorSource::Io(cause)),
        TopiaryError::Reading(ReadingError::Utf8(cause)) => Some(ErrorSource::Utf8(cause)),
        TopiaryError::Writing(WritingError::Fmt(cause)) => Some(ErrorSource::Fmt(cause)),
        TopiaryError::Writing(WritingError::IntoInner(cause)) => Some(
            ErrorSource::IntoInner(cause),
        ),
        TopiaryError::Writing(WritingError::Io(cause)) => Some(ErrorSource::Io(cause)),
        TopiaryError::Writing(WritingError::FromUtf8(cause)) => Some(
            ErrorSource::FromUtf8(cause),
        ),
        TopiaryError::Git(cause) => Some(ErrorSource::Git(cause)),
        TopiaryError::ParserLoading(cause) => Some(ErrorSource::Loading(cause)),
        TopiaryError::ParserCompilation(ParserCompilationError::Io(cause)) => Some(
            ErrorSource::Io(cause),
        ),
        TopiaryError::ParserCompilation(ParserCompilationError::Cc(_, _)) => None,
    }
}

impl TopiaryError {
    /// The immediate cause of this error, if the variant exposes one,
    /// exactly as [`source_of`] describes; the wrapped value is handed out
    /// by reference, unchanged.
    pub fn source<'a>(&'a self) -> (r: Option<ErrorSource<'a>>)
        ensures
            r == source_of(self),
    {
        match self {
            TopiaryError::Formatting(inner) => Some(ErrorSource::Topiary(inner)),
            TopiaryError::Idempotence => None,
            TopiaryError::Internal(_, cause) => match cause {
                Some(c) => Some(ErrorSource::Io(c)),
                None => None,
            },
            TopiaryError::Parsing { .. } => None,
            TopiaryError::Query(_, cause) => match cause {
                Some(c) => Some(ErrorSource::Query(c)),
                None => None,
            },
            TopiaryError::LanguageDetection(_, _) => None,
            TopiaryError::Reading(ReadingError::Io(_, cause)) => Some(ErrorSource::Io(cause)),
            TopiaryError::Reading(ReadingError::Utf8(cause)) => Some(ErrorSource::Utf8(cause)),
            TopiaryError::Writing(WritingError::Fmt(cause)) => Some(ErrorSource::Fmt(cause)),
            TopiaryError::Writing(WritingError::IntoInner(cause)) => Some(
                ErrorSource::IntoInner(cause),
            ),
            TopiaryError::Writing(WritingError::Io(cause)) => Some(ErrorSource::Io(cause)),
            TopiaryError::Writing(WritingError::FromUtf8(cause)) => Some(
                ErrorSource::FromUtf8(cause),
            ),
            TopiaryError::Git(cause) => Some(ErrorSource::Git(cause)),
            TopiaryError::ParserLoading(cause) => Some(ErrorSource::Loading(cause)),
            TopiaryError::ParserCompilation(ParserCompilationError::Io(cause)) => Some(
                ErrorSource::Io(cause),
            ),
            TopiaryError::ParserCompilation(ParserCompilationError::Cc(_, _)) => None,
        }
    }
}

/// The full verbose report of an error: its own message, then the message of
/// each level of its cause chain, outermost first. A `Formatting` wrapper
/// contributes the whole chain of the error it wraps; a captured low-level
/// cause contributes the description it carries; a variant that exposes no
/// cause contributes its own message alone.
pub open spec fn chain_messages_of(e: TopiaryError) -> Seq<Seq<char>>
    decreases e,
{
    match e {
        TopiaryError::Formatting(inner) => seq![message_of(e)] + chain_messages_of(*inner),
        TopiaryError::Internal(_, Some(c)) => seq![message_of(e), c.message@],
        TopiaryError::Query(_, Some(c)) => seq![message_of(e), c.message@],
        TopiaryError::Reading(ReadingError::Io(_, c)) => seq![message_of(e), c.message@],
        TopiaryError::Reading(ReadingError::Utf8(c)) => seq![message_of(e), c.message@],
        TopiaryError::Writing(WritingError::Fmt(c)) => seq![message_of(e), c.message@],
        TopiaryError::Writing(WritingError::IntoInner(c)) => seq![message_of(e), c.message@],
        TopiaryError::Writing(WritingError::Io(c)) => seq![message_of(e), c.message@],
        TopiaryError::Writing(WritingError::FromUtf8(c)) => seq![message_of(e), c.message@],
        TopiaryError::Git(c) => seq![message_of(e), c.message@],
        TopiaryError::ParserLoading(c) => seq![message_of(e), c.message@],
        TopiaryError::ParserCompilation(ParserCompilationError::Io(c)) => seq![
            message_of(e),
            c.message@,
        ],
        _ => seq![message_of(e)],
    }
}

impl TopiaryError {
    /// Renders this error and every level of its cause chain, outermost
    /// first, exactly as [`chain_messages_of`] describes.
    pub fn chain_messages(&self) -> (r: Vec<String>)
        ensures
            r.deep_view() == chain_messages_of(*self),
        decreases *self,
    {
        let top = self.message();
        let mut v: Vec<String> = Vec::new();
        v.push(top);
        match self {
            TopiaryError::Formatting(inner) => {
                let mut rest = inner.chain_messages();
                v.append(&mut rest);
            },
            TopiaryError::Internal(_, Some(c)) => v.push(c.message.clone()),
            TopiaryError::Query(_, Some(c)) => v.push(c.message.clone()),
            TopiaryError::Reading(ReadingError::Io(_, c)) => v.push(c.message.clone()),
            TopiaryError::Reading(ReadingError::Utf8(c)) => v.push(c.message.clone()),
            TopiaryError::Writing(WritingError::Fmt(c)) => v.push(c.message.clone()),
            TopiaryError::Writing(WritingError::IntoInner(c)) => v.push(c.message.clone()),
            TopiaryError::Writing(WritingError::Io(c)) => v.push(c.message.clone()),
            TopiaryError::Writing(WritingError::FromUtf8(c)) => v.push(c.message.clone()),
            TopiaryError::Git(c) => v.push(c.message.clone()),
            TopiaryError::ParserLoading(c) => v.push(c.message.clone()),
            TopiaryError::ParserCompilation(ParserCompilationError::Io(c)) => v.push(
                c.message.clone(),
            ),
            _ => {},
        }
        proof {
            assert(v.deep_view() =~= chain_messages_of(*self));
        }
        v
    }
}

} // verus!

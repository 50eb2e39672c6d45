//! The laws this layer is held to, stated over the specifications that the
//! renderer, the conversion layer and the cause accessor are proved against.

use crate::error::{ParserCompilationError, ReadingError, TopiaryError, Utf8Cause, WritingError};
use crate::render::{compilation_cc_message, compilation_cc_prefix, message_of};
use crate::source::{source_of, ErrorSource};
use vstd::prelude::*;

verus! {

/// Law: rendering is deterministic — the message is a function of the error
/// value alone, so equal values always render the same string — and total:
/// [`message_of`] is defined for every variant and payload, and the renderer
/// carries no precondition.
pub proof fn lemma_message_deterministic(a: &TopiaryError, b: &TopiaryError)
    requires
        a == b,
    ensures
        message_of(*a) == message_of(*b),
{
}

/// Law: converting a decoding failure yields `Reading::Utf8` — never any
/// other variant — and keeps the failure as payload.
pub proof fn lemma_decoding_failure_conversion(e: Utf8Cause)
    ensures
        <TopiaryError as vstd::std_specs::convert::FromSpec<Utf8Cause>>::from_spec(e)
            == TopiaryError::Reading(ReadingError::Utf8(e)),
{
}

/// Law: converting a buffer-flush failure yields `Writing::IntoInner` —
/// never any other variant — and keeps the failure as payload.
pub proof fn lemma_flush_failure_conversion(e: crate::error::IntoInnerCause)
    ensures
        <TopiaryError as vstd::std_specs::convert::FromSpec<
            crate::error::IntoInnerCause,
        >>::from_spec(e) == TopiaryError::Writing(WritingError::IntoInner(e)),
{
}

/// Law: a variant that wraps a cause exposes that cause identical in content
/// to the value it was built with — nothing is lost or altered between
/// wrapping and unwrapping.
pub proof fn lemma_wrapped_cause_preserved(e: &TopiaryError)
    ensures
        e matches TopiaryError::Formatting(inner) ==> source_of(e) == Some(
            ErrorSource::Topiary(inner),
        ),
        e matches TopiaryError::Internal(_, Some(c)) ==> source_of(e) == Some(ErrorSource::Io(c)),
        e matches TopiaryError::Query(_, Some(c)) ==> source_of(e) == Some(ErrorSource::Query(c)),
        e matches TopiaryError::Reading(ReadingError::Io(_, c)) ==> source_of(e) == Some(
            ErrorSource::Io(c),
        ),
        e matches TopiaryError::Reading(ReadingError::Utf8(c)) ==> source_of(e) == Some(
            ErrorSource::Utf8(c),
        ),
        e matches TopiaryError::Writing(WritingError::Fmt(c)) ==> source_of(e) == Some(
            ErrorSource::Fmt(c),
        ),
        e matches TopiaryError::Writing(WritingError::IntoInner(c)) ==> source_of(e) == Some(
            ErrorSource::IntoInner(c),
        ),
        e matches TopiaryError::Writing(WritingError::Io(c)) ==> source_of(e) == Some(
            ErrorSource::Io(c),
        ),
        e matches TopiaryError::Writing(WritingError::FromUtf8(c)) ==> source_of(e) == Some(
            ErrorSource::FromUtf8(c),
        ),
        e matches TopiaryError::Git(c) ==> source_of(e) == Some(ErrorSource::Git(c)),
        e matches TopiaryError::ParserLoading(c) ==> source_of(e) == Some(ErrorSource::Loading(c)),
        e matches TopiaryError::ParserCompilation(ParserCompilationError::Io(c)) ==> source_of(e)
            == Some(ErrorSource::Io(c)),
{
}

/// Law: wrapping a `Formatting` error around another error preserves the
/// inner value — walking the cause chain one level from the outer value
/// yields exactly the error that was wrapped.
pub proof fn lemma_formatting_wrap_preserves_inner(e: &TopiaryError)
    ensures
        e matches TopiaryError::Formatting(inner) ==> source_of(e) == Some(
            ErrorSource::Topiary(inner),
        ),
{
}

/// Law: the rendered message of a compiler subprocess failure contains the
/// captured stdout and stderr verbatim, the stdout strictly before the
/// stderr.
pub proof fn lemma_cc_output_verbatim(out: Seq<char>, err: Seq<char>)
    ensures
        compilation_cc_message(out, err).subrange(
            compilation_cc_prefix().len() as int,
            (compilation_cc_prefix().len() + out.len()) as int,
        ) == out,
        compilation_cc_message(out, err).subrange(
            (compilation_cc_prefix().len() + out.len() + 1) as int,
            (compilation_cc_prefix().len() + out.len() + 1 + err.len()) as int,
        ) == err,
        compilation_cc_message(out, err).len() == compilation_cc_prefix().len() + out.len() + 1
            + err.len(),
{
    reveal_strlit(" ");
    let m = compilation_cc_message(out, err);
    let p = compilation_cc_prefix().len() as int;
    assert(m.subrange(p, p + out.len()) =~= out);
    assert(m.subrange(p + out.len() + 1, p + out.len() + 1 + err.len()) =~= err);
}

} // verus!


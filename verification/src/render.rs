//! The diagnostic renderer: one human-readable message per taxonomy variant.
//!
//! [`message_of`] is the specification of the exact message text for every
//! variant; [`TopiaryError::message`] produces it. Rendering is total — it
//! has no precondition — and deterministic, since the result is pinned to a
//! function of the error value alone.

use crate::error::{ParserCompilationError, ReadingError, TopiaryError};
use vstd::prelude::*;

verus! {

/// The decimal digit character for a value below ten.
pub open spec fn digit_char(d: nat) -> char {
    if d == 0 {
        '0'
    } else if d == 1 {
        '1'
    } else if d == 2 {
        '2'
    } else if d == 3 {
        '3'
    } else if d == 4 {
        '4'
    } else if d == 5 {
        '5'
    } else if d == 6 {
        '6'
    } else if d == 7 {
        '7'
    } else if d == 8 {
        '8'
    } else {
        '9'
    }
}

/// The usual decimal rendering of a natural number, without sign or
/// leading zeroes (a single zero for zero itself).
pub open spec fn dec_str(n: nat) -> Seq<char>
    decreases n,
{
    if n < 10 {
        seq![digit_char(n)]
    } else {
        dec_str(n / 10) + seq![digit_char(n % 10)]
    }
}

/// The one-character string for a decimal digit.
fn digit_str(d: usize) -> (r: &'static str)
    requires
        d < 10,
    ensures
        r@ == dec_str(d as nat),
{
    let r: &'static str = if d == 0 {
        "0"
    } else if d == 1 {
        "1"
    } else if d == 2 {
        "2"
    } else if d == 3 {
        "3"
    } else if d == 4 {
        "4"
    } else if d == 5 {
        "5"
    } else if d == 6 {
        "6"
    } else if d == 7 {
        "7"
    } else if d == 8 {
        "8"
    } else {
        "9"
    };
    proof {
        reveal_strlit("0");
        reveal_strlit("1");
        reveal_strlit("2");
        reveal_strlit("3");
        reveal_strlit("4");
        reveal_strlit("5");
        reveal_strlit("6");
        reveal_strlit("7");
        reveal_strlit("8");
        reveal_strlit("9");
        assert(r@ =~= dec_str(d as nat));
    }
    r
}

/// Renders a machine word in decimal, exactly as [`dec_str`] describes.
pub fn usize_to_string(n: usize) -> (r: String)
    ensures
        r@ == dec_str(n as nat),
    decreases n,
{
    if n < 10 {
        String::from_str(digit_str(n))
    } else {
        proof {
            assert(n / 10 < n) by (nonlinear_arith)
                requires
                    n >= 10,
            ;
        }
        let mut r = usize_to_string(n / 10);
        r.append(digit_str(n % 10));
        r
    }
}

/// The closing line shared by the messages that report a likely bug in the
/// formatter's bundled definitions.
pub open spec fn please_log_message() -> Seq<char> {
    "It would be helpful if you logged this error at https://github.com/tweag/topiary/issues/new?assignees=&labels=type%3A+bug&template=bug_report.md"@
}

/// The fixed message of `TopiaryError::Idempotence`.
pub open spec fn idempotence_message() -> Seq<char> {
    "The formatter did not produce the same result when invoked twice (idempotence check).\n"@
        + please_log_message()
}

/// The fixed message of `TopiaryError::Formatting`; the wrapped cause is
/// kept for chain inspection but takes no part in the message.
pub open spec fn formatting_message() -> Seq<char> {
    "The formatter errored when trying to format the code twice (idempotence check).\nThis probably means that the formatter produced invalid code.\n"@
        + please_log_message()
}

/// The message of `TopiaryError::Parsing`, naming the span that could not be
/// parsed.
pub open spec fn parsing_message(
    start_line: nat,
    start_column: nat,
    end_line: nat,
    end_column: nat,
) -> Seq<char> {
    "Parsing error between line "@ + dec_str(start_line) + ", column "@ + dec_str(start_column)
        + " and line "@ + dec_str(end_line) + ", column "@ + dec_str(end_column)
}

/// How `TopiaryError::LanguageDetection` names its input: standard input is
/// spelled out, any other filename is quoted.
pub open spec fn detection_source_phrase(filename: Seq<char>) -> Seq<char> {
    if filename == "-"@ {
        "from standard input"@
    } else {
        "of file '"@ + filename + "'"@
    }
}

/// The message of `TopiaryError::LanguageDetection`: it names the unknown
/// extension when one was parsed, and omits that clause when the filename
/// has none.
pub open spec fn language_detection_message(
    filename: Seq<char>,
    extension: Option<Seq<char>>,
) -> Seq<char> {
    match extension {
        Some(ext) => "Cannot detect language "@ + detection_source_phrase(filename)
            + " due to unknown extension '."@ + ext + "'. Try specifying language explicitly."@,
        None => "Cannot detect language "@ + detection_source_phrase(filename)
            + ". Try specifying language explicitly."@,
    }
}

/// The message of `TopiaryError::Git`, carrying the fetch failure's own
/// description verbatim.
pub open spec fn git_message(cause: Seq<char>) -> Seq<char> {
    "The formatter errored when trying to fetch a grammar from git. See the following message: "@
        + cause
}

/// The message of `TopiaryError::ParserLoading`, carrying the loader
/// failure's own description verbatim.
pub open spec fn parser_loading_message(cause: Seq<char>) -> Seq<char> {
    "The formatter errored when trying load the parser dynamic library: "@ + cause
}

/// The message of `TopiaryError::ParserCompilation` over an input/output
/// failure.
pub open spec fn compilation_io_message(cause: Seq<char>) -> Seq<char> {
    "The formatter ran into an IO error when compiling a Parser: "@ + cause
}

/// The fixed opening of the message of `TopiaryError::ParserCompilation`
/// over a compiler subprocess failure.
pub open spec fn compilation_cc_prefix() -> Seq<char> {
    "The formatter ran into an error when compiling a Parser. Output from the CC subprocess: "@
}

/// The message of `TopiaryError::ParserCompilation` over a compiler
/// subprocess failure: the captured stdout, then a space, then the captured
/// stderr, both verbatim.
pub open spec fn compilation_cc_message(out: Seq<char>, err: Seq<char>) -> Seq<char> {
    compilation_cc_prefix() + out + " "@ + err
}

/// The rendered message of every taxonomy value: the single specification
/// the renderer is held to.
pub open spec fn message_of(e: TopiaryError) -> Seq<char> {
    match e {
        TopiaryError::Formatting(_) => formatting_message(),
        TopiaryError::Idempotence => idempotence_message(),
        TopiaryError::Internal(message, _) => message@,
        TopiaryError::Parsing { start_line, start_column, end_line, end_column } => parsing_message(
            start_line as nat,
            start_column as nat,
            end_line as nat,
            end_column as nat,
        ),
        TopiaryError::Query(message, _) => message@,
        TopiaryError::LanguageDetection(filename, extension) => language_detection_message(
            filename@,
            match extension {
                Some(ext) => Some(ext@),
                None => None,
            },
        ),
        TopiaryError::Reading(ReadingError::Io(message, _)) => message@,
        TopiaryError::Reading(ReadingError::Utf8(_)) => "Input is not UTF8"@,
        TopiaryError::Writing(_) => "Writing error"@,
        TopiaryError::Git(cause) => git_message(cause.message@),
        TopiaryError::ParserLoading(cause) => parser_loading_message(cause.message@),
        TopiaryError::ParserCompilation(ParserCompilationError::Io(cause)) => compilation_io_message(
            cause.message@,
        ),
        TopiaryError::ParserCompilation(ParserCompilationError::Cc(out, err)) => compilation_cc_message(
            out@,
            err@,
        ),
    }
}

/// The shared closing line, as an executable string.
fn please_log() -> (r: &'static str)
    ensures
        r@ == please_log_message(),
{
    "It would be helpful if you logged this error at https://github.com/tweag/topiary/issues/new?assignees=&labels=type%3A+bug&template=bug_report.md"
}

impl TopiaryError {
    /// Renders the one-line-or-more human-readable diagnostic for this
    /// error, exactly as [`message_of`] describes. Total: every variant,
    /// whatever its payload, renders without failure.
    pub fn message(&self) -> (r: String)
        ensures
            r@ == message_of(*self),
    {
        match self {
            TopiaryError::Formatting(_) => {
                let mut m = String::from_str(
                    "The formatter errored when trying to format the code twice (idempotence check).\nThis probably means that the formatter produced invalid code.\n",
                );
                m.append(please_log());
                m
            },
            TopiaryError::Idempotence => {
                let mut m = String::from_str(
                    "The formatter did not produce the same result when invoked twice (idempotence check).\n",
                );
                m.append(please_log());
                m
            },
            TopiaryError::Internal(message, _) => message.clone(),
            TopiaryError::Parsing { start_line, start_column, end_line, end_column } => {
                let mut m = String::from_str("Parsing error between line ");
                let part = usize_to_string(*start_line);
                m.append(part.as_str());
                m.append(", column ");
                let part = usize_to_string(*start_column);
                m.append(part.as_str());
                m.append(" and line ");
                let part = usize_to_string(*end_line);
                m.append(part.as_str());
                m.append(", column ");
                let part = usize_to_string(*end_column);
                m.append(part.as_str());
                proof {
                    assert(m@ =~= message_of(*self));
                }
                m
            },
            TopiaryError::Query(message, _) => message.clone(),
            TopiaryError::LanguageDetection(filename, extension) => {
                let dash = String::from_str("-");
                let mut m = String::from_str("Cannot detect language ");
                if *filename == dash {
                    m.append("from standard input");
                } else {
                    m.append("of file '");
                    m.append(filename.as_str());
                    m.append("'");
                }
                match extension {
                    Some(ext) => {
                        m.append(" due to unknown extension '.");
                        m.append(ext.as_str());
                        m.append("'. Try specifying language explicitly.");
                    },
                    None => {
                        m.append(". Try specifying language explicitly.");
                    },
                }
                proof {
                    assert(m@ =~= message_of(*self));
                }
                m
            },
            TopiaryError::Reading(ReadingError::Io(message, _)) => message.clone(),
            TopiaryError::Reading(ReadingError::Utf8(_)) => String::from_str("Input is not UTF8"),
            TopiaryError::Writing(_) => String::from_str("Writing error"),
            TopiaryError::Git(cause) => {
                let mut m = String::from_str(
                    "The formatter errored when trying to fetch a grammar from git. See the following message: ",
                );
                m.append(cause.message.as_str());
                m
            },
            TopiaryError::ParserLoading(cause) => {
                let mut m = String::from_str(
                    "The formatter errored when trying load the parser dynamic library: ",
                );
                m.append(cause.message.as_str());
                m
            },
            TopiaryError::ParserCompilation(ParserCompilationError::Io(cause)) => {
                let mut m = String::from_str(
                    "The formatter ran into an IO error when compiling a Parser: ",
                );
                m.append(cause.message.as_str());
                m
            },
            TopiaryError::ParserCompilation(ParserCompilationError::Cc(out, err)) => {
                let mut m = String::from_str(
                    "The formatter ran into an error when compiling a Parser. Output from the CC subprocess: ",
                );
                m.append(out.as_str());
                m.append(" ");
                m.append(err.as_str());
                proof {
                    assert(m@ =~= message_of(*self));
                }
                m
            },
        }
    }
}

} // verus!

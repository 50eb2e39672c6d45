use topiary_error::error::{
    FmtCause, FromUtf8Cause, GitCause, IntoInnerCause, IoCause, LoadingCause,
    ParserCompilationError, QueryCause, ReadingError, TopiaryError, Utf8Cause, WritingError,
};

const PLEASE_LOG: &str = "It would be helpful if you logged this error at https://github.com/tweag/topiary/issues/new?assignees=&labels=type%3A+bug&template=bug_report.md";

#[test]
fn parsing_message_exact() {
    let e = TopiaryError::Parsing { start_line: 1, start_column: 1, end_line: 1, end_column: 5 };
    assert_eq!(
        e.message(),
        "Parsing error between line 1, column 1 and line 1, column 5"
    );
}

#[test]
fn parsing_message_multi_digit_positions() {
    let e = TopiaryError::Parsing {
        start_line: 0,
        start_column: 123,
        end_line: 10,
        end_column: 99905,
    };
    assert_eq!(
        e.message(),
        "Parsing error between line 0, column 123 and line 10, column 99905"
    );
}

#[test]
fn parsing_message_largest_positions() {
    let e = TopiaryError::Parsing {
        start_line: usize::MAX,
        start_column: 0,
        end_line: usize::MAX,
        end_column: 0,
    };
    assert_eq!(
        e.message(),
        format!(
            "Parsing error between line {}, column 0 and line {}, column 0",
            usize::MAX,
            usize::MAX
        )
    );
}

#[test]
fn language_detection_stdin_no_extension() {
    let e = TopiaryError::LanguageDetection("-".to_string(), None);
    assert_eq!(
        e.message(),
        "Cannot detect language from standard input. Try specifying language explicitly."
    );
}

#[test]
fn language_detection_file_with_extension() {
    let e = TopiaryError::LanguageDetection("foo.xyz".to_string(), Some("xyz".to_string()));
    assert_eq!(
        e.message(),
        "Cannot detect language of file 'foo.xyz' due to unknown extension '.xyz'. Try specifying language explicitly."
    );
}

#[test]
fn language_detection_stdin_with_extension() {
    let e = TopiaryError::LanguageDetection("-".to_string(), Some("rs".to_string()));
    assert_eq!(
        e.message(),
        "Cannot detect language from standard input due to unknown extension '.rs'. Try specifying language explicitly."
    );
}

#[test]
fn language_detection_file_no_extension() {
    let e = TopiaryError::LanguageDetection("Makefile".to_string(), None);
    assert_eq!(
        e.message(),
        "Cannot detect language of file 'Makefile'. Try specifying language explicitly."
    );
}

#[test]
fn idempotence_message_exact() {
    let e = TopiaryError::Idempotence;
    assert_eq!(
        e.message(),
        format!(
            "The formatter did not produce the same result when invoked twice (idempotence check).\n{PLEASE_LOG}"
        )
    );
}

#[test]
fn formatting_message_fixed_and_ignores_inner() {
    let expected = format!(
        "The formatter errored when trying to format the code twice (idempotence check).\nThis probably means that the formatter produced invalid code.\n{PLEASE_LOG}"
    );
    let e = TopiaryError::Formatting(Box::new(TopiaryError::Idempotence));
    assert_eq!(e.message(), expected);
    let other = TopiaryError::Formatting(Box::new(TopiaryError::Git(GitCause {
        message: "unreachable host".to_string(),
    })));
    assert_eq!(other.message(), expected);
}

#[test]
fn internal_message_verbatim() {
    let e = TopiaryError::Internal("broken invariant".to_string(), None);
    assert_eq!(e.message(), "broken invariant");
    let with_cause = TopiaryError::Internal(
        "broken invariant".to_string(),
        Some(IoCause { message: "disk full".to_string() }),
    );
    assert_eq!(with_cause.message(), "broken invariant");
}

#[test]
fn query_message_verbatim() {
    let e = TopiaryError::Query("bad pattern".to_string(), None);
    assert_eq!(e.message(), "bad pattern");
    let with_cause = TopiaryError::Query(
        "bad pattern".to_string(),
        Some(QueryCause { message: "Query error at 1:5. Invalid syntax:\n".to_string() }),
    );
    assert_eq!(with_cause.message(), "bad pattern");
}

#[test]
fn reading_io_renders_context_not_cause() {
    let e = TopiaryError::Reading(ReadingError::Io(
        "Could not read file 'in.ml'".to_string(),
        IoCause { message: "permission denied".to_string() },
    ));
    assert_eq!(e.message(), "Could not read file 'in.ml'");
}

#[test]
fn reading_utf8_fixed_message() {
    let e = TopiaryError::Reading(ReadingError::Utf8(Utf8Cause {
        message: "invalid utf-8 sequence of 1 bytes from index 0".to_string(),
    }));
    assert_eq!(e.message(), "Input is not UTF8");
}

#[test]
fn writing_fixed_message_for_every_sub_variant() {
    let cases = [
        TopiaryError::Writing(WritingError::Fmt(FmtCause { message: "x".to_string() })),
        TopiaryError::Writing(WritingError::IntoInner(IntoInnerCause {
            message: "y".to_string(),
        })),
        TopiaryError::Writing(WritingError::Io(IoCause { message: "z".to_string() })),
        TopiaryError::Writing(WritingError::FromUtf8(FromUtf8Cause {
            message: "w".to_string(),
        })),
    ];
    for e in cases {
        assert_eq!(e.message(), "Writing error");
    }
}

#[test]
fn git_message_carries_cause_verbatim() {
    let e = TopiaryError::Git(GitCause { message: "remote not found".to_string() });
    assert_eq!(
        e.message(),
        "The formatter errored when trying to fetch a grammar from git. See the following message: remote not found"
    );
}

#[test]
fn parser_loading_message_carries_cause_verbatim() {
    let e = TopiaryError::ParserLoading(LoadingCause { message: "missing symbol".to_string() });
    assert_eq!(
        e.message(),
        "The formatter errored when trying load the parser dynamic library: missing symbol"
    );
}

#[test]
fn parser_compilation_io_message() {
    let e = TopiaryError::ParserCompilation(ParserCompilationError::Io(IoCause {
        message: "no such file".to_string(),
    }));
    assert_eq!(
        e.message(),
        "The formatter ran into an IO error when compiling a Parser: no such file"
    );
}

#[test]
fn parser_compilation_cc_contains_out_then_err() {
    let e = TopiaryError::ParserCompilation(ParserCompilationError::Cc(
        "compiling parser.c".to_string(),
        "parser.c:3: unknown type".to_string(),
    ));
    let m = e.message();
    assert_eq!(
        m,
        "The formatter ran into an error when compiling a Parser. Output from the CC subprocess: compiling parser.c parser.c:3: unknown type"
    );
    let out_at = m.find("compiling parser.c").unwrap();
    let err_at = m.find("parser.c:3: unknown type").unwrap();
    assert!(out_at < err_at);
}

#[test]
fn parser_compilation_cc_empty_captures() {
    let e = TopiaryError::ParserCompilation(ParserCompilationError::Cc(
        String::new(),
        String::new(),
    ));
    assert_eq!(
        e.message(),
        "The formatter ran into an error when compiling a Parser. Output from the CC subprocess:  "
    );
}

#[test]
fn rendering_is_deterministic() {
    let e = TopiaryError::LanguageDetection("foo.xyz".to_string(), Some("xyz".to_string()));
    assert_eq!(e.message(), e.message());
    let p = TopiaryError::Parsing { start_line: 7, start_column: 0, end_line: 7, end_column: 2 };
    assert_eq!(p.message(), p.message());
}

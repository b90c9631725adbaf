//! Classifying the source argument, and the small helpers.

use icemelter::errors::IceError;
use icemelter::levels::{log_tracing_level, LogLevel, TraceLevel};
use icemelter::source::{parse_source, SourceKind};

#[test]
fn issue_references_are_recognized() {
    assert_eq!(parse_source(b"#12345"), Ok(SourceKind::IssueNumber(12345)));
    assert_eq!(parse_source(b"#7"), Ok(SourceKind::IssueNumber(7)));
    // the digit run ends at the first non-digit, as a leading match
    assert_eq!(parse_source(b"#12abc"), Ok(SourceKind::IssueNumber(12)));
}

#[test]
fn everything_else_is_a_file_path() {
    assert_eq!(parse_source(b"ice.rs"), Ok(SourceKind::FilePath));
    assert_eq!(parse_source(b"#"), Ok(SourceKind::FilePath));
    assert_eq!(parse_source(b"#x1"), Ok(SourceKind::FilePath));
    assert_eq!(parse_source(b""), Ok(SourceKind::FilePath));
    assert_eq!(parse_source(b"dir/#1"), Ok(SourceKind::FilePath));
}

#[test]
fn oversized_issue_numbers_are_rejected() {
    assert_eq!(
        parse_source(b"#99999999999999999999999999999"),
        Err(IceError::IssueNumberTooLarge)
    );
}

#[test]
fn level_mapping_is_severity_preserving() {
    assert_eq!(log_tracing_level(&LogLevel::Trace), TraceLevel::Trace);
    assert_eq!(log_tracing_level(&LogLevel::Debug), TraceLevel::Debug);
    assert_eq!(log_tracing_level(&LogLevel::Info), TraceLevel::Info);
    assert_eq!(log_tracing_level(&LogLevel::Warn), TraceLevel::Warn);
    assert_eq!(log_tracing_level(&LogLevel::Error), TraceLevel::Error);
}

#[test]
fn error_descriptions() {
    assert_eq!(
        IceError::NotReproducing.describe(),
        "the file doesn't seem to produce an ICE"
    );
    assert_eq!(IceError::EmptyCommand.describe(), "empty interestingness check");
}

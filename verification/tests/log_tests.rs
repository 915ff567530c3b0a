use gitrs_core::log::{dispatch, interpret_output, parse_log, DispatchAction, ErrorReason,
    LogEntry, OutboundMessage};
use gitrs_core::protocol::{Connection, ExecEvent, ProcessError};

const SHA_A: &str = "aaaaaaaaaaaaaaaaaaaaaaaaaaaaaaaaaaaaaaaa";
const SHA_B: &str = "bbbbbbbbbbbbbbbbbbbbbbbbbbbbbbbbbbbbbbbb";

#[test]
fn single_stanza_round_trip() {
    let input = "commit aaaaaaaaaaaaaaaaaaaaaaaaaaaaaaaaaaaaaaaa\nAuthor: A\nDate:   D\n\n    hello\n\n";
    let entries = parse_log(input).unwrap();
    assert_eq!(entries.len(), 1);
    assert_eq!(entries[0].commit_sha, SHA_A);
    assert_eq!(entries[0].author, "A");
    assert_eq!(entries[0].date, "D");
    assert_eq!(entries[0].commit_message, "hello");
}

#[test]
fn two_stanzas_in_order() {
    let input = format!(
        "commit {}\nAuthor: A\nDate:   D1\n\n    first\n\ncommit {}\nAuthor: B\nDate:   D2\n\n    second\n\n",
        SHA_A, SHA_B
    );
    let entries = parse_log(&input).unwrap();
    assert_eq!(entries.len(), 2);
    assert_eq!(entries[0].commit_sha, SHA_A);
    assert_eq!(entries[0].commit_message, "first");
    assert_eq!(entries[1].commit_sha, SHA_B);
    assert_eq!(entries[1].commit_message, "second");
}

#[test]
fn missing_commit_literal_fails() {
    let input = format!("xommit {}\nAuthor: A\nDate:   D\n\n    hello\n\n", SHA_A);
    assert!(parse_log(&input).is_err());
}

#[test]
fn wrong_length_hash_fails() {
    let short = "a".repeat(39);
    let input = format!("commit {}\nAuthor: A\nDate:   D\n\n    hello\n\n", short);
    assert!(parse_log(&input).is_err());
}

#[test]
fn non_hex_hash_fails() {
    let bad = "z".repeat(40);
    let input = format!("commit {}\nAuthor: A\nDate:   D\n\n    hello\n\n", bad);
    assert!(parse_log(&input).is_err());
}

#[test]
fn missing_indent_separator_fails() {
    let input = format!("commit {}\nAuthor: A\nDate:   D\n\nhello\n\n", SHA_A);
    assert!(parse_log(&input).is_err());
}

#[test]
fn trailing_content_fails_whole_batch() {
    let input = format!(
        "commit {}\nAuthor: A\nDate:   D\n\n    hello\n\nleftover",
        SHA_A
    );
    assert!(parse_log(&input).is_err());
}

#[test]
fn message_with_internal_blank_line_is_cut_at_first_boundary() {
    // The message scan stops at the first blank-line boundary, so the
    // indented continuation after it is not a stanza and the batch fails.
    let input = format!(
        "commit {}\nAuthor: A\nDate:   D\n\n    hello\n\n    more\n\n",
        SHA_A
    );
    assert!(parse_log(&input).is_err());
}

#[test]
fn empty_input_yields_zero_records_at_parser_level() {
    // The dispatcher fails empty output before the parser; the parser
    // itself consumes zero stanzas from zero input.
    let entries = parse_log("").unwrap();
    assert!(entries.is_empty());
}

#[test]
fn parse_twice_yields_identical_results() {
    let input = format!("commit {}\nAuthor: Ana\nDate:   today\n\n    msg\n\n", SHA_A);
    let first = parse_log(&input);
    let second = parse_log(&input);
    assert_eq!(first, second);
    assert!(first.is_ok());
}

#[test]
fn dispatch_without_repo_path_sends_error() {
    let conn = Connection { repo_path: None };
    let action = dispatch(&conn);
    assert_eq!(
        action,
        DispatchAction::Send(OutboundMessage::Error(ErrorReason::RepoPathNotSet))
    );
}

#[test]
fn dispatch_with_repo_path_invokes_log() {
    let conn = Connection { repo_path: Some("/repo".to_string()) };
    match dispatch(&conn) {
        DispatchAction::Invoke { repo_path, args } => {
            assert_eq!(repo_path, "/repo");
            assert_eq!(args, vec!["log".to_string()]);
        }
        other => panic!("expected an invocation, got {:?}", other),
    }
}

#[test]
fn failed_execution_is_classified() {
    assert_eq!(interpret_output(ExecEvent::Failed), Err(ProcessError::Failed));
}

#[test]
fn non_text_output_is_an_encoding_error() {
    let event = ExecEvent::Output(vec![0xff, 0xfe, 0x00]);
    assert_eq!(interpret_output(event), Err(ProcessError::Encoding));
}

#[test]
fn empty_output_is_a_parsing_error() {
    let event = ExecEvent::Output(Vec::new());
    assert_eq!(interpret_output(event), Err(ProcessError::Parsing));
}

#[test]
fn malformed_output_is_a_parsing_error() {
    let event = ExecEvent::Output(b"not a log listing".to_vec());
    assert_eq!(interpret_output(event), Err(ProcessError::Parsing));
}

#[test]
fn pipeline_accepts_output_ending_at_blank_boundary() {
    // Output that already carries the final record's terminator is a
    // complete batch: nothing more is appended.
    let raw = format!("commit {}\nAuthor: A\nDate:   D\n\n    hello\n\n", SHA_A);
    let event = ExecEvent::Output(raw.into_bytes());
    match interpret_output(event) {
        Ok(OutboundMessage::Success { log }) => {
            assert_eq!(log.len(), 1);
            assert_eq!(log[0].commit_sha, SHA_A);
            assert_eq!(log[0].author, "A");
            assert_eq!(log[0].date, "D");
            assert_eq!(log[0].commit_message, "hello");
        }
        other => panic!("expected a success message, got {:?}", other),
    }
}

#[test]
fn pipeline_accepts_two_stanza_output_ending_at_blank_boundary() {
    let raw = format!(
        "commit {}\nAuthor: A\nDate:   D\n\n    x\n\ncommit {}\nAuthor: B\nDate:   E\n\n    y\n\n",
        SHA_A, SHA_B
    );
    let event = ExecEvent::Output(raw.into_bytes());
    match interpret_output(event) {
        Ok(OutboundMessage::Success { log }) => {
            assert_eq!(log.len(), 2);
            assert_eq!(log[0].commit_sha, SHA_A);
            assert_eq!(log[0].commit_message, "x");
            assert_eq!(log[1].commit_sha, SHA_B);
            assert_eq!(log[1].commit_message, "y");
        }
        other => panic!("expected a success message, got {:?}", other),
    }
}

#[test]
fn pipeline_fails_output_missing_its_final_newline() {
    // One supplied newline does not make a blank-line boundary, so the
    // last record stays unterminated and the batch fails whole.
    let raw = format!("commit {}\nAuthor: A\nDate:   D\n\n    hello", SHA_A);
    let event = ExecEvent::Output(raw.into_bytes());
    assert_eq!(interpret_output(event), Err(ProcessError::Parsing));
}

#[test]
fn successful_pipeline_builds_success_message() {
    // The captured output ends with a single newline, as the tool emits
    // it; the pipeline supplies the final boundary itself.
    let raw = format!("commit {}\nAuthor: Ana María\nDate:   today\n\n    héllo wörld\n", SHA_A);
    let event = ExecEvent::Output(raw.into_bytes());
    match interpret_output(event) {
        Ok(OutboundMessage::Success { log }) => {
            assert_eq!(log.len(), 1);
            let expected = LogEntry {
                commit_sha: SHA_A.to_string(),
                author: "Ana María".to_string(),
                date: "today".to_string(),
                commit_message: "héllo wörld".to_string(),
            };
            assert_eq!(log[0], expected);
        }
        other => panic!("expected a success message, got {:?}", other),
    }
}

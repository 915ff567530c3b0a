//! The log command: the stanza-delimited commit-record grammar, its
//! verified parser, and the per-command dispatch pipeline.
//!
//! One stanza is, in order: the literal `"commit "` and a fixed-length
//! hexadecimal hash, a newline, `"Author: "` and the rest of that line, a
//! newline, `"Date:   "` and the rest of that line, a blank line and a
//! four-space indent, then the commit message up to (not including) the
//! next blank-line boundary. Stanzas are separated by exactly one blank
//! line, and the whole input must be consumed; a malformed stanza
//! anywhere fails the entire parse. The message scan stops at the first
//! blank-line boundary, so a message whose own body holds a blank line is
//! cut short there; that bound is part of the grammar and is kept as it
//! stands.

use crate::protocol::{decode_output, EmptyOutputPolicy, ExecEvent, ParseError, ProcessError,
    Connection};
use crate::scan::{find_blank, find_blank_from, find_char, find_char_from, lemma_find_blank,
    lemma_find_char, match_lit, matches_at, parse_hash, spec_parse_hash, HASH_LEN};
use vstd::prelude::*;
use vstd::string::*;
use vstd::utf8::{decode_utf8, valid_utf8};

verus! {

/// One commit record parsed out of the log listing.
#[derive(Debug, PartialEq, Clone)]
pub struct LogEntry {
    pub commit_sha: String,
    pub author: String,
    pub date: String,
    pub commit_message: String,
}

/// The mathematical value of a `LogEntry`: its four fields as character
/// sequences.
pub struct LogEntryModel {
    pub commit_sha: Seq<char>,
    pub author: Seq<char>,
    pub date: Seq<char>,
    pub commit_message: Seq<char>,
}

impl View for LogEntry {
    type V = LogEntryModel;

    open spec fn view(&self) -> LogEntryModel {
        LogEntryModel {
            commit_sha: self.commit_sha@,
            author: self.author@,
            date: self.date@,
            commit_message: self.commit_message@,
        }
    }
}

/// The view of a parsed batch: each entry replaced by its model.
pub open spec fn log_view(entries: Seq<LogEntry>) -> Seq<LogEntryModel> {
    entries.map_values(|e: LogEntry| e@)
}

/// One stanza of the log grammar starting at position `i`: the parsed
/// record and the position of the blank-line boundary that ends it, or
/// nothing when the input there is malformed.
pub open spec fn spec_parse_entry(s: Seq<char>, i: int) -> Option<(LogEntryModel, int)> {
    if !matches_at(s, i, "commit "@) {
        None
    } else {
        let p1 = i + "commit "@.len();
        match spec_parse_hash(s, p1) {
            None => None,
            Some(sha) => {
                let p2 = p1 + HASH_LEN;
                if !(p2 < s.len() && s[p2] == '\n') {
                    None
                } else if !matches_at(s, p2 + 1, "Author: "@) {
                    None
                } else {
                    let p3 = p2 + 1 + "Author: "@.len();
                    match find_char(s, p3, '\n') {
                        None => None,
                        Some(j1) => {
                            if !matches_at(s, j1 + 1, "Date:   "@) {
                                None
                            } else {
                                let p4 = j1 + 1 + "Date:   "@.len();
                                match find_char(s, p4, '\n') {
                                    None => None,
                                    Some(j2) => {
                                        if !matches_at(s, j2, "\n\n    "@) {
                                            None
                                        } else {
                                            let p5 = j2 + "\n\n    "@.len();
                                            match find_blank(s, p5) {
                                                None => None,
                                                Some(k) => Some(
                                                    (
                                                        LogEntryModel {
                                                            commit_sha: sha,
                                                            author: s.subrange(p3, j1),
                                                            date: s.subrange(p4, j2),
                                                            commit_message: s.subrange(p5, k),
                                                        },
                                                        k,
                                                    ),
                                                ),
                                            }
                                        }
                                    },
                                }
                            }
                        },
                    }
                }
            },
        }
    }
}

/// The whole log grammar from position `i`: stanzas separated by exactly
/// one blank line, consumed greedily until the input is exhausted. Any
/// malformed stanza, or trailing content after the valid stanzas, fails
/// the batch.
pub open spec fn spec_parse_log_from(s: Seq<char>, i: int) -> Option<Seq<LogEntryModel>>
    decreases s.len() - i,
{
    if i == s.len() {
        Some(Seq::empty())
    } else {
        match spec_parse_entry(s, i) {
            None => None,
            Some((e, k)) => {
                if i < k + 2 <= s.len() {
                    match spec_parse_log_from(s, k + 2) {
                        None => None,
                        Some(rest) => Some(seq![e] + rest),
                    }
                } else {
                    None
                }
            },
        }
    }
}

/// The log grammar applied to a whole decoded output.
pub open spec fn spec_parse_log(s: Seq<char>) -> Option<Seq<LogEntryModel>> {
    spec_parse_log_from(s, 0)
}

/// Law: a malformed stanza anywhere fails the whole batch — no partial
/// list of records is ever produced. At any position the batch reaches
/// short of its end, input that does not carry the `"commit "` literal,
/// or whose hash is not `HASH_LEN` hexadecimal characters, fails that
/// stanza; and a failed stanza — those cases, a missing line, or a
/// missing blank-line and indent separator alike — fails the parse of
/// everything from that position on. At position zero this is the whole
/// batch.
pub proof fn lemma_parse_log_all_or_nothing(s: Seq<char>, i: int)
    requires
        i != s.len(),
    ensures
        !matches_at(s, i, "commit "@) ==> spec_parse_log_from(s, i) is None,
        spec_parse_hash(s, i + "commit "@.len()) is None ==> spec_parse_log_from(s, i) is None,
        spec_parse_entry(s, i) is None ==> spec_parse_log_from(s, i) is None,
{
}

/// Parses one stanza at position `i`, yielding the record and the
/// position of the blank-line boundary that ends it.
pub fn parse_log_entry(s: &str, n: usize, i: usize) -> (r: Option<(LogEntry, usize)>)
    requires
        n == s@.len(),
        i <= n,
    ensures
        match r {
            Some((e, k)) => spec_parse_entry(s@, i as int) == Some((e@, k as int)) && i < k && k
                + 2 <= n,
            None => spec_parse_entry(s@, i as int) is None,
        },
{
    if !match_lit(s, n, i, "commit ") {
        return None;
    }
    let p1 = i + "commit ".unicode_len();
    let (sha, p2) = match parse_hash(s, n, p1) {
        None => { return None; },
        Some(hj) => hj,
    };
    if !(p2 < n && s.get_char(p2) == '\n') {
        return None;
    }
    if !match_lit(s, n, p2 + 1, "Author: ") {
        return None;
    }
    let p3 = p2 + 1 + "Author: ".unicode_len();
    let j1 = match find_char_from(s, n, p3, '\n') {
        None => { return None; },
        Some(j) => j,
    };
    if !match_lit(s, n, j1 + 1, "Date:   ") {
        return None;
    }
    let p4 = j1 + 1 + "Date:   ".unicode_len();
    let j2 = match find_char_from(s, n, p4, '\n') {
        None => { return None; },
        Some(j) => j,
    };
    if !match_lit(s, n, j2, "\n\n    ") {
        return None;
    }
    let p5 = j2 + "\n\n    ".unicode_len();
    let k = match find_blank_from(s, n, p5) {
        None => { return None; },
        Some(k) => k,
    };
    proof {
        lemma_find_char(s@, p3 as int, '\n');
        lemma_find_char(s@, p4 as int, '\n');
        lemma_find_blank(s@, p5 as int);
    }
    let author = s.substring_char(p3, j1).to_owned();
    let date = s.substring_char(p4, j2).to_owned();
    let commit_message = s.substring_char(p5, k).to_owned();
    Some((LogEntry { commit_sha: sha, author, date, commit_message }, k))
}

/// What `parse_log` promises of its result for the input text `s`.
pub open spec fn parse_log_result(s: Seq<char>, r: Result<Vec<LogEntry>, ParseError>) -> bool {
    match r {
        Ok(entries) => spec_parse_log(s) == Some(log_view(entries@)),
        Err(_) => spec_parse_log(s) is None,
    }
}

/// Law: the log parser is a pure function of its input text, with no
/// state across invocations. Its contract ties the result to
/// `spec_parse_log` of the input alone, so two results that each satisfy
/// it for the same text succeed or fail together, and on success hold
/// structurally identical records.
pub proof fn lemma_parse_log_deterministic(
    s: Seq<char>,
    r1: Result<Vec<LogEntry>, ParseError>,
    r2: Result<Vec<LogEntry>, ParseError>,
)
    requires
        parse_log_result(s, r1),
        parse_log_result(s, r2),
    ensures
        match (r1, r2) {
            (Ok(a), Ok(b)) => log_view(a@) == log_view(b@),
            (Err(_), Err(_)) => true,
            _ => false,
        },
{
}

/// Converts the full decoded output of the log subcommand into the
/// ordered sequence of commit records, first stanza first; fails on any
/// malformed or trailing content. Zero-length input yields zero records
/// here; the dispatcher treats empty output as a failure before this
/// parser is reached.
pub fn parse_log(s: &str) -> (r: Result<Vec<LogEntry>, ParseError>)
    ensures
        parse_log_result(s@, r),
{
    let n = s.unicode_len();
    let mut entries: Vec<LogEntry> = Vec::new();
    let mut i: usize = 0;
    while i < n
        invariant
            i <= n,
            n == s@.len(),
            spec_parse_log(s@) == match spec_parse_log_from(s@, i as int) {
                Some(rest) => Some(log_view(entries@) + rest),
                None => None::<Seq<LogEntryModel>>,
            },
        decreases n - i,
    {
        match parse_log_entry(s, n, i) {
            None => {
                return Err(ParseError {});
            },
            Some((e, k)) => {
                proof {
                    let ghost before = entries@;
                    assert(log_view(before.push(e)) =~= log_view(before).push(e@));
                }
                entries.push(e);
                i = k + 2;
            },
        }
    }
    proof {
        assert(log_view(entries@) + Seq::<LogEntryModel>::empty() =~= log_view(entries@));
    }
    Ok(entries)
}

/// Protocol-level reasons sent to the remote peer inside an `Error`
/// outbound message.
#[derive(Debug, PartialEq, Eq, Structural, Clone, Copy)]
pub enum ErrorReason {
    RepoPathNotSet,
}

/// The outbound message of one log dispatch: the parsed records, or a
/// protocol-level error reason.
#[derive(Debug, PartialEq)]
pub enum OutboundMessage {
    Success { log: Vec<LogEntry> },
    Error(ErrorReason),
}

/// What one dispatch decides before any subprocess runs: either send a
/// message at once, or invoke the external tool in the repository with
/// the given arguments and hand its outcome back to `interpret_output`.
#[derive(Debug, PartialEq)]
pub enum DispatchAction {
    Send(OutboundMessage),
    Invoke { repo_path: String, args: Vec<String> },
}

/// Empty output from the log subcommand is malformed: a well-formed log
/// listing always holds at least one stanza.
pub fn empty_output_policy() -> (r: EmptyOutputPolicy)
    ensures
        r == EmptyOutputPolicy::Fail,
{
    EmptyOutputPolicy::Fail
}

/// The precondition step of one log dispatch: with no repository path
/// configured the outcome is the `RepoPathNotSet` error message and no
/// subprocess is invoked; otherwise the external tool is to be run with
/// the single argument `log` in the configured repository.
pub fn dispatch(connection_state: &Connection) -> (r: DispatchAction)
    ensures
        match connection_state.repo_path {
            None => r == DispatchAction::Send(OutboundMessage::Error(ErrorReason::RepoPathNotSet)),
            Some(path) => match r {
                DispatchAction::Invoke { repo_path, args } => repo_path@ == path@ && args@.len()
                    == 1 && args@[0]@ == "log"@,
                _ => false,
            },
        },
{
    match &connection_state.repo_path {
        None => DispatchAction::Send(OutboundMessage::Error(ErrorReason::RepoPathNotSet)),
        Some(path) => {
            let mut args: Vec<String> = Vec::new();
            args.push("log".to_owned());
            DispatchAction::Invoke { repo_path: path.clone(), args }
        },
    }
}

/// The decoded output already ends at a blank-line boundary: the final
/// stanza's terminator is present.
pub open spec fn ends_at_blank(s: Seq<char>) -> bool {
    s.len() >= 2 && s[s.len() - 2] == '\n' && s[s.len() - 1] == '\n'
}

/// The text the log grammar is given for a decoded output: a complete
/// batch already ends at a blank-line boundary and is parsed as it
/// stands; the tool's own output ends each line with one newline, so the
/// final record's terminator is supplied only when it is missing.
pub open spec fn normalized_input(s: Seq<char>) -> Seq<char> {
    if ends_at_blank(s) {
        s
    } else {
        s + "\n"@
    }
}

/// How one log dispatch ends for a given execution outcome, as
/// `interpret_output` promises it: every failure stage is classified, and
/// on a successful parse the outbound message holds exactly the parsed
/// records.
pub open spec fn log_outcome(event: ExecEvent, r: Result<OutboundMessage, ProcessError>) -> bool {
    match event {
        ExecEvent::Failed => r == Err::<OutboundMessage, ProcessError>(ProcessError::Failed),
        ExecEvent::Output(bytes) => if !valid_utf8(bytes@) {
            r == Err::<OutboundMessage, ProcessError>(ProcessError::Encoding)
        } else {
            let text = decode_utf8(bytes@);
            if text.len() == 0 {
                r == Err::<OutboundMessage, ProcessError>(ProcessError::Parsing)
            } else {
                match spec_parse_log(normalized_input(text)) {
                    Some(records) => match r {
                        Ok(m) => match m {
                            OutboundMessage::Success { log } => log_view(log@) == records,
                            _ => false,
                        },
                        Err(_) => false,
                    },
                    None => r == Err::<OutboundMessage, ProcessError>(ProcessError::Parsing),
                }
            }
        },
    }
}

/// The rest of one log dispatch, after the subprocess ran: decode the
/// captured bytes, fail empty output, parse the text (supplying the
/// final record's terminator when the text does not already end at a
/// blank-line boundary), and either build the success message or
/// classify the failure. An `Ok` is the message to hand to the transport
/// layer; an `Err` is propagated to the caller unsent.
pub fn interpret_output(event: ExecEvent) -> (r: Result<OutboundMessage, ProcessError>)
    ensures
        log_outcome(event, r),
{
    match event {
        ExecEvent::Failed => Err(ProcessError::Failed),
        ExecEvent::Output(bytes) => match decode_output(&bytes) {
            None => Err(ProcessError::Encoding),
            Some(text) => {
                let n = text.unicode_len();
                if n == 0 {
                    match empty_output_policy() {
                        EmptyOutputPolicy::Fail => Err(ProcessError::Parsing),
                        EmptyOutputPolicy::EmptySuccess => Ok(
                            OutboundMessage::Success { log: Vec::new() },
                        ),
                    }
                } else {
                    let ends_blank = n >= 2 && text.as_str().get_char(n - 2) == '\n'
                        && text.as_str().get_char(n - 1) == '\n';
                    let mut buf = text;
                    if !ends_blank {
                        buf.append("\n");
                    }
                    match parse_log(buf.as_str()) {
                        Ok(entries) => Ok(OutboundMessage::Success { log: entries }),
                        Err(_) => Err(ProcessError::Parsing),
                    }
                }
            },
        },
    }
}

} // verus!

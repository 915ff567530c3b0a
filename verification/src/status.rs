//! The status command: the line-oriented porcelain grammar, its verified
//! parser, and the per-command dispatch pipeline.
//!
//! The listing is requested in the stable machine-oriented porcelain
//! mode with untracked files included. Each line classifies on its first
//! field: `1` an ordinary changed entry (index/worktree state pair, six
//! further fields, then the path), `2` a renamed or copied entry (one
//! more field, then destination path, a tab, and the origin path), `?`
//! an untracked path, `!` an ignored path. Any other line shape fails
//! the whole parse. An empty line is unrecognized too, so only the empty
//! input yields an empty result here; the dispatcher answers empty
//! subprocess output with an explicit empty success before this parser
//! is reached.

use crate::protocol::{decode_output, EmptyOutputPolicy, ExecEvent, ParseError, ProcessError,
    Connection};
use crate::scan::{find_char, find_char_from, lemma_find_char, match_lit, matches_at};
use vstd::prelude::*;
use vstd::string::*;
use vstd::utf8::{decode_utf8, valid_utf8};

verus! {

/// One working-tree/index difference reported by the status listing. A
/// renamed entry carries its origin path beside the current one; every
/// other kind carries one path. Changed and renamed entries keep the
/// index/worktree state pair as the porcelain format encodes it.
#[derive(Debug, PartialEq, Clone)]
pub enum StatusEntry {
    Changed { index_state: char, worktree_state: char, path: String },
    Renamed { index_state: char, worktree_state: char, path: String, origin: String },
    Untracked { path: String },
    Ignored { path: String },
}

/// The mathematical value of a `StatusEntry`: its paths as character
/// sequences.
pub enum StatusEntryModel {
    Changed { index_state: char, worktree_state: char, path: Seq<char> },
    Renamed { index_state: char, worktree_state: char, path: Seq<char>, origin: Seq<char> },
    Untracked { path: Seq<char> },
    Ignored { path: Seq<char> },
}

impl View for StatusEntry {
    type V = StatusEntryModel;

    open spec fn view(&self) -> StatusEntryModel {
        match self {
            StatusEntry::Changed { index_state, worktree_state, path } => StatusEntryModel::Changed {
                index_state: *index_state,
                worktree_state: *worktree_state,
                path: path@,
            },
            StatusEntry::Renamed { index_state, worktree_state, path, origin } => StatusEntryModel::Renamed {
                index_state: *index_state,
                worktree_state: *worktree_state,
                path: path@,
                origin: origin@,
            },
            StatusEntry::Untracked { path } => StatusEntryModel::Untracked { path: path@ },
            StatusEntry::Ignored { path } => StatusEntryModel::Ignored { path: path@ },
        }
    }
}

/// The aggregate success payload of one status dispatch. Zero entries is
/// a valid, explicit value: a repository with no changes.
#[derive(Debug, PartialEq)]
pub struct StatusResult {
    pub entries: Vec<StatusEntry>,
}

impl View for StatusResult {
    type V = Seq<StatusEntryModel>;

    open spec fn view(&self) -> Seq<StatusEntryModel> {
        self.entries@.map_values(|e: StatusEntry| e@)
    }
}

impl StatusResult {
    /// The empty result: no differences at all.
    pub fn new() -> (r: StatusResult)
        ensures
            r@ =~= Seq::<StatusEntryModel>::empty(),
    {
        StatusResult { entries: Vec::new() }
    }
}

/// Position just past `count` fields starting at `i`: each field is a
/// non-empty run without spaces, followed by one space. Nothing when a
/// field is missing or empty.
pub open spec fn spec_skip_fields(line: Seq<char>, i: int, count: nat) -> Option<int>
    decreases count,
{
    if count == 0 {
        Some(i)
    } else {
        match find_char(line, i, ' ') {
            None => None,
            Some(j) => if j == i {
                None
            } else {
                spec_skip_fields(line, j + 1, (count - 1) as nat)
            },
        }
    }
}

/// An ordinary changed line: the literal `"1 "`, the two-character state
/// pair, a space, six fields, then the non-empty path.
pub open spec fn spec_parse_changed(line: Seq<char>) -> Option<StatusEntryModel> {
    let p0 = "1 "@.len() as int;
    if p0 + 3 <= line.len() && line[p0] != ' ' && line[p0 + 1] != ' ' && line[p0 + 2] == ' ' {
        match spec_skip_fields(line, p0 + 3, 6) {
            None => None,
            Some(p) => if p < line.len() {
                Some(
                    StatusEntryModel::Changed {
                        index_state: line[p0],
                        worktree_state: line[p0 + 1],
                        path: line.subrange(p, line.len() as int),
                    },
                )
            } else {
                None
            },
        }
    } else {
        None
    }
}

/// A renamed or copied line: the literal `"2 "`, the state pair, a
/// space, seven fields, the non-empty destination path, a tab, and the
/// non-empty origin path.
pub open spec fn spec_parse_renamed(line: Seq<char>) -> Option<StatusEntryModel> {
    let p0 = "2 "@.len() as int;
    if p0 + 3 <= line.len() && line[p0] != ' ' && line[p0 + 1] != ' ' && line[p0 + 2] == ' ' {
        match spec_skip_fields(line, p0 + 3, 7) {
            None => None,
            Some(p) => match find_char(line, p, '\t') {
                None => None,
                Some(t) => if p < t && t + 1 < line.len() {
                    Some(
                        StatusEntryModel::Renamed {
                            index_state: line[p0],
                            worktree_state: line[p0 + 1],
                            path: line.subrange(p, t),
                            origin: line.subrange(t + 1, line.len() as int),
                        },
                    )
                } else {
                    None
                },
            },
        }
    } else {
        None
    }
}

/// A bare-path line: the given prefix (`"? "` or `"! "`) then the
/// non-empty path.
pub open spec fn spec_parse_bare_path(line: Seq<char>, prefix: Seq<char>) -> Option<Seq<char>> {
    if matches_at(line, 0, prefix) && prefix.len() < line.len() {
        Some(line.subrange(prefix.len() as int, line.len() as int))
    } else {
        None
    }
}

/// One line of the porcelain listing, classified by its first field.
pub open spec fn spec_parse_line(line: Seq<char>) -> Option<StatusEntryModel> {
    if matches_at(line, 0, "? "@) {
        match spec_parse_bare_path(line, "? "@) {
            None => None,
            Some(path) => Some(StatusEntryModel::Untracked { path }),
        }
    } else if matches_at(line, 0, "! "@) {
        match spec_parse_bare_path(line, "! "@) {
            None => None,
            Some(path) => Some(StatusEntryModel::Ignored { path }),
        }
    } else if matches_at(line, 0, "1 "@) {
        spec_parse_changed(line)
    } else if matches_at(line, 0, "2 "@) {
        spec_parse_renamed(line)
    } else {
        None
    }
}

/// The whole status grammar from position `i`: newline-separated lines,
/// each a recognized entry, until the input is exhausted; a final line
/// without a trailing newline is accepted too.
pub open spec fn spec_parse_status_from(s: Seq<char>, i: int) -> Option<Seq<StatusEntryModel>>
    decreases s.len() - i,
{
    if i < 0 || i > s.len() {
        None
    } else if i == s.len() {
        Some(Seq::empty())
    } else {
        let lineend = match find_char(s, i, '\n') {
            Some(j) => j,
            None => s.len() as int,
        };
        match spec_parse_line(s.subrange(i, lineend)) {
            None => None,
            Some(e) => {
                let next = if lineend < s.len() {
                    lineend + 1
                } else {
                    lineend
                };
                if i < next <= s.len() {
                    match spec_parse_status_from(s, next) {
                        None => None,
                        Some(rest) => Some(seq![e] + rest),
                    }
                } else {
                    None
                }
            },
        }
    }
}

/// The status grammar applied to a whole decoded output.
pub open spec fn spec_parse_status(s: Seq<char>) -> Option<Seq<StatusEntryModel>> {
    spec_parse_status_from(s, 0)
}

/// Skips `count` space-terminated fields starting at `i`, as
/// `spec_skip_fields` gives the position past them.
fn skip_fields(line: &str, n: usize, i: usize, count: usize) -> (r: Option<usize>)
    requires
        n == line@.len(),
        i <= n,
    ensures
        match r {
            Some(p) => spec_skip_fields(line@, i as int, count as nat) == Some(p as int) && i <= p
                <= n,
            None => spec_skip_fields(line@, i as int, count as nat) is None,
        },
{
    let mut p = i;
    let mut t: usize = 0;
    while t < count
        invariant
            t <= count,
            i <= p <= n,
            n == line@.len(),
            spec_skip_fields(line@, i as int, count as nat) == spec_skip_fields(
                line@,
                p as int,
                (count - t) as nat,
            ),
        decreases count - t,
    {
        match find_char_from(line, n, p, ' ') {
            None => {
                return None;
            },
            Some(j) => {
                if j == p {
                    return None;
                }
                p = j + 1;
                t += 1;
            },
        }
    }
    Some(p)
}

/// Classifies one line of the listing, as `spec_parse_line` gives it; a
/// recognized line is never empty.
pub fn parse_status_line(line: &str) -> (r: Option<StatusEntry>)
    ensures
        match r {
            Some(e) => spec_parse_line(line@) == Some(e@) && line@.len() > 0,
            None => spec_parse_line(line@) is None,
        },
{
    let n = line.unicode_len();
    if match_lit(line, n, 0, "? ") {
        let p0 = "? ".unicode_len();
        if p0 < n {
            Some(StatusEntry::Untracked { path: line.substring_char(p0, n).to_owned() })
        } else {
            None
        }
    } else if match_lit(line, n, 0, "! ") {
        let p0 = "! ".unicode_len();
        if p0 < n {
            Some(StatusEntry::Ignored { path: line.substring_char(p0, n).to_owned() })
        } else {
            None
        }
    } else if match_lit(line, n, 0, "1 ") {
        let p0 = "1 ".unicode_len();
        if !(n - p0 >= 3 && line.get_char(p0) != ' ' && line.get_char(p0 + 1) != ' '
            && line.get_char(p0 + 2) == ' ') {
            return None;
        }
        match skip_fields(line, n, p0 + 3, 6) {
            None => None,
            Some(p) => {
                if p < n {
                    Some(
                        StatusEntry::Changed {
                            index_state: line.get_char(p0),
                            worktree_state: line.get_char(p0 + 1),
                            path: line.substring_char(p, n).to_owned(),
                        },
                    )
                } else {
                    None
                }
            },
        }
    } else if match_lit(line, n, 0, "2 ") {
        let p0 = "2 ".unicode_len();
        if !(n - p0 >= 3 && line.get_char(p0) != ' ' && line.get_char(p0 + 1) != ' '
            && line.get_char(p0 + 2) == ' ') {
            return None;
        }
        match skip_fields(line, n, p0 + 3, 7) {
            None => None,
            Some(p) => {
                match find_char_from(line, n, p, '\t') {
                    None => None,
                    Some(t) => {
                        if p < t && t + 1 < n {
                            Some(
                                StatusEntry::Renamed {
                                    index_state: line.get_char(p0),
                                    worktree_state: line.get_char(p0 + 1),
                                    path: line.substring_char(p, t).to_owned(),
                                    origin: line.substring_char(t + 1, n).to_owned(),
                                },
                            )
                        } else {
                            None
                        }
                    },
                }
            },
        }
    } else {
        None
    }
}

/// What `parse_git_status` promises of its result for the input text
/// `s`.
pub open spec fn parse_status_result(s: Seq<char>, r: Result<StatusResult, ParseError>) -> bool {
    match r {
        Ok(res) => spec_parse_status(s) == Some(res@),
        Err(_) => spec_parse_status(s) is None,
    }
}

/// Law: the status parser is a pure function of its input text, with no
/// state across invocations. Its contract ties the result to
/// `spec_parse_status` of the input alone, so two results that each
/// satisfy it for the same text succeed or fail together, and on success
/// hold structurally identical entries.
pub proof fn lemma_parse_status_deterministic(
    s: Seq<char>,
    r1: Result<StatusResult, ParseError>,
    r2: Result<StatusResult, ParseError>,
)
    requires
        parse_status_result(s, r1),
        parse_status_result(s, r2),
    ensures
        match (r1, r2) {
            (Ok(a), Ok(b)) => a@ == b@,
            (Err(_), Err(_)) => true,
            _ => false,
        },
{
}

/// Converts the full decoded output of the status subcommand into the
/// ordered aggregate of status entries; fails on any unrecognized line.
pub fn parse_git_status(s: &str) -> (r: Result<StatusResult, ParseError>)
    ensures
        parse_status_result(s@, r),
{
    let n = s.unicode_len();
    let mut entries: Vec<StatusEntry> = Vec::new();
    let mut i: usize = 0;
    while i < n
        invariant
            i <= n,
            n == s@.len(),
            spec_parse_status(s@) == match spec_parse_status_from(s@, i as int) {
                Some(rest) => Some(entries@.map_values(|e: StatusEntry| e@) + rest),
                None => None::<Seq<StatusEntryModel>>,
            },
        decreases n - i,
    {
        let lineend = match find_char_from(s, n, i, '\n') {
            Some(j) => j,
            None => n,
        };
        proof {
            lemma_find_char(s@, i as int, '\n');
        }
        let line = s.substring_char(i, lineend);
        match parse_status_line(line) {
            None => {
                return Err(ParseError {});
            },
            Some(e) => {
                proof {
                    let ghost before = entries@;
                    assert(before.push(e).map_values(|x: StatusEntry| x@) =~= before.map_values(
                        |x: StatusEntry| x@,
                    ).push(e@));
                }
                entries.push(e);
                i = if lineend < n {
                    lineend + 1
                } else {
                    lineend
                };
            },
        }
    }
    proof {
        assert(entries@.map_values(|e: StatusEntry| e@) + Seq::<StatusEntryModel>::empty()
            =~= entries@.map_values(|e: StatusEntry| e@));
    }
    Ok(StatusResult { entries })
}

/// Protocol-level reasons sent to the remote peer inside an `Error`
/// outbound message.
#[derive(Debug, PartialEq, Eq, Structural, Clone, Copy)]
pub enum ErrorReason {
    RepoPathNotSet,
}

/// The outbound message of one status dispatch: the aggregate of status
/// entries, or a protocol-level error reason.
#[derive(Debug, PartialEq)]
pub enum OutboundMessage {
    Success { status: StatusResult },
    Error(ErrorReason),
}

/// What one dispatch decides before any subprocess runs: either send a
/// message at once, or invoke the external tool in the repository with
/// the given arguments and hand its outcome back to `interpret_output`.
#[derive(Debug, PartialEq)]
pub enum DispatchAction {
    Send(OutboundMessage),
    Invoke { repo_path: String, args: Vec<String> },
}

/// Empty output from the status subcommand is itself meaningful data: a
/// repository with no changes, answered as an explicit empty success.
pub fn empty_output_policy() -> (r: EmptyOutputPolicy)
    ensures
        r == EmptyOutputPolicy::EmptySuccess,
{
    EmptyOutputPolicy::EmptySuccess
}

/// The precondition step of one status dispatch: with no repository path
/// configured the outcome is the `RepoPathNotSet` error message and no
/// subprocess is invoked; otherwise the external tool is to be run with
/// the status arguments in the configured repository.
pub fn dispatch(connection_state: &Connection) -> (r: DispatchAction)
    ensures
        match connection_state.repo_path {
            None => r == DispatchAction::Send(OutboundMessage::Error(ErrorReason::RepoPathNotSet)),
            Some(path) => match r {
                DispatchAction::Invoke { repo_path, args } => repo_path@ == path@ && args@.len()
                    == 3 && args@[0]@ == "status"@ && args@[1]@ == "--porcelain=v2"@ && args@[2]@
                    == "--untracked-files"@,
                _ => false,
            },
        },
{
    match &connection_state.repo_path {
        None => DispatchAction::Send(OutboundMessage::Error(ErrorReason::RepoPathNotSet)),
        Some(path) => {
            let mut args: Vec<String> = Vec::new();
            args.push("status".to_owned());
            args.push("--porcelain=v2".to_owned());
            args.push("--untracked-files".to_owned());
            DispatchAction::Invoke { repo_path: path.clone(), args }
        },
    }
}

/// How one status dispatch ends for a given execution outcome, as
/// `interpret_output` promises it: every failure stage is classified,
/// empty output short-circuits to an explicit empty success without
/// reaching the parser, and on a successful parse the outbound message
/// holds exactly the parsed entries.
pub open spec fn status_outcome(event: ExecEvent, r: Result<OutboundMessage, ProcessError>) -> bool {
    match event {
        ExecEvent::Failed => r == Err::<OutboundMessage, ProcessError>(ProcessError::Failed),
        ExecEvent::Output(bytes) => if !valid_utf8(bytes@) {
            r == Err::<OutboundMessage, ProcessError>(ProcessError::Encoding)
        } else {
            let text = decode_utf8(bytes@);
            if text.len() == 0 {
                match r {
                    Ok(m) => match m {
                        OutboundMessage::Success { status } => status@ == Seq::<
                            StatusEntryModel,
                        >::empty(),
                        _ => false,
                    },
                    Err(_) => false,
                }
            } else {
                match spec_parse_status(text) {
                    Some(records) => match r {
                        Ok(m) => match m {
                            OutboundMessage::Success { status } => status@ == records,
                            _ => false,
                        },
                        Err(_) => false,
                    },
                    None => r == Err::<OutboundMessage, ProcessError>(ProcessError::Parsing),
                }
            }
        },
    }
}

/// The rest of one status dispatch, after the subprocess ran: decode the
/// captured bytes, answer empty output with the explicit empty success,
/// parse the text, and either build the success message or classify the
/// failure. An `Ok` is the message to hand to the transport layer; an
/// `Err` is propagated to the caller unsent.
pub fn interpret_output(event: ExecEvent) -> (r: Result<OutboundMessage, ProcessError>)
    ensures
        status_outcome(event, r),
{
    match event {
        ExecEvent::Failed => Err(ProcessError::Failed),
        ExecEvent::Output(bytes) => match decode_output(&bytes) {
            None => Err(ProcessError::Encoding),
            Some(text) => {
                if text.unicode_len() == 0 {
                    match empty_output_policy() {
                        EmptyOutputPolicy::EmptySuccess => Ok(
                            OutboundMessage::Success { status: StatusResult::new() },
                        ),
                        EmptyOutputPolicy::Fail => Err(ProcessError::Parsing),
                    }
                } else {
                    match parse_git_status(text.as_str()) {
                        Ok(status) => Ok(OutboundMessage::Success { status }),
                        Err(_) => Err(ProcessError::Parsing),
                    }
                }
            },
        },
    }
}

} // verus!

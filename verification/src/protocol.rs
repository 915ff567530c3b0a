//! Types shared by every command pipeline: the per-connection repository
//! context, the pipeline-level error taxonomy, the outcome of one
//! subprocess execution, and the byte-decoding step.

use vstd::prelude::*;
use vstd::utf8::{decode_utf8, valid_utf8};

verus! {

/// Per-connection state read by every dispatch: the optional filesystem
/// path of the repository to operate on. When it is absent no subprocess
/// is invoked for any command.
pub struct Connection {
    pub repo_path: Option<String>,
}

/// Pipeline-level failures, propagated out of a dispatch rather than sent
/// to the remote peer: the subprocess could not be spawned or did not run
/// to success (`Failed`), its output was not text (`Encoding`), or its
/// output did not match the command's grammar (`Parsing`).
#[derive(Debug, PartialEq, Eq, Structural, Clone, Copy)]
pub enum ProcessError {
    Failed,
    Encoding,
    Parsing,
}

/// Outcome of one subprocess execution, handed to the library by the
/// layer that spawned the process: either a spawn/exit failure, or the
/// captured standard-output bytes.
#[derive(Debug, PartialEq)]
pub enum ExecEvent {
    Failed,
    Output(Vec<u8>),
}

/// A grammar mismatch reported by a format parser.
#[derive(Debug, PartialEq, Eq, Structural, Clone, Copy)]
pub struct ParseError {}

/// Per-command policy for a subprocess that produced no output at all:
/// treat it as malformed, or as an explicit empty success.
#[derive(Debug, PartialEq, Eq, Structural, Clone, Copy)]
pub enum EmptyOutputPolicy {
    Fail,
    EmptySuccess,
}

/// Relies on core::str::from_utf8: it returns `Ok` exactly on UTF-8
/// input, and then yields the decoded text of the bytes.
#[verifier::external_body]
pub(crate) fn decode_output(bytes: &Vec<u8>) -> (r: Option<String>)
    ensures
        match r {
            Some(text) => valid_utf8(bytes@) && text@ == decode_utf8(bytes@),
            None => !valid_utf8(bytes@),
        },
{
    match core::str::from_utf8(bytes.as_slice()) {
        Ok(text) => Some(text.to_string()),
        Err(_) => None,
    }
}

} // verus!

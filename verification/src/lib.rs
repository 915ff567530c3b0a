//! Command-dispatch and output-parsing core of a version-control server.
//!
//! The library holds the grammars that turn the raw, line-oriented text
//! emitted by the external version-control tool into typed records (one
//! grammar for the commit log, one for the porcelain status listing), and
//! the per-command pipeline that checks the repository precondition,
//! classifies every failure of execution, decoding and parsing, and builds
//! the outbound message handed to the transport layer.

pub mod log;
pub mod protocol;
pub mod scan;
pub mod status;

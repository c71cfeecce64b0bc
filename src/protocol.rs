//! The messages that travel on an administrative connection.

use vstd::prelude::*;

verus! {

/// serde_json's `Value`, carried through unread as the payload of a data response.
#[verifier::external_type_specification]
#[verifier::external_body]
pub struct ExJsonValue(serde_json::Value);

/// How severe a log line from the service is, from least to most.
#[derive(Debug, Clone, Copy, PartialEq, Eq, Structural, PartialOrd, Ord)]
pub enum LogLevel {
    Trace,
    Debug,
    Info,
    Warn,
    Error,
}

/// One unit of the reply stream to a command.
#[derive(Debug, PartialEq)]
pub enum Response {
    /// A progress or log notification; more responses follow.
    Log { level: LogLevel, msg: String, ts: String },
    /// The command failed; nothing follows.
    Error { msg: String },
    /// The command succeeded; nothing follows.
    Success,
    /// A payload for the caller's output, such as query results; more follow.
    Data(serde_json::Value),
}

/// Whether `r` ends the reply to a command.
pub open spec fn is_terminal(r: Response) -> bool {
    r is Error || r is Success
}

} // verus!

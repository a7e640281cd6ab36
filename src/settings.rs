//! Settings read from the environment.

use crate::dispatch::same_text;
use vstd::prelude::*;

verus! {

/// How much the server logs.
#[derive(Clone, Copy, Debug, PartialEq, Eq, Structural)]
pub enum LogLevel {
    Trace,
    Debug,
    Info,
    Warn,
    Error,
}

/// The level a (lower-case) setting names, if any.
pub open spec fn level_named(name: Seq<char>) -> Option<LogLevel> {
    if name == "trace"@ {
        Some(LogLevel::Trace)
    } else if name == "debug"@ {
        Some(LogLevel::Debug)
    } else if name == "info"@ {
        Some(LogLevel::Info)
    } else if name == "warn"@ {
        Some(LogLevel::Warn)
    } else if name == "error"@ {
        Some(LogLevel::Error)
    } else {
        None
    }
}

/// Reads a logging level setting: `trace`, `debug`, `info`, `warn` or
/// `error`; `None` for anything else.
pub fn logging_level_of(name: &str) -> (r: Option<LogLevel>)
    ensures
        r == level_named(name@),
{
    if same_text(name, "trace") {
        Some(LogLevel::Trace)
    } else if same_text(name, "debug") {
        Some(LogLevel::Debug)
    } else if same_text(name, "info") {
        Some(LogLevel::Info)
    } else if same_text(name, "warn") {
        Some(LogLevel::Warn)
    } else if same_text(name, "error") {
        Some(LogLevel::Error)
    } else {
        None
    }
}

} // verus!

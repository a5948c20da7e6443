//! The closed set of log severities and its translation to the backend's
//! severity token.

use vstd::prelude::*;

verus! {

/// Minimum severity written to the log file, from most to least verbose.
#[derive(Debug, Clone, Copy, PartialEq, Eq, Structural, PartialOrd, Ord)]
pub enum LogLevel {
    Trace,
    Debug,
    Info,
    Warn,
    Error,
}

impl Default for LogLevel {
    /// The designated default severity is `Info`.
    fn default() -> (r: Self)
        ensures
            r == LogLevel::Info,
    {
        LogLevel::Info
    }
}

/// The backend's severity token for each level.
pub open spec fn level_token_spec(level: LogLevel) -> Seq<char> {
    match level {
        LogLevel::Trace => "trace"@,
        LogLevel::Debug => "debug"@,
        LogLevel::Info => "info"@,
        LogLevel::Warn => "warn"@,
        LogLevel::Error => "error"@,
    }
}

/// Translates a severity level to the backend's token.
pub fn level_token(level: LogLevel) -> (r: &'static str)
    ensures
        r@ == level_token_spec(level),
{
    match level {
        LogLevel::Trace => "trace",
        LogLevel::Debug => "debug",
        LogLevel::Info => "info",
        LogLevel::Warn => "warn",
        LogLevel::Error => "error",
    }
}

/// The translation to backend tokens is injective: distinct levels get
/// distinct tokens, so no level is silently substituted by another.
pub proof fn lemma_level_token_injective(a: LogLevel, b: LogLevel)
    ensures
        level_token_spec(a) == level_token_spec(b) ==> a == b,
{
    reveal_strlit("trace");
    reveal_strlit("debug");
    reveal_strlit("info");
    reveal_strlit("warn");
    reveal_strlit("error");
    assert("trace"@[0] == 't');
    assert("debug"@[0] == 'd');
    assert("info"@[0] == 'i');
    assert("warn"@[0] == 'w');
    assert("error"@[0] == 'e');
}

} // verus!

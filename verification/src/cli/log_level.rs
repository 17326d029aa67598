//! How much the tool logs.
use vstd::prelude::*;
use crate::text::{ascii_lower, lowercase_eq, to_ascii_lowercase};

verus! {

/// A level of logging.
#[derive(Debug, Clone, Copy, PartialEq, Eq, Structural)]
pub enum LogLevel {
    Debug,
    Info,
    Warn,
    Error,
}

/// The name of a level.
pub open spec fn spec_level_name(l: LogLevel) -> Seq<char> {
    match l {
        LogLevel::Debug => "debug"@,
        LogLevel::Info => "info"@,
        LogLevel::Warn => "warn"@,
        LogLevel::Error => "error"@,
    }
}

/// The level named by a text, whatever the case of its ASCII letters.
pub open spec fn spec_parse_level(s: Seq<char>) -> Option<LogLevel> {
    let l = to_ascii_lowercase(s);
    if l == "debug"@ {
        Some(LogLevel::Debug)
    } else if l == "info"@ {
        Some(LogLevel::Info)
    } else if l == "warn"@ {
        Some(LogLevel::Warn)
    } else if l == "error"@ {
        Some(LogLevel::Error)
    } else {
        None
    }
}

/// The filter of log records for a level: errors from everything, and
/// the level itself for the tool's own records.
pub open spec fn spec_env_filter(l: LogLevel) -> Seq<char> {
    match l {
        LogLevel::Debug => "error,hashira=debug"@,
        LogLevel::Info => "error,hashira=info"@,
        LogLevel::Warn => "error,hashira=warn"@,
        LogLevel::Error => "error,hashira=error"@,
    }
}

impl LogLevel {
    /// The name of the level.
    pub fn as_str(&self) -> (r: &'static str)
        ensures
            r@ == spec_level_name(*self),
    {
        match self {
            LogLevel::Debug => "debug",
            LogLevel::Info => "info",
            LogLevel::Warn => "warn",
            LogLevel::Error => "error",
        }
    }

    /// The level named by a text, whatever the case of its ASCII letters.
    pub fn from_str(s: &str) -> (r: Result<LogLevel, String>)
        ensures
            match spec_parse_level(s@) {
                Some(l) => r == Ok::<LogLevel, String>(l),
                None => r matches Err(m) && m@
                    == "Invalid log level expected: debug, info, warn, error"@,
            },
    {
        if lowercase_eq(s, "debug") {
            Ok(LogLevel::Debug)
        } else if lowercase_eq(s, "info") {
            Ok(LogLevel::Info)
        } else if lowercase_eq(s, "warn") {
            Ok(LogLevel::Warn)
        } else if lowercase_eq(s, "error") {
            Ok(LogLevel::Error)
        } else {
            Err(String::from_str("Invalid log level expected: debug, info, warn, error"))
        }
    }

    /// The text of the level: its name.
    pub fn to_string(&self) -> (r: String)
        ensures
            r@ == spec_level_name(*self),
    {
        String::from_str(self.as_str())
    }

    /// The filter of log records for this level.
    pub fn env_filter(&self) -> (r: &'static str)
        ensures
            r@ == spec_env_filter(*self),
    {
        match self {
            LogLevel::Debug => "error,hashira=debug",
            LogLevel::Info => "error,hashira=info",
            LogLevel::Warn => "error,hashira=warn",
            LogLevel::Error => "error,hashira=error",
        }
    }

    /// Whether log lines show the time: only at the debug level.
    pub fn shows_time(&self) -> (r: bool)
        ensures
            r == (*self == LogLevel::Debug),
    {
        match self {
            LogLevel::Debug => true,
            _ => false,
        }
    }
}

/// Reading the name of a level gives the level back.
pub proof fn lemma_level_name_roundtrip(l: LogLevel)
    ensures
        spec_parse_level(spec_level_name(l)) == Some(l),
{
    reveal_strlit("debug");
    reveal_strlit("info");
    reveal_strlit("warn");
    reveal_strlit("error");
    assert("debug"@ =~= seq!['d', 'e', 'b', 'u', 'g']);
    assert("info"@ =~= seq!['i', 'n', 'f', 'o']);
    assert("warn"@ =~= seq!['w', 'a', 'r', 'n']);
    assert("error"@ =~= seq!['e', 'r', 'r', 'o', 'r']);
    let n = spec_level_name(l);
    assert(to_ascii_lowercase(n) =~= n);
    assert("debug"@[0] != "error"@[0]);
    assert("info"@[0] != "warn"@[0]);
}

/// Lower-casing ASCII twice changes nothing more.
pub proof fn lemma_lowercase_idempotent(s: Seq<char>)
    ensures
        to_ascii_lowercase(to_ascii_lowercase(s)) == to_ascii_lowercase(s),
{
    assert forall|i: int| 0 <= i < s.len() implies #[trigger] ascii_lower(ascii_lower(s[i]))
        == ascii_lower(s[i]) by {
        let c = s[i];
        if 'A' <= c <= 'Z' {
            assert(((c as u32) + 32) as char >= 'a');
        }
    }
    assert(to_ascii_lowercase(to_ascii_lowercase(s)) =~= to_ascii_lowercase(s));
}

/// Log levels are read whatever the case of their letters: a text and
/// its lower-case form name the same level.
pub proof fn lemma_level_case_insensitive(s: Seq<char>)
    ensures
        spec_parse_level(to_ascii_lowercase(s)) == spec_parse_level(s),
{
    lemma_lowercase_idempotent(s);
}

} // verus!

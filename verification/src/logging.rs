//! How logging is to be set up, decided from the command line's words.

use vstd::prelude::*;
use vstd::string::StringExecFns;
use crate::text::{lowercase, same_text};

verus! {

/// The form in which log lines are written.
#[derive(Debug, Clone, Copy, PartialEq, Eq, Structural)]
pub enum LogFormat {
    /// Lines for people to read.
    Text,
    /// One JSON object per line.
    Json,
}

/// The least severity that is logged.
#[derive(Debug, Clone, Copy, PartialEq, Eq, Structural)]
pub enum LogLevel {
    Trace,
    Debug,
    Info,
    Warn,
    Error,
}

/// Where log lines go.
#[derive(Debug)]
pub enum LogSetup {
    /// To the console only, errors only, so that the dashboard stays clean.
    Console,
    /// Errors to the console, and everything from `level` on to a file.
    File { path: String, level: LogLevel, format: LogFormat },
}

/// The level that a word in lower case names; `Info` for any other word.
pub open spec fn level_named(lowered: Seq<char>) -> LogLevel {
    if lowered == "trace"@ {
        LogLevel::Trace
    } else if lowered == "debug"@ {
        LogLevel::Debug
    } else if lowered == "info"@ {
        LogLevel::Info
    } else if lowered == "warn"@ {
        LogLevel::Warn
    } else if lowered == "error"@ {
        LogLevel::Error
    } else {
        LogLevel::Info
    }
}

/// The level that is asked for, case ignored; `Info` where none is.
pub open spec fn level_of(word: Option<Seq<char>>) -> LogLevel {
    match word {
        Some(w) => level_named(lowercase(w)),
        None => LogLevel::Info,
    }
}

/// The format that a word in lower case names: JSON for `json`, text for
/// any other word.
pub open spec fn format_named(lowered: Seq<char>) -> LogFormat {
    if lowered == "json"@ {
        LogFormat::Json
    } else {
        LogFormat::Text
    }
}

/// The format that is asked for, case ignored; text where none is.
pub open spec fn format_of(word: Option<Seq<char>>) -> LogFormat {
    match word {
        Some(w) => format_named(lowercase(w)),
        None => LogFormat::Text,
    }
}

/// The text of an optional word.
pub open spec fn word_view(word: Option<&str>) -> Option<Seq<char>> {
    match word {
        Some(w) => Some(w@),
        None => None,
    }
}

/// Reads the level from a word in lower case.
pub fn level_from_lowered(lowered: &str) -> (r: LogLevel)
    ensures
        r == level_named(lowered@),
{
    if same_text(lowered, "trace") {
        LogLevel::Trace
    } else if same_text(lowered, "debug") {
        LogLevel::Debug
    } else if same_text(lowered, "info") {
        LogLevel::Info
    } else if same_text(lowered, "warn") {
        LogLevel::Warn
    } else if same_text(lowered, "error") {
        LogLevel::Error
    } else {
        LogLevel::Info
    }
}

/// Reads the format from a word in lower case.
pub fn format_from_lowered(lowered: &str) -> (r: LogFormat)
    ensures
        r == format_named(lowered@),
{
    if same_text(lowered, "json") {
        LogFormat::Json
    } else {
        LogFormat::Text
    }
}

/// Reads the level from the word that names it, case ignored.
pub fn parse_level(word: Option<&str>) -> (r: LogLevel)
    ensures
        r == level_of(word_view(word)),
{
    match word {
        None => LogLevel::Info,
        Some(w) => {
            let lowered = w.to_lowercase();
            level_from_lowered(lowered.as_str())
        },
    }
}

/// Reads the format from the word that names it, case ignored.
pub fn parse_format(word: Option<&str>) -> (r: LogFormat)
    ensures
        r == format_of(word_view(word)),
{
    match word {
        None => LogFormat::Text,
        Some(w) => {
            let lowered = w.to_lowercase();
            format_from_lowered(lowered.as_str())
        },
    }
}

/// Decides where log lines go. With a log file they go there, at the level
/// and in the format asked for; without one only the console is used.
pub fn init(log_file: Option<&str>, log_level: Option<&str>, log_format: Option<&str>) -> (r:
    LogSetup)
    ensures
        log_file is None ==> r is Console,
        log_file is Some ==> (r matches LogSetup::File { path, level, format } && path@
            == log_file->0@ && level == level_of(word_view(log_level)) && format == format_of(
            word_view(log_format),
        )),
{
    match log_file {
        None => LogSetup::Console,
        Some(path) => LogSetup::File {
            path: String::from_str(path),
            level: parse_level(log_level),
            format: parse_format(log_format),
        },
    }
}

} // verus!

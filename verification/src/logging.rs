//! Log verbosity, the filter the logger starts with, and the layout of
//! one log line. The logger itself is installed by the program, which
//! writes to stderr so that stdout carries only command output.
//!
//! Filter precedence, highest first: the `--log-level` flag, the
//! `UNIFI_PROTECT_LOG` variable, `RUST_LOG`, the config file's
//! `log_level`, then `warn`.

use vstd::prelude::*;

use crate::env::EnvVars;
use crate::text::{push_str, to_owned};

verus! {

/// Diagnostic verbosity, least to most verbose.
#[derive(Clone, Copy, Debug, PartialEq, Eq, Hash, Structural)]
pub enum LogLevel {
    Error,
    Warn,
    Info,
    Debug,
    Trace,
}

/// The lower-case name of a level.
pub open spec fn level_name(l: LogLevel) -> Seq<char> {
    match l {
        LogLevel::Error => "error"@,
        LogLevel::Warn => "warn"@,
        LogLevel::Info => "info"@,
        LogLevel::Debug => "debug"@,
        LogLevel::Trace => "trace"@,
    }
}

impl LogLevel {
    /// The lower-case name of this level (`error`, `warn`, `info`,
    /// `debug`, `trace`).
    pub fn as_str(self) -> (s: &'static str)
        ensures
            s@ == level_name(self),
    {
        match self {
            LogLevel::Error => "error",
            LogLevel::Warn => "warn",
            LogLevel::Info => "info",
            LogLevel::Debug => "debug",
            LogLevel::Trace => "trace",
        }
    }
}


/// The upper-case label a level is printed with.
pub open spec fn level_label(l: LogLevel) -> Seq<char> {
    match l {
        LogLevel::Error => "ERROR"@,
        LogLevel::Warn => "WARN"@,
        LogLevel::Info => "INFO"@,
        LogLevel::Debug => "DEBUG"@,
        LogLevel::Trace => "TRACE"@,
    }
}

impl LogLevel {
    /// The upper-case label this level is printed with.
    pub fn label(self) -> (s: &'static str)
        ensures
            s@ == level_label(self),
    {
        match self {
            LogLevel::Error => "ERROR",
            LogLevel::Warn => "WARN",
            LogLevel::Info => "INFO",
            LogLevel::Debug => "DEBUG",
            LogLevel::Trace => "TRACE",
        }
    }
}

/// The filter the logger starts with.
#[derive(Debug, PartialEq, Eq)]
pub enum LogFilter {
    /// Records at this level or more severe.
    Level(LogLevel),
    /// Filter directives in `env_logger` syntax.
    Directives(String),
}

/// The starting filter: the flag, else `UNIFI_PROTECT_LOG`, else
/// `RUST_LOG` (both as directives, even when empty), else the config
/// file's level, else `warn`.
pub fn choose_log_filter(cli: Option<LogLevel>, file: Option<LogLevel>, env: &EnvVars) -> (f:
    LogFilter)
    ensures
        match cli {
            Some(l) => f == LogFilter::Level(l),
            None => match env.var("UNIFI_PROTECT_LOG"@) {
                Some(v) => f matches LogFilter::Directives(d) && d@ == v,
                None => match env.var("RUST_LOG"@) {
                    Some(v) => f matches LogFilter::Directives(d) && d@ == v,
                    None => match file {
                        Some(l) => f == LogFilter::Level(l),
                        None => f matches LogFilter::Directives(d) && d@ == "warn"@,
                    },
                },
            },
        },
{
    if let Some(l) = cli {
        return LogFilter::Level(l);
    }
    if let Some(v) = env.get("UNIFI_PROTECT_LOG") {
        return LogFilter::Directives(v);
    }
    if let Some(v) = env.get("RUST_LOG") {
        return LogFilter::Directives(v);
    }
    match file {
        Some(l) => LogFilter::Level(l),
        None => LogFilter::Directives(to_owned("warn")),
    }
}

/// One log line: time, level label and message for `INFO` and more
/// severe records; the target between label and message for `DEBUG` and
/// `TRACE`.
pub open spec fn log_line_text(ts: Seq<char>, l: LogLevel, target: Seq<char>, msg: Seq<char>) -> Seq<
    char,
> {
    match l {
        LogLevel::Debug | LogLevel::Trace => ts + " "@ + level_label(l) + " "@ + target + " "@ + msg
            + "\n"@,
        _ => ts + " "@ + level_label(l) + " "@ + msg + "\n"@,
    }
}

/// Formats one log record.
pub fn log_line(ts: &str, level: LogLevel, target: &str, msg: &str) -> (s: String)
    ensures
        s@ == log_line_text(ts@, level, target@, msg@),
{
    let mut s = to_owned(ts);
    push_str(&mut s, " ");
    push_str(&mut s, level.label());
    push_str(&mut s, " ");
    match level {
        LogLevel::Debug | LogLevel::Trace => {
            push_str(&mut s, target);
            push_str(&mut s, " ");
        },
        _ => {},
    }
    push_str(&mut s, msg);
    push_str(&mut s, "\n");
    s
}

} // verus!

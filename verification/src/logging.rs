//! Logging configuration decisions. Installing a subscriber is the
//! application's job; the library decides the mode and the filter.

use vstd::prelude::*;
use crate::text::str_eq;

verus! {

/// Logging mode for different use cases.
#[derive(Debug, Clone, Copy, PartialEq, Eq, Structural)]
pub enum LoggingMode {
    /// No output (for TUI applications)
    Silent,
    /// Pretty stderr output for development
    Development,
    /// Verbose diagnostics for debugging
    Debug,
}

/// Logging configuration error.
#[derive(Debug)]
pub enum LoggingError {
    /// Failed to initialize the tracing subscriber
    TracingInit(String),
    /// Invalid environment variable
    InvalidEnv(String),
}

/// The mode a `SONOS_LOG_MODE` value selects: "development" and "debug"
/// select those modes; anything else, or no value, is silent.
pub open spec fn mode_from_env_spec(value: Option<Seq<char>>) -> LoggingMode {
    match value {
        Some(v) => if v == "development"@ {
            LoggingMode::Development
        } else if v == "debug"@ {
            LoggingMode::Debug
        } else {
            LoggingMode::Silent
        },
        None => LoggingMode::Silent,
    }
}

/// The logging mode a `SONOS_LOG_MODE` value selects.
pub fn mode_from_env_value(value: Option<&str>) -> (r: LoggingMode)
    ensures
        r == mode_from_env_spec(match value {
            Some(v) => Some(v@),
            None => None,
        }),
{
    match value {
        Some(v) => if str_eq(v, "development") {
            LoggingMode::Development
        } else if str_eq(v, "debug") {
            LoggingMode::Debug
        } else {
            LoggingMode::Silent
        },
        None => LoggingMode::Silent,
    }
}

/// The default filter level of a mode that logs: "info" for development,
/// "debug" for debugging; a silent mode logs nothing.
pub fn default_level(mode: LoggingMode) -> (r: Option<&'static str>)
    ensures
        mode is Silent ==> r is None,
        mode is Development ==> (r matches Some(l) && l@ == "info"@),
        mode is Debug ==> (r matches Some(l) && l@ == "debug"@),
{
    match mode {
        LoggingMode::Silent => None,
        LoggingMode::Development => Some("info"),
        LoggingMode::Debug => Some("debug"),
    }
}

/// The filter directive to use: `SONOS_LOG_LEVEL` if set, else `RUST_LOG`
/// if set, else the mode's default level.
pub fn filter_directive<'a>(sonos_log_level: Option<&'a str>, rust_log: Option<&'a str>, default_level: &'a str) -> (r: &'a str)
    ensures
        r@ == (match sonos_log_level {
            Some(l) => l@,
            None => match rust_log {
                Some(l) => l@,
                None => default_level@,
            },
        }),
{
    match sonos_log_level {
        Some(l) => l,
        None => match rust_log {
            Some(l) => l,
            None => default_level,
        },
    }
}

/// Initializes logging in silent mode: nothing is installed and it cannot
/// fail.
pub fn init_silent() -> (r: Result<(), LoggingError>)
    ensures
        r is Ok,
{
    Ok(())
}

/// Whether a global tracing dispatcher has been installed.
///
/// Calls `tracing::dispatcher::has_been_set`. The answer depends on what
/// this process has done so far; nothing is claimed about it.
#[verifier::external_body]
pub fn is_initialized() -> bool {
    tracing::dispatcher::has_been_set()
}

} // verus!

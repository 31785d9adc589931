//! Configuration values: acceptance of a parsed runtime threshold, and the
//! log verbosity the two CLI switches select.

use vstd::prelude::*;

verus! {

/// Why a configured value was rejected.
#[derive(Debug)]
pub enum ConfigError {
    /// The string is not a valid human-readable duration.
    InvalidDuration,
    /// The duration is too large for this tool's clock arithmetic.
    DurationOutOfRange,
}

/// Accepts or rejects a runtime threshold handed in as the outcome of a
/// duration-string parse: `None` when the string was not a valid duration,
/// `Some` of the parsed length of time in whole milliseconds otherwise.
/// Durations beyond what a signed 64-bit millisecond count can hold are
/// rejected as out of range.
pub fn duration_from_parsed_ms(parsed: Option<u128>) -> (r: Result<i64, ConfigError>)
    ensures
        match r {
            Ok(ms) => parsed == Some(ms as u128) && 0 <= ms,
            Err(ConfigError::InvalidDuration) => parsed is None,
            Err(ConfigError::DurationOutOfRange) => parsed matches Some(v) && v > i64::MAX
                as u128,
        },
{
    match parsed {
        None => Err(ConfigError::InvalidDuration),
        Some(ms) => if ms > i64::MAX as u128 {
            Err(ConfigError::DurationOutOfRange)
        } else {
            Ok(ms as i64)
        },
    }
}

/// Log verbosity, least to most verbose.
#[derive(Clone, Copy, PartialEq, Eq, Structural, Debug)]
pub enum LogLevel {
    /// Only warnings and errors; the default.
    Warn,
    /// Informational messages too.
    Info,
    /// Everything, for maximum verbosity.
    Debug,
}

/// The verbosity the two CLI switches select: debug wins over verbose, and
/// neither means warnings only.
pub fn log_level(verbose: bool, debug: bool) -> (l: LogLevel)
    ensures
        l == if debug {
            LogLevel::Debug
        } else if verbose {
            LogLevel::Info
        } else {
            LogLevel::Warn
        },
{
    if debug {
        LogLevel::Debug
    } else if verbose {
        LogLevel::Info
    } else {
        LogLevel::Warn
    }
}

} // verus!

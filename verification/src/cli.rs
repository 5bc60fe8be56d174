//! Command-line interface module.

use vstd::prelude::*;

verus! {

/// Command-line options, after argument parsing.
pub struct Cli {
    /// Command to run inside the container.
    pub command: Vec<String>,
    /// Path to the config file.
    pub config_file: Option<String>,
    /// Enable additional debug logging.
    pub debug: bool,
    /// Profile path.
    pub profile: Option<String>,
    /// Decrease logging verbosity.
    pub quiet: u8,
    /// Increase logging verbosity.
    pub verbose: u8,
}

/// Logging level selected by the verbosity options.
#[derive(Clone, Copy, Debug, PartialEq, Eq, Structural)]
pub enum LogLevel {
    Off,
    Error,
    Warn,
    Info,
    Debug,
    Trace,
}

/// Verbosity derived from the `--verbose` and `--quiet` counts: warnings and
/// above are shown by default, and each count moves the level by one,
/// saturating at the ends of the `u8` range.
pub open spec fn spec_verbosity(verbose: u8, quiet: u8) -> int {
    let raised: int = if verbose + 2 > u8::MAX { u8::MAX as int } else { verbose + 2 };
    if raised - quiet < 0 {
        0
    } else {
        raised - quiet
    }
}

/// Logging level that a given verbosity selects.
pub open spec fn spec_log_level(verbosity: u8) -> LogLevel {
    if verbosity == 0 {
        LogLevel::Off
    } else if verbosity == 1 {
        LogLevel::Error
    } else if verbosity == 2 {
        LogLevel::Warn
    } else if verbosity == 3 {
        LogLevel::Info
    } else if verbosity == 4 {
        LogLevel::Debug
    } else {
        LogLevel::Trace
    }
}

impl Cli {
    /// Check if additional debug logging is enabled.
    pub fn debug(&self) -> (r: bool)
        ensures
            r == self.debug,
    {
        self.debug
    }

    /// Get logging verbosity.
    pub fn verbosity(&self) -> (r: u8)
        ensures
            r as int == spec_verbosity(self.verbose, self.quiet),
    {
        // Show warnings and above by default
        self.verbose.saturating_add(2).saturating_sub(self.quiet)
    }
}

/// Logging level for a verbosity count: `0` is silent, each step up to `5`
/// enables one more level, and anything higher keeps the most verbose one.
pub fn log_level(verbosity: u8) -> (r: LogLevel)
    ensures
        r == spec_log_level(verbosity),
{
    match verbosity {
        0 => LogLevel::Off,
        1 => LogLevel::Error,
        2 => LogLevel::Warn,
        3 => LogLevel::Info,
        4 => LogLevel::Debug,
        _ => LogLevel::Trace,
    }
}

} // verus!

//! Choices made when setting up logging: the format and the level.

use vstd::prelude::*;
use crate::cli::Cli;
use crate::config::{Config, LevelFilter};

verus! {

/// Format of the log.
#[derive(Debug, Clone, Copy, PartialEq, Eq, Structural)]
pub enum LoggingFormat {
    /// Pretty where standard error is a terminal, JSON elsewhere.
    Auto,
    /// Multi-line messages.
    Pretty,
    /// Human-readable lines.
    Full,
    /// Shorter human-readable lines.
    Compact,
    /// Machine-readable JSON.
    Json,
}

/// The format to log in, given whether standard error is a terminal.
pub fn resolve_format(format: LoggingFormat, stderr_is_tty: bool) -> (r: LoggingFormat)
    ensures
        r == (match format {
            LoggingFormat::Auto => if stderr_is_tty { LoggingFormat::Pretty } else { LoggingFormat::Json },
            f => f,
        }),
        !(r is Auto),
{
    match format {
        LoggingFormat::Auto => if stderr_is_tty { LoggingFormat::Pretty } else { LoggingFormat::Json },
        f => f,
    }
}

/// The most verbose level of the events that are logged; `Off` logs nothing.
#[derive(Debug, Clone, Copy, PartialEq, Eq, Structural)]
pub enum TraceLevel {
    Off,
    Error,
    Warn,
    Info,
    Debug,
    Trace,
}

/// The tracing level of a configured log level.
pub open spec fn spec_level_of(f: LevelFilter) -> TraceLevel {
    match f {
        LevelFilter::Trace => TraceLevel::Trace,
        LevelFilter::Debug => TraceLevel::Debug,
        LevelFilter::Info => TraceLevel::Info,
        LevelFilter::Warn => TraceLevel::Warn,
        LevelFilter::Error => TraceLevel::Error,
    }
}

/// The tracing level of a configured log level.
pub fn level_of(f: LevelFilter) -> (r: TraceLevel)
    ensures
        r == spec_level_of(f),
{
    match f {
        LevelFilter::Trace => TraceLevel::Trace,
        LevelFilter::Debug => TraceLevel::Debug,
        LevelFilter::Info => TraceLevel::Info,
        LevelFilter::Warn => TraceLevel::Warn,
        LevelFilter::Error => TraceLevel::Error,
    }
}

/// The level of the log to standard output for a verbosity.
pub open spec fn verbosity_level(verbose: i8) -> TraceLevel {
    if verbose < 0 { TraceLevel::Off }
    else if verbose == 0 { TraceLevel::Warn }
    else if verbose == 1 { TraceLevel::Info }
    else if verbose == 2 { TraceLevel::Debug }
    else { TraceLevel::Trace }
}

/// Filters log events by level.
pub struct LevelFilterLayer {
    pub level: TraceLevel,
}

impl LevelFilterLayer {
    /// The filter that the command line's verbosity asks for.
    pub fn from_args(args: &Cli) -> (r: LevelFilterLayer)
        ensures
            r.level == verbosity_level(args.verbose),
    {
        let v = args.verbose;
        let level = if v < 0 {
            TraceLevel::Off
        } else if v == 0 {
            TraceLevel::Warn
        } else if v == 1 {
            TraceLevel::Info
        } else if v == 2 {
            TraceLevel::Debug
        } else {
            TraceLevel::Trace
        };
        LevelFilterLayer { level }
    }

    /// The filter that the configuration asks for the log file.
    pub fn from_cfg(cfg: &Config) -> (r: LevelFilterLayer)
        ensures
            r.level == spec_level_of(cfg.log.level),
    {
        LevelFilterLayer { level: level_of(cfg.log.level) }
    }
}

} // verus!

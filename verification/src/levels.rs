//! Verbosity levels, as the library models them.
//!
//! The surrounding application converts between these and the logging
//! crates' own level types; the mapping itself is stated and checked
//! here.

use vstd::prelude::*;

verus! {

/// A log-facade verbosity level.
#[derive(Clone, Copy, Debug, PartialEq, Eq, Structural)]
pub enum LogLevel {
    Error,
    Warn,
    Info,
    Debug,
    Trace,
}

/// A tracing verbosity level.
#[derive(Clone, Copy, Debug, PartialEq, Eq, Structural)]
pub enum TraceLevel {
    Error,
    Warn,
    Info,
    Debug,
    Trace,
}

/// The tracing level that corresponds to a log level.
pub open spec fn log_tracing_level_spec(level: LogLevel) -> TraceLevel {
    match level {
        LogLevel::Trace => TraceLevel::Trace,
        LogLevel::Debug => TraceLevel::Debug,
        LogLevel::Info => TraceLevel::Info,
        LogLevel::Warn => TraceLevel::Warn,
        LogLevel::Error => TraceLevel::Error,
    }
}

/// Map a log level to the tracing level of the same severity.
pub fn log_tracing_level(level: &LogLevel) -> (r: TraceLevel)
    ensures
        r == log_tracing_level_spec(*level),
{
    match level {
        LogLevel::Trace => TraceLevel::Trace,
        LogLevel::Debug => TraceLevel::Debug,
        LogLevel::Info => TraceLevel::Info,
        LogLevel::Warn => TraceLevel::Warn,
        LogLevel::Error => TraceLevel::Error,
    }
}

} // verus!

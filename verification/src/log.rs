//! The optional log side-channel: leveled text records forwarded to the
//! host's logging sink.
//!
//! The decision logic lives here and is verified: mapping a trace
//! verbosity onto the host's four log levels, and forwarding a record only
//! when the host reports that level as enabled. Forwarding is best-effort
//! and never fails the caller; the native sink call itself stays outside
//! this layer.

use vstd::prelude::*;
use vstd::string::StringExecFns;

verus! {

/// Native code of the info log level.
pub const LOG_LEVEL_INFO: u32 = 0;

/// Native code of the warning log level.
pub const LOG_LEVEL_WARN: u32 = 1;

/// Native code of the error log level.
pub const LOG_LEVEL_ERROR: u32 = 2;

/// Native code of the verbose log level.
pub const LOG_LEVEL_VERBOSE: u32 = 3;

/// A trace event's verbosity, as the plugin's own instrumentation grades
/// it, most severe first.
#[derive(Debug, Clone, Copy, PartialEq, Eq, Structural)]
pub enum TraceLevel {
    /// An error.
    Error,
    /// A warning.
    Warn,
    /// Informational.
    Info,
    /// Debugging detail.
    Debug,
    /// Finest-grained detail.
    Trace,
}

/// The host's log levels.
#[derive(Debug, Clone, Copy, PartialEq, Eq, Structural)]
pub enum TritonLogLevel {
    /// TRITONSERVER_LOG_VERBOSE
    Verbose,
    /// TRITONSERVER_LOG_INFO
    Info,
    /// TRITONSERVER_LOG_WARN
    Warning,
    /// TRITONSERVER_LOG_ERROR
    Error,
}

impl TritonLogLevel {
    /// The host log level a trace verbosity maps onto: errors and warnings
    /// keep their grade, informational events stay informational, and both
    /// debugging grades collapse into verbose.
    pub open spec fn spec_from_trace(level: TraceLevel) -> TritonLogLevel {
        match level {
            TraceLevel::Error => TritonLogLevel::Error,
            TraceLevel::Warn => TritonLogLevel::Warning,
            TraceLevel::Info => TritonLogLevel::Info,
            TraceLevel::Debug => TritonLogLevel::Verbose,
            TraceLevel::Trace => TritonLogLevel::Verbose,
        }
    }

    /// The host log level a trace verbosity maps onto.
    pub fn from_trace(level: TraceLevel) -> (r: TritonLogLevel)
        ensures
            r == TritonLogLevel::spec_from_trace(level),
    {
        match level {
            TraceLevel::Error => TritonLogLevel::Error,
            TraceLevel::Warn => TritonLogLevel::Warning,
            TraceLevel::Info => TritonLogLevel::Info,
            TraceLevel::Debug => TritonLogLevel::Verbose,
            TraceLevel::Trace => TritonLogLevel::Verbose,
        }
    }

    /// The native numeric code of this log level.
    pub open spec fn spec_code(self) -> u32 {
        match self {
            TritonLogLevel::Info => LOG_LEVEL_INFO,
            TritonLogLevel::Warning => LOG_LEVEL_WARN,
            TritonLogLevel::Error => LOG_LEVEL_ERROR,
            TritonLogLevel::Verbose => LOG_LEVEL_VERBOSE,
        }
    }

    /// The native numeric code of this log level.
    pub fn code(self) -> (r: u32)
        ensures
            r == self.spec_code(),
    {
        match self {
            TritonLogLevel::Info => LOG_LEVEL_INFO,
            TritonLogLevel::Warning => LOG_LEVEL_WARN,
            TritonLogLevel::Error => LOG_LEVEL_ERROR,
            TritonLogLevel::Verbose => LOG_LEVEL_VERBOSE,
        }
    }
}

/// One leveled text record ready for the host's logging sink: the native
/// level code, the source file and line the event came from, and the
/// message text.
pub struct LogRecord {
    /// The native code of the record's log level.
    pub level: u32,
    /// The source file the event came from.
    pub file: String,
    /// The source line the event came from.
    pub line: u32,
    /// The record's message text.
    pub message: String,
}

/// A logger that forwards trace events to the host's log system.
pub struct TritonLogger;

impl TritonLogger {
    /// The decision half of forwarding one trace event: maps the event's
    /// verbosity onto the host's level, and builds a record exactly when
    /// the host reports that level as enabled. A disabled level forwards
    /// nothing, and nothing here can fail the caller.
    pub fn on_event(&self, enabled: bool, level: TraceLevel, file: &str, line: u32, message: &str)
        -> (r: Option<LogRecord>)
        ensures
            r is Some <==> enabled,
            r matches Some(rec) ==> {
                &&& rec.level == TritonLogLevel::spec_from_trace(level).spec_code()
                &&& rec.file@ == file@
                &&& rec.line == line
                &&& rec.message@ == message@
            },
    {
        if enabled {
            let triton_level = TritonLogLevel::from_trace(level);
            Some(
                LogRecord {
                    level: triton_level.code(),
                    file: String::from_str(file),
                    line,
                    message: String::from_str(message),
                },
            )
        } else {
            None
        }
    }
}

} // verus!

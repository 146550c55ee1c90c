use triton_rs::log::{
    TraceLevel, TritonLogLevel, LOG_LEVEL_ERROR, LOG_LEVEL_INFO, LOG_LEVEL_VERBOSE, LOG_LEVEL_WARN,
};
use triton_rs::TritonLogger;

#[test]
fn level_codes_match_native_enumeration() {
    assert_eq!(LOG_LEVEL_INFO, 0);
    assert_eq!(LOG_LEVEL_WARN, 1);
    assert_eq!(LOG_LEVEL_ERROR, 2);
    assert_eq!(LOG_LEVEL_VERBOSE, 3);
}

#[test]
fn trace_levels_map_onto_host_levels() {
    assert_eq!(TritonLogLevel::from_trace(TraceLevel::Error), TritonLogLevel::Error);
    assert_eq!(TritonLogLevel::from_trace(TraceLevel::Warn), TritonLogLevel::Warning);
    assert_eq!(TritonLogLevel::from_trace(TraceLevel::Info), TritonLogLevel::Info);
    assert_eq!(TritonLogLevel::from_trace(TraceLevel::Debug), TritonLogLevel::Verbose);
    assert_eq!(TritonLogLevel::from_trace(TraceLevel::Trace), TritonLogLevel::Verbose);
}

#[test]
fn enabled_event_builds_a_full_record() {
    let logger = TritonLogger;
    let record = logger
        .on_event(true, TraceLevel::Warn, "backend.rs", 42, "queue is backing up")
        .expect("enabled level must forward");
    assert_eq!(record.level, LOG_LEVEL_WARN);
    assert_eq!(record.file, "backend.rs");
    assert_eq!(record.line, 42);
    assert_eq!(record.message, "queue is backing up");
}

#[test]
fn disabled_event_forwards_nothing() {
    let logger = TritonLogger;
    assert!(logger.on_event(false, TraceLevel::Error, "a.rs", 1, "dropped").is_none());
}

#[test]
fn debug_event_is_forwarded_as_verbose() {
    let logger = TritonLogger;
    let record = logger.on_event(true, TraceLevel::Debug, "a.rs", 7, "detail").unwrap();
    assert_eq!(record.level, LOG_LEVEL_VERBOSE);
}

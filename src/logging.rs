//! Structured log events: which level and fields an event gets. Emitting them
//! is left to the program that holds the log sink.
use vstd::prelude::*;
use crate::text::{int_text, owned, text_eq, decimal_text};

verus! {

/// Severity of a log event.
#[derive(Debug, Clone, Copy, PartialEq, Eq, Structural)]
pub enum LogLevel {
    Info,
    Warn,
    Error,
}

/// A log event: its level, its message and its named fields.
#[derive(Debug, Clone)]
pub struct LogEvent {
    pub level: LogLevel,
    pub message: String,
    pub fields: Vec<(String, String)>,
}

pub open spec fn field_views(f: Seq<(String, String)>) -> Seq<(Seq<char>, Seq<char>)> {
    f.map_values(|p: (String, String)| (p.0@, p.1@))
}

fn field(name: &str, value: &str) -> (r: (String, String))
    ensures
        r.0@ == name@,
        r.1@ == value@,
{
    (owned(name), owned(value))
}

/// A significant system event, at info level.
pub fn log_system_event(event_type: &str, component: &str, details: &str) -> (r: LogEvent)
    ensures
        r.level == LogLevel::Info,
        r.message@ == "System event occurred"@,
        field_views(r.fields@) == seq![
            ("event_type"@, event_type@),
            ("component"@, component@),
            ("details"@, details@),
        ],
{
    let mut fields: Vec<(String, String)> = Vec::new();
    fields.push(field("event_type", event_type));
    fields.push(field("component", component));
    fields.push(field("details", details));
    let r = LogEvent { level: LogLevel::Info, message: owned("System event occurred"), fields };
    assert(field_views(r.fields@) =~= seq![("event_type"@, event_type@), ("component"@, component@), ("details"@, details@)]);
    r
}

/// A timing measurement: info when the operation succeeded, warning when not.
pub fn log_performance_metric(operation: &str, duration_ms: u64, success: bool) -> (r: LogEvent)
    ensures
        r.level == if success { LogLevel::Info } else { LogLevel::Warn },
        r.message@ == "Performance metric"@,
        field_views(r.fields@) == seq![
            ("operation"@, operation@),
            ("duration_ms"@, decimal_text(duration_ms as int)),
            ("status"@, if success { "success"@ } else { "failure"@ }),
        ],
{
    let mut fields: Vec<(String, String)> = Vec::new();
    fields.push(field("operation", operation));
    fields.push((owned("duration_ms"), int_text(duration_ms as i128)));
    let status = if success { "success" } else { "failure" };
    fields.push(field("status", status));
    let level = if success { LogLevel::Info } else { LogLevel::Warn };
    let r = LogEvent { level, message: owned("Performance metric"), fields };
    assert(field_views(r.fields@) =~= seq![
        ("operation"@, operation@),
        ("duration_ms"@, decimal_text(duration_ms as int)),
        ("status"@, if success { "success"@ } else { "failure"@ }),
    ]);
    r
}

/// The level of a security event: error for `critical` and `high`, warning
/// for `medium`, info otherwise.
pub open spec fn security_level(severity: Seq<char>) -> LogLevel {
    if severity == "critical"@ || severity == "high"@ {
        LogLevel::Error
    } else if severity == "medium"@ {
        LogLevel::Warn
    } else {
        LogLevel::Info
    }
}

/// A security event, at the level its severity calls for.
pub fn log_security_event(event: &str, source: &str, severity: &str) -> (r: LogEvent)
    ensures
        r.level == security_level(severity@),
        r.message@ == "Security event detected"@,
        field_views(r.fields@) == seq![
            ("security_event"@, event@),
            ("source"@, source@),
            ("severity"@, severity@),
        ],
{
    let level = if text_eq(severity, "critical") || text_eq(severity, "high") {
        LogLevel::Error
    } else if text_eq(severity, "medium") {
        LogLevel::Warn
    } else {
        LogLevel::Info
    };
    let mut fields: Vec<(String, String)> = Vec::new();
    fields.push(field("security_event", event));
    fields.push(field("source", source));
    fields.push(field("severity", severity));
    let r = LogEvent { level, message: owned("Security event detected"), fields };
    assert(field_views(r.fields@) =~= seq![("security_event"@, event@), ("source"@, source@), ("severity"@, severity@)]);
    r
}

} // verus!

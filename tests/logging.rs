use pullpiri::logging::{log_performance_metric, log_security_event, log_system_event, LogLevel};

#[test]
fn test_log_functions() {
    log_system_event("test_event", "test_component", "test details");
    log_performance_metric("test_operation", 100, true);
    log_performance_metric("test_operation", 200, false);
    log_security_event("test_security", "test_source", "high");
    log_security_event("test_security", "test_source", "low");
}

#[test]
fn security_levels_follow_severity() {
    assert_eq!(log_security_event("e", "s", "critical").level, LogLevel::Error);
    assert_eq!(log_security_event("e", "s", "high").level, LogLevel::Error);
    assert_eq!(log_security_event("e", "s", "medium").level, LogLevel::Warn);
    assert_eq!(log_security_event("e", "s", "low").level, LogLevel::Info);
}

#[test]
fn performance_metric_fields() {
    let ok = log_performance_metric("op", 100, true);
    assert_eq!(ok.level, LogLevel::Info);
    assert_eq!(ok.fields[1].1, "100");
    assert_eq!(ok.fields[2].1, "success");
    let bad = log_performance_metric("op", 200, false);
    assert_eq!(bad.level, LogLevel::Warn);
    assert_eq!(bad.fields[2].1, "failure");
}

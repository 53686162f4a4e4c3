use pullpiri::agent::{AgentAction, AgentEvent, HeartbeatState};
use pullpiri::config::{connect_server, get_local_ip, open_rest_server, open_server};
use pullpiri::monitoring::{
    analyze_container_stats, analyze_cpu_usage, analyze_memory_usage, parse_u64, validate_monitoring_settings, LoadLevel,
    MonitoringSettings,
};
use pullpiri::textmap::TextMap;

fn stats(pairs: &[(&str, &str)]) -> TextMap<String> {
    let mut m = TextMap::new();
    for (k, v) in pairs {
        m.insert(k.to_string(), v.to_string());
    }
    m
}

#[test]
fn cpu_and_memory_levels() {
    assert_eq!(analyze_cpu_usage(1000, 100, 200), LoadLevel::Normal);
    assert_eq!(analyze_cpu_usage(1000, 400, 450), LoadLevel::High);
    assert_eq!(analyze_cpu_usage(1000, 500, 451), LoadLevel::Critical);
    assert_eq!(analyze_cpu_usage(1000, 500, 450), LoadLevel::High);
    assert_eq!(analyze_cpu_usage(0, 5, 5), LoadLevel::Normal);
    assert_eq!(analyze_memory_usage(96, 100), Some(LoadLevel::Critical));
    assert_eq!(analyze_memory_usage(10, 0), None);
    assert_eq!(analyze_cpu_usage(u64::MAX, u64::MAX, u64::MAX), LoadLevel::Critical);
}

#[test]
fn container_stats_report() {
    let r = analyze_container_stats(&stats(&[
        ("CpuTotalUsage", "1000"),
        ("CpuUsageInKernelMode", "500"),
        ("CpuUsageInUserMode", "460"),
        ("MemoryUsage", "10"),
        ("MemoryLimit", "0"),
        ("Networks", "None"),
    ]));
    assert_eq!(r.cpu, Some(LoadLevel::Critical));
    assert_eq!(r.memory, None);
    assert_eq!(r.network, Some(false));
    let r = analyze_container_stats(&stats(&[("CpuTotalUsage", "x"), ("CpuUsageInKernelMode", "1"), ("CpuUsageInUserMode", "1")]));
    assert_eq!(r.cpu, None);
    assert_eq!(r.network, None);
}

#[test]
fn decimal_parsing() {
    assert_eq!(parse_u64("42"), Some(42));
    assert_eq!(parse_u64("+7"), Some(7));
    assert_eq!(parse_u64("18446744073709551615"), Some(u64::MAX));
    assert_eq!(parse_u64("18446744073709551616"), None);
    assert_eq!(parse_u64(""), None);
    assert_eq!(parse_u64("+"), None);
    assert_eq!(parse_u64("-1"), None);
    assert_eq!(parse_u64("1.5"), None);
}

#[test]
fn monitoring_settings_validation() {
    let mut s = MonitoringSettings::default_settings();
    assert!(validate_monitoring_settings(&s).is_ok());
    s.resource_alert_threshold = 101;
    assert_eq!(validate_monitoring_settings(&s).unwrap_err(), "Resource alert threshold must be between 0 and 100");
    s.resource_alert_threshold = 80;
    s.id = String::new();
    assert_eq!(validate_monitoring_settings(&s).unwrap_err(), "Settings ID cannot be empty");
}

#[test]
fn server_addresses() {
    assert_eq!(open_server("10.0.0.2"), "10.0.0.2:47001");
    assert_eq!(open_rest_server("10.0.0.2"), "10.0.0.2:47099");
    assert_eq!(connect_server("10.0.0.2"), "http://10.0.0.2:47001");
    assert_eq!(get_local_ip("0.0.0.0"), "127.0.0.1");
    assert_eq!(get_local_ip(""), "127.0.0.1");
    assert_eq!(get_local_ip("192.168.1.9"), "192.168.1.9");
}

#[test]
fn heartbeat_loop_reregisters_after_failure() {
    let mut s = HeartbeatState::new();
    assert_eq!(s.step(AgentEvent::Tick), AgentAction::Register);
    assert_eq!(s.step(AgentEvent::Registered(true)), AgentAction::SendHeartbeat);
    assert_eq!(s.step(AgentEvent::HeartbeatSent(true)), AgentAction::WaitForTick);
    assert_eq!(s.step(AgentEvent::Tick), AgentAction::SendHeartbeat);
    assert_eq!(s.step(AgentEvent::HeartbeatSent(false)), AgentAction::WaitForTick);
    assert_eq!(s.step(AgentEvent::Tick), AgentAction::Register);
    assert_eq!(s.step(AgentEvent::Registered(false)), AgentAction::WaitForTick);
    assert!(!s.connected);
}

#[test]
fn test_validation_invalid_settings() {
    let mut settings = MonitoringSettings::default();
    settings.id = "".to_string();
    assert!(validate_monitoring_settings(&settings).is_err());
    settings.id = "test".to_string();
    settings.monitoring_interval = 0;
    assert!(validate_monitoring_settings(&settings).is_err());
    settings.monitoring_interval = 30;
    settings.resource_alert_threshold = 150;
    assert!(validate_monitoring_settings(&settings).is_err());
}

#[test]
fn test_validation_valid_settings() {
    let settings = MonitoringSettings::default();
    assert!(validate_monitoring_settings(&settings).is_ok());
}

#[test]
fn test_monitoring_settings_default() {
    let settings = MonitoringSettings::default();
    assert_eq!(settings.id, "default");
    assert_eq!(settings.monitoring_interval, 30);
    assert!(settings.container_monitoring_enabled);
    assert_eq!(settings.resource_alert_threshold, 80);
    assert_eq!(settings.data_retention_days, 30);
    assert!(!settings.detailed_logging);
}

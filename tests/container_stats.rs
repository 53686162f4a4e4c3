use pullpiri::monitoring::{analyze_container_stats, LoadLevel};
use pullpiri::textmap::TextMap;

fn stats(pairs: &[(&str, &str)]) -> TextMap<String> {
    let mut m = TextMap::new();
    for (k, v) in pairs {
        m.insert(k.to_string(), v.to_string());
    }
    m
}

#[test]
fn test_analyze_container_stats_normal_cpu() {
    let r = analyze_container_stats(&stats(&[
        ("CpuTotalUsage", "1000000000"),
        ("CpuUsageInKernelMode", "200000000"),
        ("CpuUsageInUserMode", "300000000"),
        ("MemoryUsage", "524288000"),
        ("MemoryLimit", "1048576000"),
        ("Networks", "eth0: {rx_bytes: 1024, tx_bytes: 2048}"),
    ]));
    assert_eq!(r.cpu, Some(LoadLevel::Normal));
    assert_eq!(r.memory, Some(LoadLevel::Normal));
    assert_eq!(r.network, Some(true));
}

#[test]
fn test_analyze_container_stats_high_cpu() {
    let r = analyze_container_stats(&stats(&[
        ("CpuTotalUsage", "1000000000"),
        ("CpuUsageInKernelMode", "400000000"),
        ("CpuUsageInUserMode", "450000000"),
        ("MemoryUsage", "524288000"),
        ("MemoryLimit", "1048576000"),
    ]));
    assert_eq!(r.cpu, Some(LoadLevel::High));
    assert_eq!(r.network, None);
}

#[test]
fn test_analyze_container_stats_critical_memory() {
    let r = analyze_container_stats(&stats(&[
        ("CpuTotalUsage", "1000000000"),
        ("CpuUsageInKernelMode", "100000000"),
        ("CpuUsageInUserMode", "200000000"),
        ("MemoryUsage", "1006632960"),
        ("MemoryLimit", "1048576000"),
    ]));
    assert_eq!(r.cpu, Some(LoadLevel::Normal));
    assert_eq!(r.memory, Some(LoadLevel::Critical));
}

#[test]
fn test_analyze_container_stats_no_network() {
    let r = analyze_container_stats(&stats(&[
        ("CpuTotalUsage", "1000000000"),
        ("CpuUsageInKernelMode", "100000000"),
        ("CpuUsageInUserMode", "200000000"),
        ("MemoryUsage", "524288000"),
        ("MemoryLimit", "1048576000"),
        ("Networks", "None"),
    ]));
    assert_eq!(r.network, Some(false));
}

#[test]
fn test_analyze_container_stats_invalid_data() {
    let r = analyze_container_stats(&stats(&[
        ("CpuTotalUsage", "invalid-number"),
        ("CpuUsageInKernelMode", "not-a-number"),
        ("MemoryUsage", "also-invalid"),
    ]));
    assert_eq!(r.cpu, None);
    assert_eq!(r.memory, None);
    assert_eq!(r.network, None);
}

#[test]
fn test_analyze_container_stats_zero_memory_limit() {
    let r = analyze_container_stats(&stats(&[
        ("CpuTotalUsage", "1000000000"),
        ("CpuUsageInKernelMode", "100000000"),
        ("CpuUsageInUserMode", "200000000"),
        ("MemoryUsage", "524288000"),
        ("MemoryLimit", "0"),
    ]));
    assert_eq!(r.cpu, Some(LoadLevel::Normal));
    assert_eq!(r.memory, None);
}

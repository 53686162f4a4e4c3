//! Container statistics analysis and monitoring settings.
use vstd::prelude::*;
use crate::text::owned;

verus! {

/// How loaded a container is.
#[derive(Debug, Clone, Copy, PartialEq, Eq, Structural)]
pub enum LoadLevel {
    Normal,
    High,
    Critical,
}

/// Usage above this share, in hundredths, is critical.
pub const CRITICAL_PERCENT: u64 = 95;
/// Usage above this share, in hundredths, is high.
pub const HIGH_PERCENT: u64 = 80;

/// The level of a used/total ratio: above 95% critical, above 80% high.
pub open spec fn level_of(used: int, total: int) -> LoadLevel {
    if 100 * used > CRITICAL_PERCENT * total {
        LoadLevel::Critical
    } else if 100 * used > HIGH_PERCENT * total {
        LoadLevel::High
    } else {
        LoadLevel::Normal
    }
}

fn level(used: u128, total: u128) -> (r: LoadLevel)
    requires
        used <= u64::MAX as u128 * 2,
        total <= u64::MAX as u128,
    ensures
        r == level_of(used as int, total as int),
{
    if 100 * used > (CRITICAL_PERCENT as u128) * total {
        LoadLevel::Critical
    } else if 100 * used > (HIGH_PERCENT as u128) * total {
        LoadLevel::High
    } else {
        LoadLevel::Normal
    }
}

/// CPU load from cumulative counters: the share of kernel plus user time in
/// the total; a zero total counts as no load.
pub fn analyze_cpu_usage(total_usage: u64, kernel_usage: u64, user_usage: u64) -> (r: LoadLevel)
    ensures
        total_usage == 0 ==> r == LoadLevel::Normal,
        total_usage > 0 ==> r == level_of(kernel_usage + user_usage, total_usage as int),
{
    if total_usage == 0 {
        return LoadLevel::Normal;
    }
    level(kernel_usage as u128 + user_usage as u128, total_usage as u128)
}

/// Memory load: the share of usage in the limit; a zero limit means no limit
/// and gives no level.
pub fn analyze_memory_usage(usage: u64, limit: u64) -> (r: Option<LoadLevel>)
    ensures
        limit == 0 ==> r is None,
        limit > 0 ==> r == Some(level_of(usage as int, limit as int)),
{
    if limit == 0 {
        return None;
    }
    Some(level(usage as u128, limit as u128))
}

/// Network information is present unless it is empty or `None`.
pub fn analyze_network_stats(networks: &str) -> (r: bool)
    ensures
        r == !(networks@ == "None"@ || networks@.len() == 0),
{
    !(crate::text::text_eq(networks, "None") || networks.unicode_len() == 0)
}

/// Settings of the monitoring service.
#[derive(Debug, Clone)]
pub struct MonitoringSettings {
    pub id: String,
    /// Seconds between checks.
    pub monitoring_interval: u64,
    pub container_monitoring_enabled: bool,
    /// Percent of a resource at which to alert.
    pub resource_alert_threshold: u8,
    pub data_retention_days: u32,
    pub detailed_logging: bool,
}

impl MonitoringSettings {
    /// The `default` settings: every 30 s, containers on, alert at 80%, 30 days kept.
    pub fn default_settings() -> (r: MonitoringSettings)
        ensures
            r.id@ == "default"@,
            r.monitoring_interval == 30,
            r.container_monitoring_enabled,
            r.resource_alert_threshold == 80,
            r.data_retention_days == 30,
            !r.detailed_logging,
    {
        MonitoringSettings {
            id: owned("default"),
            monitoring_interval: 30,
            container_monitoring_enabled: true,
            resource_alert_threshold: 80,
            data_retention_days: 30,
            detailed_logging: false,
        }
    }
}

impl Default for MonitoringSettings {
    fn default() -> (r: MonitoringSettings)
        ensures
            r.id@ == "default"@,
            r.monitoring_interval == 30,
            r.resource_alert_threshold == 80,
            r.data_retention_days == 30,
    {
        MonitoringSettings::default_settings()
    }
}

/// The first thing wrong with some settings, if any.
pub open spec fn settings_problem(s: MonitoringSettings) -> Option<Seq<char>> {
    if s.id@.len() == 0 {
        Some("Settings ID cannot be empty"@)
    } else if s.monitoring_interval == 0 {
        Some("Monitoring interval must be greater than 0"@)
    } else if s.resource_alert_threshold > 100 {
        Some("Resource alert threshold must be between 0 and 100"@)
    } else if s.data_retention_days == 0 {
        Some("Data retention days must be greater than 0"@)
    } else {
        None
    }
}

/// Checks that settings have an id, a positive interval and retention, and a
/// threshold of at most 100.
pub fn validate_monitoring_settings(settings: &MonitoringSettings) -> (r: Result<(), String>)
    ensures
        match settings_problem(*settings) {
            Some(m) => r is Err && r->Err_0@ == m,
            None => r is Ok,
        },
{
    if settings.id.as_str().unicode_len() == 0 {
        return Err(owned("Settings ID cannot be empty"));
    }
    if settings.monitoring_interval == 0 {
        return Err(owned("Monitoring interval must be greater than 0"));
    }
    if settings.resource_alert_threshold > 100 {
        return Err(owned("Resource alert threshold must be between 0 and 100"));
    }
    if settings.data_retention_days == 0 {
        return Err(owned("Data retention days must be greater than 0"));
    }
    Ok(())
}

} // verus!

verus! {

pub open spec fn is_digit(c: char) -> bool {
    '0' <= c && c <= '9'
}

/// The value of a run of decimal digits.
pub open spec fn digits_value(s: Seq<char>) -> int
    decreases s.len(),
{
    if s.len() == 0 {
        0
    } else {
        digits_value(s.drop_last()) * 10 + (s.last() as int - '0' as int)
    }
}

/// `s` without a leading `+`.
pub open spec fn unsigned_body(s: Seq<char>) -> Seq<char> {
    if s.len() > 0 && s[0] == '+' { s.drop_first() } else { s }
}

pub open spec fn all_digits(s: Seq<char>) -> bool {
    forall|i: int| 0 <= i < s.len() ==> is_digit(#[trigger] s[i])
}

/// What `str::parse::<u64>` gives: an optional `+`, then one or more digits
/// whose value fits.
pub open spec fn parsed_u64(s: Seq<char>) -> Option<u64> {
    let body = unsigned_body(s);
    if body.len() > 0 && all_digits(body) && digits_value(body) <= u64::MAX {
        Some(digits_value(body) as u64)
    } else {
        None
    }
}

proof fn lemma_digits_grow(s: Seq<char>)
    requires
        forall|i: int| 0 <= i < s.len() ==> is_digit(#[trigger] s[i]),
    ensures
        digits_value(s) >= 0,
    decreases s.len(),
{
    if s.len() > 0 {
        lemma_digits_grow(s.drop_last());
    }
}

/// The unsigned value of decimal text.
pub fn parse_u64(s: &str) -> (r: Option<u64>)
    ensures
        r == parsed_u64(s@),
{
    let n = s.unicode_len();
    let mut start: usize = 0;
    if n > 0 && s.get_char(0) == '+' {
        start = 1;
    }
    let ghost body = unsigned_body(s@);
    assert(body =~= s@.subrange(start as int, n as int));
    if start >= n {
        return None;
    }
    let mut acc: u128 = 0;
    let mut over = false;
    let mut i: usize = start;
    while i < n
        invariant
            n == s@.len(),
            start <= i <= n,
            body == s@.subrange(start as int, n as int),
            body == unsigned_body(s@),
            forall|j: int| start <= j < i ==> is_digit(#[trigger] s@[j]),
            !over ==> acc as int == digits_value(s@.subrange(start as int, i as int)) && acc <= u64::MAX,
            over ==> digits_value(s@.subrange(start as int, i as int)) > u64::MAX,
        decreases n - i,
    {
        let c = s.get_char(i);
        if !('0' <= c && c <= '9') {
            proof {
                assert(body[i - start] == c);
                assert(!is_digit(body[i - start]));
                assert(!(forall|j: int| 0 <= j < body.len() ==> is_digit(#[trigger] body[j])));
            }
            return None;
        }
        let ghost prefix = s@.subrange(start as int, i as int);
        let ghost next = s@.subrange(start as int, i as int + 1);
        assert(next.drop_last() =~= prefix);
        assert(next.last() == c);
        proof {
            assert forall|j: int| 0 <= j < prefix.len() implies is_digit(#[trigger] prefix[j]) by {
                assert(prefix[j] == s@[start + j]);
            }
            lemma_digits_grow(prefix);
        }
        if !over {
            let d = (c as u32 - '0' as u32) as u128;
            acc = acc * 10 + d;
            if acc > u64::MAX as u128 {
                over = true;
            }
        }
        i = i + 1;
    }
    proof {
        assert forall|j: int| 0 <= j < body.len() implies is_digit(#[trigger] body[j]) by {
            assert(body[j] == s@[start + j]);
        }
    }
    if over {
        None
    } else {
        Some(acc as u64)
    }
}

/// What the statistics of one container say.
#[derive(Debug, Clone, Copy, PartialEq, Eq, Structural)]
pub struct ContainerStatsReport {
    /// CPU level, when the three CPU counters are present and numeric.
    pub cpu: Option<LoadLevel>,
    /// Memory level, when usage and a non-zero limit are present and numeric.
    pub memory: Option<LoadLevel>,
    /// Whether network information is present, when the field is there.
    pub network: Option<bool>,
}

pub open spec fn stat(stats: Map<Seq<char>, String>, key: Seq<char>) -> Option<u64> {
    if stats.contains_key(key) { parsed_u64(stats[key]@) } else { None }
}

/// The report the statistics give.
pub open spec fn stats_report(stats: Map<Seq<char>, String>) -> ContainerStatsReport {
    let total = stat(stats, "CpuTotalUsage"@);
    let kernel = stat(stats, "CpuUsageInKernelMode"@);
    let user = stat(stats, "CpuUsageInUserMode"@);
    let usage = stat(stats, "MemoryUsage"@);
    let limit = stat(stats, "MemoryLimit"@);
    ContainerStatsReport {
        cpu: if total is Some && kernel is Some && user is Some {
            Some(if total->Some_0 == 0 {
                LoadLevel::Normal
            } else {
                level_of(kernel->Some_0 + user->Some_0, total->Some_0 as int)
            })
        } else {
            None
        },
        memory: if usage is Some && limit is Some && limit->Some_0 > 0 {
            Some(level_of(usage->Some_0 as int, limit->Some_0 as int))
        } else {
            None
        },
        network: if stats.contains_key("Networks"@) {
            Some(!(stats["Networks"@]@ == "None"@ || stats["Networks"@]@.len() == 0))
        } else {
            None
        },
    }
}

fn stat_value(stats: &crate::textmap::TextMap<String>, key: &str) -> (r: Option<u64>)
    ensures
        r == stat(stats@, key@),
{
    match stats.get(key) {
        Some(v) => parse_u64(v.as_str()),
        None => None,
    }
}

/// Reads CPU, memory and network figures of a container; fields that are
/// missing or not numeric are left out.
pub fn analyze_container_stats(stats: &crate::textmap::TextMap<String>) -> (r: ContainerStatsReport)
    ensures
        r == stats_report(stats@),
{
    let total = stat_value(stats, "CpuTotalUsage");
    let kernel = stat_value(stats, "CpuUsageInKernelMode");
    let user = stat_value(stats, "CpuUsageInUserMode");
    let cpu = match (total, kernel, user) {
        (Some(t), Some(k), Some(u)) => Some(analyze_cpu_usage(t, k, u)),
        _ => None,
    };
    let usage = stat_value(stats, "MemoryUsage");
    let limit = stat_value(stats, "MemoryLimit");
    let memory = match (usage, limit) {
        (Some(u), Some(l)) => analyze_memory_usage(u, l),
        _ => None,
    };
    let network = match stats.get("Networks") {
        Some(n) => Some(analyze_network_stats(n.as_str())),
        None => None,
    };
    ContainerStatsReport { cpu, memory, network }
}

} // verus!

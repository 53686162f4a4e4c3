//! Per-component error counters kept by the error collector.
use vstd::prelude::*;
use crate::textmap::TextMap;

verus! {

/// A report of one error by one component.
#[derive(Debug, Clone)]
pub struct ErrorReport {
    pub error: String,
    pub component: String,
    /// Unix seconds.
    pub timestamp: i64,
    pub context: Option<String>,
}

impl ErrorReport {
    /// A report without context.
    pub fn new(error: String, component: String, timestamp: i64) -> (r: ErrorReport)
        ensures
            r.error == error && r.component == component && r.timestamp == timestamp && r.context is None,
    {
        ErrorReport { error, component, timestamp, context: None }
    }

    /// The same report with context.
    pub fn with_context(self, context: String) -> (r: ErrorReport)
        ensures
            r.error == self.error && r.component == self.component && r.timestamp == self.timestamp,
            r.context == Some(context),
    {
        let mut r = self;
        r.context = Some(context);
        r
    }
}

/// Errors counted for one component.
#[derive(Debug, Clone, Copy, PartialEq, Eq, Structural)]
pub struct ComponentErrorStats {
    pub total_errors: u64,
    /// Unix seconds of the latest error.
    pub last_error: Option<i64>,
}

/// Counts above this many, read as errors per hour, exceed ten a minute.
pub const HIGH_ERROR_TOTAL: u64 = 600;

impl ComponentErrorStats {
    /// No errors yet.
    pub fn new() -> (r: ComponentErrorStats)
        ensures
            r.total_errors == 0 && r.last_error is None,
    {
        ComponentErrorStats { total_errors: 0, last_error: None }
    }

    /// Counts one more error at time `now`.
    pub fn record_error(&mut self, now: i64)
        ensures
            final(self).total_errors == if old(self).total_errors < u64::MAX { old(self).total_errors + 1 } else { old(self).total_errors as int },
            final(self).last_error == Some(now),
    {
        if self.total_errors < u64::MAX {
            self.total_errors = self.total_errors + 1;
        }
        self.last_error = Some(now);
    }

    /// The rough rate, total errors over sixty, is above ten a minute.
    pub fn rate_is_high(&self) -> (r: bool)
        ensures
            r == (self.total_errors > HIGH_ERROR_TOTAL),
    {
        self.total_errors > HIGH_ERROR_TOTAL
    }
}

/// The collector's table of counters by component.
pub struct ErrorCollector {
    stats: TextMap<ComponentErrorStats>,
}

impl ErrorCollector {
    pub closed spec fn table(&self) -> Map<Seq<char>, ComponentErrorStats> {
        self.stats@
    }

    /// An empty table.
    pub fn new() -> (r: ErrorCollector)
        ensures
            r.table() == Map::<Seq<char>, ComponentErrorStats>::empty(),
    {
        ErrorCollector { stats: TextMap::new() }
    }

    /// Counts a report against its component; true when that component's rate is now high.
    pub fn handle_error_report(&mut self, report: &ErrorReport) -> (r: bool)
        ensures
            final(self).table() == old(self).table().insert(report.component@, final(self).table()[report.component@]),
            final(self).table()[report.component@].last_error == Some(report.timestamp),
            final(self).table()[report.component@].total_errors as int == ({
                let before: int = if old(self).table().contains_key(report.component@) {
                    old(self).table()[report.component@].total_errors as int
                } else {
                    0
                };
                if before < u64::MAX { before + 1 } else { before }
            }),
            r == (final(self).table()[report.component@].total_errors > HIGH_ERROR_TOTAL),
    {
        let mut s = match self.stats.get(report.component.as_str()) {
            Some(s) => *s,
            None => ComponentErrorStats::new(),
        };
        s.record_error(report.timestamp);
        let high = s.rate_is_high();
        self.stats.insert(report.component.clone(), s);
        high
    }

    /// The counters of one component.
    pub fn get_component_stats(&self, component: &str) -> (r: Option<ComponentErrorStats>)
        ensures
            r == (if self.table().contains_key(component@) { Some(self.table()[component@]) } else { None }),
    {
        match self.stats.get(component) {
            Some(s) => Some(*s),
            None => None,
        }
    }
}

} // verus!

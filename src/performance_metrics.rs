//! Performance metrics: counters that task execution increments, and the
//! summary that schedulers and the memory state machine read.
//!
//! Every update only adds to counters (saturating at the top of the range),
//! so updates from many workers give the same aggregate in any order.

use vstd::prelude::*;

verus! {

/// `a + b`, held at `u64::MAX`.
pub open spec fn sat_add(a: u64, b: u64) -> u64 {
    if a + b > u64::MAX {
        u64::MAX
    } else {
        (a + b) as u64
    }
}

/// `a - b`, held at zero.
pub open spec fn sat_sub(a: u64, b: u64) -> u64 {
    if a < b {
        0
    } else {
        (a - b) as u64
    }
}

/// What one task execution or purge adds to the metrics.
#[derive(Clone, Copy, PartialEq, Eq, Structural, Debug)]
pub struct MetricsUpdateByTaskExecutionOrPurge {
    pub rows_processed: u64,
    pub rows_enqueued: u64,
    pub rows_dequeued: u64,
    pub bytes_allocated: u64,
    pub bytes_released: u64,
}

/// Cumulative counters of all updates so far.
#[derive(Clone, Copy, PartialEq, Eq, Structural, Debug)]
pub struct PerformanceMetrics {
    pub rows_processed: u64,
    pub rows_enqueued: u64,
    pub rows_dequeued: u64,
    pub bytes_allocated: u64,
    pub bytes_released: u64,
}

/// A read-only rollup of the metrics.
#[derive(Clone, Copy, PartialEq, Eq, Structural, Debug)]
pub struct PerformanceMetricsSummary {
    pub rows_processed: u64,
    /// Rows waiting in queues.
    pub queued_rows: u64,
    /// Memory held by queued rows and windows.
    pub memory_usage_bytes: u64,
}

/// The metrics after adding `u`.
pub open spec fn applied(m: PerformanceMetrics, u: MetricsUpdateByTaskExecutionOrPurge) -> PerformanceMetrics {
    PerformanceMetrics {
        rows_processed: sat_add(m.rows_processed, u.rows_processed),
        rows_enqueued: sat_add(m.rows_enqueued, u.rows_enqueued),
        rows_dequeued: sat_add(m.rows_dequeued, u.rows_dequeued),
        bytes_allocated: sat_add(m.bytes_allocated, u.bytes_allocated),
        bytes_released: sat_add(m.bytes_released, u.bytes_released),
    }
}

/// The summary of `m`.
pub open spec fn summary_of(m: PerformanceMetrics) -> PerformanceMetricsSummary {
    PerformanceMetricsSummary {
        rows_processed: m.rows_processed,
        queued_rows: sat_sub(m.rows_enqueued, m.rows_dequeued),
        memory_usage_bytes: sat_sub(m.bytes_allocated, m.bytes_released),
    }
}

impl PerformanceMetrics {
    /// All counters at zero.
    pub fn new() -> (r: Self)
        ensures
            r == (PerformanceMetrics {
                rows_processed: 0,
                rows_enqueued: 0,
                rows_dequeued: 0,
                bytes_allocated: 0,
                bytes_released: 0,
            }),
    {
        PerformanceMetrics {
            rows_processed: 0,
            rows_enqueued: 0,
            rows_dequeued: 0,
            bytes_allocated: 0,
            bytes_released: 0,
        }
    }

    /// Adds one update to the counters.
    pub fn update_by_task_execution_or_purge(&mut self, u: &MetricsUpdateByTaskExecutionOrPurge)
        ensures
            *final(self) == applied(*old(self), *u),
    {
        self.rows_processed = self.rows_processed.saturating_add(u.rows_processed);
        self.rows_enqueued = self.rows_enqueued.saturating_add(u.rows_enqueued);
        self.rows_dequeued = self.rows_dequeued.saturating_add(u.rows_dequeued);
        self.bytes_allocated = self.bytes_allocated.saturating_add(u.bytes_allocated);
        self.bytes_released = self.bytes_released.saturating_add(u.bytes_released);
    }

    /// The rollup of the current counters.
    pub fn summary(&self) -> (r: PerformanceMetricsSummary)
        ensures
            r == summary_of(*self),
    {
        PerformanceMetricsSummary {
            rows_processed: self.rows_processed,
            queued_rows: self.rows_enqueued.saturating_sub(self.rows_dequeued),
            memory_usage_bytes: self.bytes_allocated.saturating_sub(self.bytes_released),
        }
    }
}

/// Two updates give the same metrics in either order.
pub proof fn lemma_updates_commute(
    m: PerformanceMetrics,
    u1: MetricsUpdateByTaskExecutionOrPurge,
    u2: MetricsUpdateByTaskExecutionOrPurge,
)
    ensures
        applied(applied(m, u1), u2) == applied(applied(m, u2), u1),
{
}

} // verus!

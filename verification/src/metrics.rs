//! Statsd metric values and the task-executor metrics bridge.
//!
//! Counter values on the statsd wire are 64-bit signed. Executor statistics
//! come in as unsigned counts and as durations in milliseconds, both of which
//! can exceed `i64::MAX`; such values are saturated to `i64::MAX` rather than
//! truncated. The bridge turns one executor statistics sample into the list
//! of counter values to emit; sending them over the wire is the caller's
//! concern.

use vstd::prelude::*;

verus! {

/// What a metric value of magnitude `v` becomes on the 64-bit signed wire:
/// values above `i64::MAX` saturate, everything else passes through.
pub open spec fn spec_maxing_i64(v: int) -> int {
    if v > i64::MAX {
        i64::MAX as int
    } else {
        v
    }
}

/// Saturating conversion of an unsigned 64-bit metric value to the signed
/// 64-bit range.
pub fn to_maxing_i64_u64(v: u64) -> (r: i64)
    ensures
        r == spec_maxing_i64(v as int),
{
    if v > i64::MAX as u64 {
        i64::MAX
    } else {
        v as i64
    }
}

/// Saturating conversion of an unsigned 128-bit metric value (a duration in
/// milliseconds) to the signed 64-bit range.
pub fn to_maxing_i64_u128(v: u128) -> (r: i64)
    ensures
        r == spec_maxing_i64(v as int),
{
    if v > i64::MAX as u128 {
        i64::MAX
    } else {
        v as i64
    }
}

/// One sampling interval's statistics of an instrumented executor task
/// set: event counts, and total durations already converted to
/// milliseconds.
#[derive(Debug, Clone, Copy, PartialEq, Eq, Structural)]
pub struct TaskMetrics {
    /// Tasks instrumented so far.
    pub instrumented_count: u64,
    /// Instrumented tasks dropped.
    pub dropped_count: u64,
    /// Tasks polled for the first time.
    pub first_poll_count: u64,
    /// Total delay between instrumentation and first poll, in milliseconds.
    pub total_first_poll_delay_ms: u128,
    /// Times a task went idle.
    pub total_idled_count: u64,
    /// Total time tasks idled, in milliseconds.
    pub total_idle_duration_ms: u128,
    /// Times a task was scheduled.
    pub total_scheduled_count: u64,
    /// Total time tasks spent scheduled, in milliseconds.
    pub total_scheduled_duration_ms: u128,
    /// Task polls.
    pub total_poll_count: u64,
    /// Total time spent polling, in milliseconds.
    pub total_poll_duration_ms: u128,
    /// Fast task polls.
    pub total_fast_poll_count: u64,
    /// Total time of fast polls, in milliseconds.
    pub total_fast_poll_duration_ms: u128,
    /// Slow task polls.
    pub total_slow_poll_count: u64,
    /// Total time of slow polls, in milliseconds.
    pub total_slow_poll_duration_ms: u128,
}

/// The counters an executor statistics sample is emitted as, in emission
/// order.
#[derive(Debug, Clone, Copy, PartialEq, Eq, Structural)]
pub enum TaskMetricKind {
    InstrumentedCount,
    DroppedCount,
    FirstPollCount,
    TotalFirstPollDelay,
    TotalIdledCount,
    TotalIdleDuration,
    TotalScheduledCount,
    TotalScheduledDuration,
    TotalPollCount,
    TotalPollDuration,
    TotalFastPollCount,
    TotalFastPollDuration,
    TotalSlowPollCount,
    TotalSlowPollDuration,
}

impl TaskMetricKind {
    /// The statsd counter name of this statistic.
    pub fn metric_name(&self) -> (r: &'static str)
        ensures
            match *self {
                TaskMetricKind::InstrumentedCount => r@ == "tasks.instrumented_count"@,
                TaskMetricKind::DroppedCount => r@ == "tasks.dropped_count"@,
                TaskMetricKind::FirstPollCount => r@ == "tasks.first_poll_count"@,
                TaskMetricKind::TotalFirstPollDelay => r@ == "tasks.total_first_poll_delay"@,
                TaskMetricKind::TotalIdledCount => r@ == "tasks.total_idled_count"@,
                TaskMetricKind::TotalIdleDuration => r@ == "tasks.total_idle_duration"@,
                TaskMetricKind::TotalScheduledCount => r@ == "tasks.total_scheduled_count"@,
                TaskMetricKind::TotalScheduledDuration => r@ == "tasks.total_scheduled_duration"@,
                TaskMetricKind::TotalPollCount => r@ == "tasks.total_poll_count"@,
                TaskMetricKind::TotalPollDuration => r@ == "tasks.total_poll_duration"@,
                TaskMetricKind::TotalFastPollCount => r@ == "tasks.total_fast_poll_count"@,
                TaskMetricKind::TotalFastPollDuration => r@ == "tasks.total_fast_poll_durations"@,
                TaskMetricKind::TotalSlowPollCount => r@ == "tasks.total_slow_poll_count"@,
                TaskMetricKind::TotalSlowPollDuration => r@ == "tasks.total_slow_poll_duration"@,
            },
    {
        match *self {
            TaskMetricKind::InstrumentedCount => "tasks.instrumented_count",
            TaskMetricKind::DroppedCount => "tasks.dropped_count",
            TaskMetricKind::FirstPollCount => "tasks.first_poll_count",
            TaskMetricKind::TotalFirstPollDelay => "tasks.total_first_poll_delay",
            TaskMetricKind::TotalIdledCount => "tasks.total_idled_count",
            TaskMetricKind::TotalIdleDuration => "tasks.total_idle_duration",
            TaskMetricKind::TotalScheduledCount => "tasks.total_scheduled_count",
            TaskMetricKind::TotalScheduledDuration => "tasks.total_scheduled_duration",
            TaskMetricKind::TotalPollCount => "tasks.total_poll_count",
            TaskMetricKind::TotalPollDuration => "tasks.total_poll_duration",
            TaskMetricKind::TotalFastPollCount => "tasks.total_fast_poll_count",
            // The established wire name of this one counter ends in a
            // stray plural; keeping it avoids a break in dashboards.
            TaskMetricKind::TotalFastPollDuration => "tasks.total_fast_poll_durations",
            TaskMetricKind::TotalSlowPollCount => "tasks.total_slow_poll_count",
            TaskMetricKind::TotalSlowPollDuration => "tasks.total_slow_poll_duration",
        }
    }
}

/// One counter value to emit, tagged by the caller with the task's name.
#[derive(Debug, Clone, Copy, PartialEq, Eq, Structural)]
pub struct TaskMetricSample {
    /// Which statistic this is.
    pub kind: TaskMetricKind,
    /// The saturated counter value.
    pub value: i64,
}

/// Turns one executor statistics sample into the fourteen counter values
/// to emit, each saturated to the signed 64-bit wire range.
pub fn record_task_metrics(metrics: &TaskMetrics) -> (r: Vec<TaskMetricSample>)
    ensures
        r@.len() == 14,
        r@[0].kind == TaskMetricKind::InstrumentedCount && r@[0].value == spec_maxing_i64(
            metrics.instrumented_count as int,
        ),
        r@[1].kind == TaskMetricKind::DroppedCount && r@[1].value == spec_maxing_i64(
            metrics.dropped_count as int,
        ),
        r@[2].kind == TaskMetricKind::FirstPollCount && r@[2].value == spec_maxing_i64(
            metrics.first_poll_count as int,
        ),
        r@[3].kind == TaskMetricKind::TotalFirstPollDelay && r@[3].value == spec_maxing_i64(
            metrics.total_first_poll_delay_ms as int,
        ),
        r@[4].kind == TaskMetricKind::TotalIdledCount && r@[4].value == spec_maxing_i64(
            metrics.total_idled_count as int,
        ),
        r@[5].kind == TaskMetricKind::TotalIdleDuration && r@[5].value == spec_maxing_i64(
            metrics.total_idle_duration_ms as int,
        ),
        r@[6].kind == TaskMetricKind::TotalScheduledCount && r@[6].value == spec_maxing_i64(
            metrics.total_scheduled_count as int,
        ),
        r@[7].kind == TaskMetricKind::TotalScheduledDuration && r@[7].value == spec_maxing_i64(
            metrics.total_scheduled_duration_ms as int,
        ),
        r@[8].kind == TaskMetricKind::TotalPollCount && r@[8].value == spec_maxing_i64(
            metrics.total_poll_count as int,
        ),
        r@[9].kind == TaskMetricKind::TotalPollDuration && r@[9].value == spec_maxing_i64(
            metrics.total_poll_duration_ms as int,
        ),
        r@[10].kind == TaskMetricKind::TotalFastPollCount && r@[10].value == spec_maxing_i64(
            metrics.total_fast_poll_count as int,
        ),
        r@[11].kind == TaskMetricKind::TotalFastPollDuration && r@[11].value == spec_maxing_i64(
            metrics.total_fast_poll_duration_ms as int,
        ),
        r@[12].kind == TaskMetricKind::TotalSlowPollCount && r@[12].value == spec_maxing_i64(
            metrics.total_slow_poll_count as int,
        ),
        r@[13].kind == TaskMetricKind::TotalSlowPollDuration && r@[13].value == spec_maxing_i64(
            metrics.total_slow_poll_duration_ms as int,
        ),
{
    let mut r: Vec<TaskMetricSample> = Vec::new();
    r.push(
        TaskMetricSample {
            kind: TaskMetricKind::InstrumentedCount,
            value: to_maxing_i64_u64(metrics.instrumented_count),
        },
    );
    r.push(
        TaskMetricSample {
            kind: TaskMetricKind::DroppedCount,
            value: to_maxing_i64_u64(metrics.dropped_count),
        },
    );
    r.push(
        TaskMetricSample {
            kind: TaskMetricKind::FirstPollCount,
            value: to_maxing_i64_u64(metrics.first_poll_count),
        },
    );
    r.push(
        TaskMetricSample {
            kind: TaskMetricKind::TotalFirstPollDelay,
            value: to_maxing_i64_u128(metrics.total_first_poll_delay_ms),
        },
    );
    r.push(
        TaskMetricSample {
            kind: TaskMetricKind::TotalIdledCount,
            value: to_maxing_i64_u64(metrics.total_idled_count),
        },
    );
    r.push(
        TaskMetricSample {
            kind: TaskMetricKind::TotalIdleDuration,
            value: to_maxing_i64_u128(metrics.total_idle_duration_ms),
        },
    );
    r.push(
        TaskMetricSample {
            kind: TaskMetricKind::TotalScheduledCount,
            value: to_maxing_i64_u64(metrics.total_scheduled_count),
        },
    );
    r.push(
        TaskMetricSample {
            kind: TaskMetricKind::TotalScheduledDuration,
            value: to_maxing_i64_u128(metrics.total_scheduled_duration_ms),
        },
    );
    r.push(
        TaskMetricSample {
            kind: TaskMetricKind::TotalPollCount,
            value: to_maxing_i64_u64(metrics.total_poll_count),
        },
    );
    r.push(
        TaskMetricSample {
            kind: TaskMetricKind::TotalPollDuration,
            value: to_maxing_i64_u128(metrics.total_poll_duration_ms),
        },
    );
    r.push(
        TaskMetricSample {
            kind: TaskMetricKind::TotalFastPollCount,
            value: to_maxing_i64_u64(metrics.total_fast_poll_count),
        },
    );
    r.push(
        TaskMetricSample {
            kind: TaskMetricKind::TotalFastPollDuration,
            value: to_maxing_i64_u128(metrics.total_fast_poll_duration_ms),
        },
    );
    r.push(
        TaskMetricSample {
            kind: TaskMetricKind::TotalSlowPollCount,
            value: to_maxing_i64_u64(metrics.total_slow_poll_count),
        },
    );
    r.push(
        TaskMetricSample {
            kind: TaskMetricKind::TotalSlowPollDuration,
            value: to_maxing_i64_u128(metrics.total_slow_poll_duration_ms),
        },
    );
    r
}

/// Saturating widening: a metric value within the signed 64-bit range
/// passes through unchanged, and anything above it emits the maximum.
pub proof fn lemma_saturating_widening(v: int)
    ensures
        0 <= v <= i64::MAX ==> spec_maxing_i64(v) == v,
        v > i64::MAX ==> spec_maxing_i64(v) == i64::MAX,
{
}

} // verus!

//! The metrics that are counted.

use vstd::prelude::*;

verus! {

/// How a metric is counted.
#[derive(Clone, Copy, Debug, PartialEq, Eq, Structural)]
pub enum MetricKind {
    Counter,
    Timer,
}

impl MetricKind {
    pub fn as_str(self) -> (r: &'static str)
        ensures
            r@ == match self {
                MetricKind::Counter => "counter"@,
                MetricKind::Timer => "timer"@,
            },
    {
        match self {
            MetricKind::Counter => "counter",
            MetricKind::Timer => "timer",
        }
    }
}

/// What a metric counts.
#[derive(Clone, Copy, Debug, PartialEq, Eq, Structural)]
pub enum MetricUnit {
    Count,
    Nanoseconds,
    Bytes,
}

impl MetricUnit {
    pub fn as_str(self) -> (r: &'static str)
        ensures
            r@ == match self {
                MetricUnit::Count => "count"@,
                MetricUnit::Nanoseconds => "ns"@,
                MetricUnit::Bytes => "bytes"@,
            },
    {
        match self {
            MetricUnit::Count => "count",
            MetricUnit::Nanoseconds => "ns",
            MetricUnit::Bytes => "bytes",
        }
    }
}

/// One metric, with its names.
#[derive(Clone, Copy, Debug, PartialEq, Eq)]
pub struct MetricDescriptor {
    pub id: MetricId,
    pub component: &'static str,
    pub metric: &'static str,
    pub kind: MetricKind,
    pub unit: MetricUnit,
}

/// The metrics, in the order in which they are stored.
#[derive(Clone, Copy, Debug, PartialEq, Eq, Structural)]
pub enum MetricId {
    QueryTotalNs,
    BackendTotalNs,
    BackendExecCallsTotal,
    BackendRowsReturnedTotal,
    BackendWaitLatchNs,
    BackendWaitLatchTotal,
    ScanPageFillNs,
    ScanPagePrepareNs,
    ScanPageFinishNs,
    ScanPageRetryTotal,
    ScanFetchCallsTotal,
    ScanRowsEncodedTotal,
    ScanFullPagesTotal,
    ScanEofPagesTotal,
    ScanPagesSentTotal,
    ScanBytesSentTotal,
    ScanB2wWaitNs,
    ScanB2wWaitTotal,
    ScanPageReadNs,
    ScanPagesReadTotal,
    ScanBatchSendNs,
    ScanBatchSendTotal,
    ScanBatchDeliveryNs,
    ScanBatchDeliveryTotal,
    ScanIdleSleepNs,
    ScanIdleSleepTotal,
    WorkerTotalNs,
    WorkerPhysicalPlanNs,
    WorkerPhysicalPlanTotal,
    WorkerResultPageFillNs,
    WorkerResultPagesTotal,
    WorkerResultBytesSentTotal,
    WorkerSpillCountTotal,
    WorkerSpilledRowsTotal,
    WorkerSpilledBytesTotal,
    WorkerSpillLeakedFilesTotal,
    WorkerSpillLeakedBytesTotal,
    WorkerSpillDirsCreatedTotal,
    WorkerSpillDirsRemovedTotal,
    WorkerSpillCleanupErrorsTotal,
    ResultW2bWaitNs,
    ResultW2bWaitTotal,
    ResultPageReadNs,
    ResultPagesReadTotal,
    RuntimeFilterAllocatedTotal,
    RuntimeFilterReadyTotal,
    RuntimeFilterPoolExhaustedTotal,
    RuntimeFilterBuildRowsTotal,
    RuntimeFilterProbeRowsTotal,
    RuntimeFilterProbeRowsRejectedTotal,
    RuntimeFilterProbePassUnfilteredTotal,
}

/// Number of metrics.
pub const METRIC_COUNT: usize = 51;

/// Where a metric is stored.
pub open spec fn metric_index(id: MetricId) -> int {
    match id {
        MetricId::QueryTotalNs => 0,
        MetricId::BackendTotalNs => 1,
        MetricId::BackendExecCallsTotal => 2,
        MetricId::BackendRowsReturnedTotal => 3,
        MetricId::BackendWaitLatchNs => 4,
        MetricId::BackendWaitLatchTotal => 5,
        MetricId::ScanPageFillNs => 6,
        MetricId::ScanPagePrepareNs => 7,
        MetricId::ScanPageFinishNs => 8,
        MetricId::ScanPageRetryTotal => 9,
        MetricId::ScanFetchCallsTotal => 10,
        MetricId::ScanRowsEncodedTotal => 11,
        MetricId::ScanFullPagesTotal => 12,
        MetricId::ScanEofPagesTotal => 13,
        MetricId::ScanPagesSentTotal => 14,
        MetricId::ScanBytesSentTotal => 15,
        MetricId::ScanB2wWaitNs => 16,
        MetricId::ScanB2wWaitTotal => 17,
        MetricId::ScanPageReadNs => 18,
        MetricId::ScanPagesReadTotal => 19,
        MetricId::ScanBatchSendNs => 20,
        MetricId::ScanBatchSendTotal => 21,
        MetricId::ScanBatchDeliveryNs => 22,
        MetricId::ScanBatchDeliveryTotal => 23,
        MetricId::ScanIdleSleepNs => 24,
        MetricId::ScanIdleSleepTotal => 25,
        MetricId::WorkerTotalNs => 26,
        MetricId::WorkerPhysicalPlanNs => 27,
        MetricId::WorkerPhysicalPlanTotal => 28,
        MetricId::WorkerResultPageFillNs => 29,
        MetricId::WorkerResultPagesTotal => 30,
        MetricId::WorkerResultBytesSentTotal => 31,
        MetricId::WorkerSpillCountTotal => 32,
        MetricId::WorkerSpilledRowsTotal => 33,
        MetricId::WorkerSpilledBytesTotal => 34,
        MetricId::WorkerSpillLeakedFilesTotal => 35,
        MetricId::WorkerSpillLeakedBytesTotal => 36,
        MetricId::WorkerSpillDirsCreatedTotal => 37,
        MetricId::WorkerSpillDirsRemovedTotal => 38,
        MetricId::WorkerSpillCleanupErrorsTotal => 39,
        MetricId::ResultW2bWaitNs => 40,
        MetricId::ResultW2bWaitTotal => 41,
        MetricId::ResultPageReadNs => 42,
        MetricId::ResultPagesReadTotal => 43,
        MetricId::RuntimeFilterAllocatedTotal => 44,
        MetricId::RuntimeFilterReadyTotal => 45,
        MetricId::RuntimeFilterPoolExhaustedTotal => 46,
        MetricId::RuntimeFilterBuildRowsTotal => 47,
        MetricId::RuntimeFilterProbeRowsTotal => 48,
        MetricId::RuntimeFilterProbeRowsRejectedTotal => 49,
        MetricId::RuntimeFilterProbePassUnfilteredTotal => 50,
    }
}

/// The metric that is stored at an index.
pub open spec fn metric_at(index: int) -> MetricId {
    if index == 0 {
        MetricId::QueryTotalNs
    } else if index == 1 {
        MetricId::BackendTotalNs
    } else if index == 2 {
        MetricId::BackendExecCallsTotal
    } else if index == 3 {
        MetricId::BackendRowsReturnedTotal
    } else if index == 4 {
        MetricId::BackendWaitLatchNs
    } else if index == 5 {
        MetricId::BackendWaitLatchTotal
    } else if index == 6 {
        MetricId::ScanPageFillNs
    } else if index == 7 {
        MetricId::ScanPagePrepareNs
    } else if index == 8 {
        MetricId::ScanPageFinishNs
    } else if index == 9 {
        MetricId::ScanPageRetryTotal
    } else if index == 10 {
        MetricId::ScanFetchCallsTotal
    } else if index == 11 {
        MetricId::ScanRowsEncodedTotal
    } else if index == 12 {
        MetricId::ScanFullPagesTotal
    } else if index == 13 {
        MetricId::ScanEofPagesTotal
    } else if index == 14 {
        MetricId::ScanPagesSentTotal
    } else if index == 15 {
        MetricId::ScanBytesSentTotal
    } else if index == 16 {
        MetricId::ScanB2wWaitNs
    } else if index == 17 {
        MetricId::ScanB2wWaitTotal
    } else if index == 18 {
        MetricId::ScanPageReadNs
    } else if index == 19 {
        MetricId::ScanPagesReadTotal
    } else if index == 20 {
        MetricId::ScanBatchSendNs
    } else if index == 21 {
        MetricId::ScanBatchSendTotal
    } else if index == 22 {
        MetricId::ScanBatchDeliveryNs
    } else if index == 23 {
        MetricId::ScanBatchDeliveryTotal
    } else if index == 24 {
        MetricId::ScanIdleSleepNs
    } else if index == 25 {
        MetricId::ScanIdleSleepTotal
    } else if index == 26 {
        MetricId::WorkerTotalNs
    } else if index == 27 {
        MetricId::WorkerPhysicalPlanNs
    } else if index == 28 {
        MetricId::WorkerPhysicalPlanTotal
    } else if index == 29 {
        MetricId::WorkerResultPageFillNs
    } else if index == 30 {
        MetricId::WorkerResultPagesTotal
    } else if index == 31 {
        MetricId::WorkerResultBytesSentTotal
    } else if index == 32 {
        MetricId::WorkerSpillCountTotal
    } else if index == 33 {
        MetricId::WorkerSpilledRowsTotal
    } else if index == 34 {
        MetricId::WorkerSpilledBytesTotal
    } else if index == 35 {
        MetricId::WorkerSpillLeakedFilesTotal
    } else if index == 36 {
        MetricId::WorkerSpillLeakedBytesTotal
    } else if index == 37 {
        MetricId::WorkerSpillDirsCreatedTotal
    } else if index == 38 {
        MetricId::WorkerSpillDirsRemovedTotal
    } else if index == 39 {
        MetricId::WorkerSpillCleanupErrorsTotal
    } else if index == 40 {
        MetricId::ResultW2bWaitNs
    } else if index == 41 {
        MetricId::ResultW2bWaitTotal
    } else if index == 42 {
        MetricId::ResultPageReadNs
    } else if index == 43 {
        MetricId::ResultPagesReadTotal
    } else if index == 44 {
        MetricId::RuntimeFilterAllocatedTotal
    } else if index == 45 {
        MetricId::RuntimeFilterReadyTotal
    } else if index == 46 {
        MetricId::RuntimeFilterPoolExhaustedTotal
    } else if index == 47 {
        MetricId::RuntimeFilterBuildRowsTotal
    } else if index == 48 {
        MetricId::RuntimeFilterProbeRowsTotal
    } else if index == 49 {
        MetricId::RuntimeFilterProbeRowsRejectedTotal
    } else {
        MetricId::RuntimeFilterProbePassUnfilteredTotal
    }
}

/// The component that a metric belongs to.
pub open spec fn component_of(id: MetricId) -> Seq<char> {
    match id {
        MetricId::QueryTotalNs => "query"@,
        MetricId::BackendTotalNs
        | MetricId::BackendExecCallsTotal
        | MetricId::BackendRowsReturnedTotal
        | MetricId::BackendWaitLatchNs
        | MetricId::BackendWaitLatchTotal => "backend"@,
        MetricId::WorkerTotalNs
        | MetricId::WorkerPhysicalPlanNs
        | MetricId::WorkerPhysicalPlanTotal
        | MetricId::WorkerResultPageFillNs
        | MetricId::WorkerResultPagesTotal
        | MetricId::WorkerResultBytesSentTotal
        | MetricId::WorkerSpillCountTotal
        | MetricId::WorkerSpilledRowsTotal
        | MetricId::WorkerSpilledBytesTotal
        | MetricId::WorkerSpillLeakedFilesTotal
        | MetricId::WorkerSpillLeakedBytesTotal
        | MetricId::WorkerSpillDirsCreatedTotal
        | MetricId::WorkerSpillDirsRemovedTotal
        | MetricId::WorkerSpillCleanupErrorsTotal => "worker"@,
        MetricId::ResultW2bWaitNs
        | MetricId::ResultW2bWaitTotal
        | MetricId::ResultPageReadNs
        | MetricId::ResultPagesReadTotal => "result"@,
        MetricId::RuntimeFilterAllocatedTotal
        | MetricId::RuntimeFilterReadyTotal
        | MetricId::RuntimeFilterPoolExhaustedTotal
        | MetricId::RuntimeFilterBuildRowsTotal
        | MetricId::RuntimeFilterProbeRowsTotal
        | MetricId::RuntimeFilterProbeRowsRejectedTotal
        | MetricId::RuntimeFilterProbePassUnfilteredTotal => "runtime_filter"@,
        _ => "scan"@,
    }
}

/// The unit of a metric.
pub open spec fn unit_of(id: MetricId) -> MetricUnit {
    match id {
        MetricId::QueryTotalNs
        | MetricId::BackendTotalNs
        | MetricId::BackendWaitLatchNs
        | MetricId::ScanPageFillNs
        | MetricId::ScanPagePrepareNs
        | MetricId::ScanPageFinishNs
        | MetricId::ScanB2wWaitNs
        | MetricId::ScanPageReadNs
        | MetricId::ScanBatchSendNs
        | MetricId::ScanBatchDeliveryNs
        | MetricId::ScanIdleSleepNs
        | MetricId::WorkerTotalNs
        | MetricId::WorkerPhysicalPlanNs
        | MetricId::WorkerResultPageFillNs
        | MetricId::ResultW2bWaitNs
        | MetricId::ResultPageReadNs => MetricUnit::Nanoseconds,
        MetricId::ScanBytesSentTotal
        | MetricId::WorkerResultBytesSentTotal
        | MetricId::WorkerSpilledBytesTotal
        | MetricId::WorkerSpillLeakedBytesTotal => MetricUnit::Bytes,
        _ => MetricUnit::Count,
    }
}

/// Timers are counted in nanoseconds, and nothing else is.
pub open spec fn kind_of(id: MetricId) -> MetricKind {
    if unit_of(id) == MetricUnit::Nanoseconds {
        MetricKind::Timer
    } else {
        MetricKind::Counter
    }
}

/// The name of a metric.
pub open spec fn name_of(id: MetricId) -> Seq<char> {
    match id {
        MetricId::QueryTotalNs => "query_total_ns"@,
        MetricId::BackendTotalNs => "backend_total_ns"@,
        MetricId::BackendExecCallsTotal => "backend_exec_calls_total"@,
        MetricId::BackendRowsReturnedTotal => "backend_rows_returned_total"@,
        MetricId::BackendWaitLatchNs => "backend_wait_latch_ns"@,
        MetricId::BackendWaitLatchTotal => "backend_wait_latch_total"@,
        MetricId::ScanPageFillNs => "scan_page_fill_ns"@,
        MetricId::ScanPagePrepareNs => "scan_page_prepare_ns"@,
        MetricId::ScanPageFinishNs => "scan_page_finish_ns"@,
        MetricId::ScanPageRetryTotal => "scan_page_retry_total"@,
        MetricId::ScanFetchCallsTotal => "scan_fetch_calls_total"@,
        MetricId::ScanRowsEncodedTotal => "scan_rows_encoded_total"@,
        MetricId::ScanFullPagesTotal => "scan_full_pages_total"@,
        MetricId::ScanEofPagesTotal => "scan_eof_pages_total"@,
        MetricId::ScanPagesSentTotal => "scan_pages_sent_total"@,
        MetricId::ScanBytesSentTotal => "scan_bytes_sent_total"@,
        MetricId::ScanB2wWaitNs => "scan_b2w_wait_ns"@,
        MetricId::ScanB2wWaitTotal => "scan_b2w_wait_total"@,
        MetricId::ScanPageReadNs => "scan_page_read_ns"@,
        MetricId::ScanPagesReadTotal => "scan_pages_read_total"@,
        MetricId::ScanBatchSendNs => "scan_batch_send_ns"@,
        MetricId::ScanBatchSendTotal => "scan_batch_send_total"@,
        MetricId::ScanBatchDeliveryNs => "scan_batch_delivery_ns"@,
        MetricId::ScanBatchDeliveryTotal => "scan_batch_delivery_total"@,
        MetricId::ScanIdleSleepNs => "scan_idle_sleep_ns"@,
        MetricId::ScanIdleSleepTotal => "scan_idle_sleep_total"@,
        MetricId::WorkerTotalNs => "worker_total_ns"@,
        MetricId::WorkerPhysicalPlanNs => "worker_physical_plan_ns"@,
        MetricId::WorkerPhysicalPlanTotal => "worker_physical_plan_total"@,
        MetricId::WorkerResultPageFillNs => "worker_result_page_fill_ns"@,
        MetricId::WorkerResultPagesTotal => "worker_result_pages_total"@,
        MetricId::WorkerResultBytesSentTotal => "worker_result_bytes_sent_total"@,
        MetricId::WorkerSpillCountTotal => "worker_spill_count_total"@,
        MetricId::WorkerSpilledRowsTotal => "worker_spilled_rows_total"@,
        MetricId::WorkerSpilledBytesTotal => "worker_spilled_bytes_total"@,
        MetricId::WorkerSpillLeakedFilesTotal => "worker_spill_leaked_files_total"@,
        MetricId::WorkerSpillLeakedBytesTotal => "worker_spill_leaked_bytes_total"@,
        MetricId::WorkerSpillDirsCreatedTotal => "worker_spill_dirs_created_total"@,
        MetricId::WorkerSpillDirsRemovedTotal => "worker_spill_dirs_removed_total"@,
        MetricId::WorkerSpillCleanupErrorsTotal => "worker_spill_cleanup_errors_total"@,
        MetricId::ResultW2bWaitNs => "result_w2b_wait_ns"@,
        MetricId::ResultW2bWaitTotal => "result_w2b_wait_total"@,
        MetricId::ResultPageReadNs => "result_page_read_ns"@,
        MetricId::ResultPagesReadTotal => "result_pages_read_total"@,
        MetricId::RuntimeFilterAllocatedTotal => "runtime_filter_allocated_total"@,
        MetricId::RuntimeFilterReadyTotal => "runtime_filter_ready_total"@,
        MetricId::RuntimeFilterPoolExhaustedTotal => "runtime_filter_pool_exhausted_total"@,
        MetricId::RuntimeFilterBuildRowsTotal => "runtime_filter_build_rows_total"@,
        MetricId::RuntimeFilterProbeRowsTotal => "runtime_filter_probe_rows_total"@,
        MetricId::RuntimeFilterProbeRowsRejectedTotal => "runtime_filter_probe_rows_rejected_total"@,
        MetricId::RuntimeFilterProbePassUnfilteredTotal => "runtime_filter_probe_pass_unfiltered_total"@,
    }
}

/// A descriptor says what its metric is.
pub open spec fn describes(descriptor: MetricDescriptor, id: MetricId) -> bool {
    &&& descriptor.id == id
    &&& descriptor.component@ == component_of(id)
    &&& descriptor.metric@ == name_of(id)
    &&& descriptor.kind == kind_of(id)
    &&& descriptor.unit == unit_of(id)
}

impl MetricId {
    /// Where the metric is stored.
    pub fn index(self) -> (r: usize)
        ensures
            r == metric_index(self),
            r < METRIC_COUNT,
    {
        match self {
            MetricId::QueryTotalNs => 0,
            MetricId::BackendTotalNs => 1,
            MetricId::BackendExecCallsTotal => 2,
            MetricId::BackendRowsReturnedTotal => 3,
            MetricId::BackendWaitLatchNs => 4,
            MetricId::BackendWaitLatchTotal => 5,
            MetricId::ScanPageFillNs => 6,
            MetricId::ScanPagePrepareNs => 7,
            MetricId::ScanPageFinishNs => 8,
            MetricId::ScanPageRetryTotal => 9,
            MetricId::ScanFetchCallsTotal => 10,
            MetricId::ScanRowsEncodedTotal => 11,
            MetricId::ScanFullPagesTotal => 12,
            MetricId::ScanEofPagesTotal => 13,
            MetricId::ScanPagesSentTotal => 14,
            MetricId::ScanBytesSentTotal => 15,
            MetricId::ScanB2wWaitNs => 16,
            MetricId::ScanB2wWaitTotal => 17,
            MetricId::ScanPageReadNs => 18,
            MetricId::ScanPagesReadTotal => 19,
            MetricId::ScanBatchSendNs => 20,
            MetricId::ScanBatchSendTotal => 21,
            MetricId::ScanBatchDeliveryNs => 22,
            MetricId::ScanBatchDeliveryTotal => 23,
            MetricId::ScanIdleSleepNs => 24,
            MetricId::ScanIdleSleepTotal => 25,
            MetricId::WorkerTotalNs => 26,
            MetricId::WorkerPhysicalPlanNs => 27,
            MetricId::WorkerPhysicalPlanTotal => 28,
            MetricId::WorkerResultPageFillNs => 29,
            MetricId::WorkerResultPagesTotal => 30,
            MetricId::WorkerResultBytesSentTotal => 31,
            MetricId::WorkerSpillCountTotal => 32,
            MetricId::WorkerSpilledRowsTotal => 33,
            MetricId::WorkerSpilledBytesTotal => 34,
            MetricId::WorkerSpillLeakedFilesTotal => 35,
            MetricId::WorkerSpillLeakedBytesTotal => 36,
            MetricId::WorkerSpillDirsCreatedTotal => 37,
            MetricId::WorkerSpillDirsRemovedTotal => 38,
            MetricId::WorkerSpillCleanupErrorsTotal => 39,
            MetricId::ResultW2bWaitNs => 40,
            MetricId::ResultW2bWaitTotal => 41,
            MetricId::ResultPageReadNs => 42,
            MetricId::ResultPagesReadTotal => 43,
            MetricId::RuntimeFilterAllocatedTotal => 44,
            MetricId::RuntimeFilterReadyTotal => 45,
            MetricId::RuntimeFilterPoolExhaustedTotal => 46,
            MetricId::RuntimeFilterBuildRowsTotal => 47,
            MetricId::RuntimeFilterProbeRowsTotal => 48,
            MetricId::RuntimeFilterProbeRowsRejectedTotal => 49,
            MetricId::RuntimeFilterProbePassUnfilteredTotal => 50,
        }
    }
}

fn metric_name(id: MetricId) -> (r: &'static str)
    ensures
        r@ == name_of(id),
{
    match id {
        MetricId::QueryTotalNs => "query_total_ns",
        MetricId::BackendTotalNs => "backend_total_ns",
        MetricId::BackendExecCallsTotal => "backend_exec_calls_total",
        MetricId::BackendRowsReturnedTotal => "backend_rows_returned_total",
        MetricId::BackendWaitLatchNs => "backend_wait_latch_ns",
        MetricId::BackendWaitLatchTotal => "backend_wait_latch_total",
        MetricId::ScanPageFillNs => "scan_page_fill_ns",
        MetricId::ScanPagePrepareNs => "scan_page_prepare_ns",
        MetricId::ScanPageFinishNs => "scan_page_finish_ns",
        MetricId::ScanPageRetryTotal => "scan_page_retry_total",
        MetricId::ScanFetchCallsTotal => "scan_fetch_calls_total",
        MetricId::ScanRowsEncodedTotal => "scan_rows_encoded_total",
        MetricId::ScanFullPagesTotal => "scan_full_pages_total",
        MetricId::ScanEofPagesTotal => "scan_eof_pages_total",
        MetricId::ScanPagesSentTotal => "scan_pages_sent_total",
        MetricId::ScanBytesSentTotal => "scan_bytes_sent_total",
        MetricId::ScanB2wWaitNs => "scan_b2w_wait_ns",
        MetricId::ScanB2wWaitTotal => "scan_b2w_wait_total",
        MetricId::ScanPageReadNs => "scan_page_read_ns",
        MetricId::ScanPagesReadTotal => "scan_pages_read_total",
        MetricId::ScanBatchSendNs => "scan_batch_send_ns",
        MetricId::ScanBatchSendTotal => "scan_batch_send_total",
        MetricId::ScanBatchDeliveryNs => "scan_batch_delivery_ns",
        MetricId::ScanBatchDeliveryTotal => "scan_batch_delivery_total",
        MetricId::ScanIdleSleepNs => "scan_idle_sleep_ns",
        MetricId::ScanIdleSleepTotal => "scan_idle_sleep_total",
        MetricId::WorkerTotalNs => "worker_total_ns",
        MetricId::WorkerPhysicalPlanNs => "worker_physical_plan_ns",
        MetricId::WorkerPhysicalPlanTotal => "worker_physical_plan_total",
        MetricId::WorkerResultPageFillNs => "worker_result_page_fill_ns",
        MetricId::WorkerResultPagesTotal => "worker_result_pages_total",
        MetricId::WorkerResultBytesSentTotal => "worker_result_bytes_sent_total",
        MetricId::WorkerSpillCountTotal => "worker_spill_count_total",
        MetricId::WorkerSpilledRowsTotal => "worker_spilled_rows_total",
        MetricId::WorkerSpilledBytesTotal => "worker_spilled_bytes_total",
        MetricId::WorkerSpillLeakedFilesTotal => "worker_spill_leaked_files_total",
        MetricId::WorkerSpillLeakedBytesTotal => "worker_spill_leaked_bytes_total",
        MetricId::WorkerSpillDirsCreatedTotal => "worker_spill_dirs_created_total",
        MetricId::WorkerSpillDirsRemovedTotal => "worker_spill_dirs_removed_total",
        MetricId::WorkerSpillCleanupErrorsTotal => "worker_spill_cleanup_errors_total",
        MetricId::ResultW2bWaitNs => "result_w2b_wait_ns",
        MetricId::ResultW2bWaitTotal => "result_w2b_wait_total",
        MetricId::ResultPageReadNs => "result_page_read_ns",
        MetricId::ResultPagesReadTotal => "result_pages_read_total",
        MetricId::RuntimeFilterAllocatedTotal => "runtime_filter_allocated_total",
        MetricId::RuntimeFilterReadyTotal => "runtime_filter_ready_total",
        MetricId::RuntimeFilterPoolExhaustedTotal => "runtime_filter_pool_exhausted_total",
        MetricId::RuntimeFilterBuildRowsTotal => "runtime_filter_build_rows_total",
        MetricId::RuntimeFilterProbeRowsTotal => "runtime_filter_probe_rows_total",
        MetricId::RuntimeFilterProbeRowsRejectedTotal => "runtime_filter_probe_rows_rejected_total",
        MetricId::RuntimeFilterProbePassUnfilteredTotal => "runtime_filter_probe_pass_unfiltered_total",
    }
}

fn metric_component(id: MetricId) -> (r: &'static str)
    ensures
        r@ == component_of(id),
{
    match id {
        MetricId::QueryTotalNs => "query",
        MetricId::BackendTotalNs
        | MetricId::BackendExecCallsTotal
        | MetricId::BackendRowsReturnedTotal
        | MetricId::BackendWaitLatchNs
        | MetricId::BackendWaitLatchTotal => "backend",
        MetricId::WorkerTotalNs
        | MetricId::WorkerPhysicalPlanNs
        | MetricId::WorkerPhysicalPlanTotal
        | MetricId::WorkerResultPageFillNs
        | MetricId::WorkerResultPagesTotal
        | MetricId::WorkerResultBytesSentTotal
        | MetricId::WorkerSpillCountTotal
        | MetricId::WorkerSpilledRowsTotal
        | MetricId::WorkerSpilledBytesTotal
        | MetricId::WorkerSpillLeakedFilesTotal
        | MetricId::WorkerSpillLeakedBytesTotal
        | MetricId::WorkerSpillDirsCreatedTotal
        | MetricId::WorkerSpillDirsRemovedTotal
        | MetricId::WorkerSpillCleanupErrorsTotal => "worker",
        MetricId::ResultW2bWaitNs
        | MetricId::ResultW2bWaitTotal
        | MetricId::ResultPageReadNs
        | MetricId::ResultPagesReadTotal => "result",
        MetricId::RuntimeFilterAllocatedTotal
        | MetricId::RuntimeFilterReadyTotal
        | MetricId::RuntimeFilterPoolExhaustedTotal
        | MetricId::RuntimeFilterBuildRowsTotal
        | MetricId::RuntimeFilterProbeRowsTotal
        | MetricId::RuntimeFilterProbeRowsRejectedTotal
        | MetricId::RuntimeFilterProbePassUnfilteredTotal => "runtime_filter",
        _ => "scan",
    }
}

fn metric_unit(id: MetricId) -> (r: MetricUnit)
    ensures
        r == unit_of(id),
{
    match id {
        MetricId::QueryTotalNs
        | MetricId::BackendTotalNs
        | MetricId::BackendWaitLatchNs
        | MetricId::ScanPageFillNs
        | MetricId::ScanPagePrepareNs
        | MetricId::ScanPageFinishNs
        | MetricId::ScanB2wWaitNs
        | MetricId::ScanPageReadNs
        | MetricId::ScanBatchSendNs
        | MetricId::ScanBatchDeliveryNs
        | MetricId::ScanIdleSleepNs
        | MetricId::WorkerTotalNs
        | MetricId::WorkerPhysicalPlanNs
        | MetricId::WorkerResultPageFillNs
        | MetricId::ResultW2bWaitNs
        | MetricId::ResultPageReadNs => MetricUnit::Nanoseconds,
        MetricId::ScanBytesSentTotal
        | MetricId::WorkerResultBytesSentTotal
        | MetricId::WorkerSpilledBytesTotal
        | MetricId::WorkerSpillLeakedBytesTotal => MetricUnit::Bytes,
        _ => MetricUnit::Count,
    }
}

/// The descriptor of a metric.
pub fn metric_descriptor(id: MetricId) -> (r: MetricDescriptor)
    ensures
        describes(r, id),
{
    let unit = metric_unit(id);
    let kind = match unit {
        MetricUnit::Nanoseconds => MetricKind::Timer,
        _ => MetricKind::Counter,
    };
    MetricDescriptor {
        id,
        component: metric_component(id),
        metric: metric_name(id),
        kind,
        unit,
    }
}

/// The metric that is stored at an index.
fn metric_id_at(index: usize) -> (r: MetricId)
    requires
        index < METRIC_COUNT,
    ensures
        r == metric_at(index as int),
{
    match index {
        0 => MetricId::QueryTotalNs,
        1 => MetricId::BackendTotalNs,
        2 => MetricId::BackendExecCallsTotal,
        3 => MetricId::BackendRowsReturnedTotal,
        4 => MetricId::BackendWaitLatchNs,
        5 => MetricId::BackendWaitLatchTotal,
        6 => MetricId::ScanPageFillNs,
        7 => MetricId::ScanPagePrepareNs,
        8 => MetricId::ScanPageFinishNs,
        9 => MetricId::ScanPageRetryTotal,
        10 => MetricId::ScanFetchCallsTotal,
        11 => MetricId::ScanRowsEncodedTotal,
        12 => MetricId::ScanFullPagesTotal,
        13 => MetricId::ScanEofPagesTotal,
        14 => MetricId::ScanPagesSentTotal,
        15 => MetricId::ScanBytesSentTotal,
        16 => MetricId::ScanB2wWaitNs,
        17 => MetricId::ScanB2wWaitTotal,
        18 => MetricId::ScanPageReadNs,
        19 => MetricId::ScanPagesReadTotal,
        20 => MetricId::ScanBatchSendNs,
        21 => MetricId::ScanBatchSendTotal,
        22 => MetricId::ScanBatchDeliveryNs,
        23 => MetricId::ScanBatchDeliveryTotal,
        24 => MetricId::ScanIdleSleepNs,
        25 => MetricId::ScanIdleSleepTotal,
        26 => MetricId::WorkerTotalNs,
        27 => MetricId::WorkerPhysicalPlanNs,
        28 => MetricId::WorkerPhysicalPlanTotal,
        29 => MetricId::WorkerResultPageFillNs,
        30 => MetricId::WorkerResultPagesTotal,
        31 => MetricId::WorkerResultBytesSentTotal,
        32 => MetricId::WorkerSpillCountTotal,
        33 => MetricId::WorkerSpilledRowsTotal,
        34 => MetricId::WorkerSpilledBytesTotal,
        35 => MetricId::WorkerSpillLeakedFilesTotal,
        36 => MetricId::WorkerSpillLeakedBytesTotal,
        37 => MetricId::WorkerSpillDirsCreatedTotal,
        38 => MetricId::WorkerSpillDirsRemovedTotal,
        39 => MetricId::WorkerSpillCleanupErrorsTotal,
        40 => MetricId::ResultW2bWaitNs,
        41 => MetricId::ResultW2bWaitTotal,
        42 => MetricId::ResultPageReadNs,
        43 => MetricId::ResultPagesReadTotal,
        44 => MetricId::RuntimeFilterAllocatedTotal,
        45 => MetricId::RuntimeFilterReadyTotal,
        46 => MetricId::RuntimeFilterPoolExhaustedTotal,
        47 => MetricId::RuntimeFilterBuildRowsTotal,
        48 => MetricId::RuntimeFilterProbeRowsTotal,
        49 => MetricId::RuntimeFilterProbeRowsRejectedTotal,
        _ => MetricId::RuntimeFilterProbePassUnfilteredTotal,
    }
}

/// The descriptors of all metrics, in the order in which they are stored.
pub fn metric_descriptors() -> (r: Vec<MetricDescriptor>)
    ensures
        r@.len() == METRIC_COUNT,
        forall|i: int| 0 <= i < METRIC_COUNT ==> describes(#[trigger] r@[i], metric_at(i)),
{
    let mut r: Vec<MetricDescriptor> = Vec::new();
    let mut index: usize = 0;
    while index < METRIC_COUNT
        invariant
            index <= METRIC_COUNT,
            r@.len() == index,
            forall|i: int| 0 <= i < index ==> describes(#[trigger] r@[i], metric_at(i)),
        decreases METRIC_COUNT - index,
    {
        r.push(metric_descriptor(metric_id_at(index)));
        index = index + 1;
    }
    r
}

/// Each metric has a place of its own, and each place a metric.
pub proof fn law_metric_places(id: MetricId, index: int)
    requires
        0 <= index < METRIC_COUNT,
    ensures
        metric_at(metric_index(id)) == id,
        metric_index(metric_at(index)) == index,
        0 <= metric_index(id) < METRIC_COUNT,
{
}

/// A number for a name: its length and three of its characters.
spec fn name_key(name: Seq<char>) -> int {
    let n = name.len() as int;
    ((n * 128 + name[n - 14] as int) * 128 + name[n - 11] as int) * 128 + name[n - 7] as int
}

/// The numbers of the names, which are all different.
spec fn key_of(id: MetricId) -> int {
    match id {
        MetricId::QueryTotalNs => 31226223,
        MetricId::BackendTotalNs => 35190639,
        MetricId::BackendExecCallsTotal => 51999219,
        MetricId::BackendRowsReturnedTotal => 58505956,
        MetricId::BackendWaitLatchNs => 45610209,
        MetricId::BackendWaitLatchTotal => 52065896,
        MetricId::ScanPageFillNs => 37466342,
        MetricId::ScanPagePrepareNs => 43544560,
        MetricId::ScanPageFinishNs => 41693934,
        MetricId::ScanPageRetryTotal => 45742457,
        MetricId::ScanFetchCallsTotal => 47772147,
        MetricId::ScanRowsEncodedTotal => 49803748,
        MetricId::ScanFullPagesTotal => 45824115,
        MetricId::ScanEofPagesTotal => 43776115,
        MetricId::ScanPagesSentTotal => 45740020,
        MetricId::ScanBytesSentTotal => 45953012,
        MetricId::ScanB2wWaitNs => 35156343,
        MetricId::ScanB2wWaitTotal => 41463796,
        MetricId::ScanPageReadNs => 37466354,
        MetricId::ScanPagesReadTotal => 45740004,
        MetricId::ScanBatchSendNs => 39320179,
        MetricId::ScanBatchSendTotal => 45952996,
        MetricId::ScanBatchDeliveryNs => 47772278,
        MetricId::ScanBatchDeliveryTotal => 54080761,
        MetricId::ScanIdleSleepNs => 39319148,
        MetricId::ScanIdleSleepTotal => 45824496,
        MetricId::WorkerTotalNs => 33288943,
        MetricId::WorkerPhysicalPlanNs => 50229744,
        MetricId::WorkerPhysicalPlanTotal => 56160238,
        MetricId::WorkerResultPageFillNs => 56439014,
        MetricId::WorkerResultPagesTotal => 54212723,
        MetricId::WorkerResultBytesSentTotal => 64827380,
        MetricId::WorkerSpillCountTotal => 52113908,
        MetricId::WorkerSpilledRowsTotal => 54210547,
        MetricId::WorkerSpilledBytesTotal => 56193395,
        MetricId::WorkerSpillLeakedFilesTotal => 66679667,
        MetricId::WorkerSpillLeakedBytesTotal => 66679155,
        MetricId::WorkerSpillDirsCreatedTotal => 66581220,
        MetricId::WorkerSpillDirsRemovedTotal => 66582244,
        MetricId::WorkerSpillCleanupErrorsTotal => 71055731,
        MetricId::ResultW2bWaitNs => 39533559,
        MetricId::ResultW2bWaitTotal => 46002164,
        MetricId::ResultPageReadNs => 41758962,
        MetricId::ResultPagesReadTotal => 49934308,
        MetricId::RuntimeFilterAllocatedTotal => 64696804,
        MetricId::RuntimeFilterReadyTotal => 56195449,
        MetricId::RuntimeFilterPoolExhaustedTotal => 75381476,
        MetricId::RuntimeFilterBuildRowsTotal => 66744307,
        MetricId::RuntimeFilterProbeRowsTotal => 66842611,
        MetricId::RuntimeFilterProbeRowsRejectedTotal => 85766884,
        MetricId::RuntimeFilterProbePassUnfilteredTotal => 89766500,
    }
}

proof fn lemma_name_key(id: MetricId)
    ensures
        name_key(name_of(id)) == key_of(id),
{
    match id {
        MetricId::QueryTotalNs => {
            reveal_strlit("query_total_ns");
        },
        MetricId::BackendTotalNs => {
            reveal_strlit("backend_total_ns");
        },
        MetricId::BackendExecCallsTotal => {
            reveal_strlit("backend_exec_calls_total");
        },
        MetricId::BackendRowsReturnedTotal => {
            reveal_strlit("backend_rows_returned_total");
        },
        MetricId::BackendWaitLatchNs => {
            reveal_strlit("backend_wait_latch_ns");
        },
        MetricId::BackendWaitLatchTotal => {
            reveal_strlit("backend_wait_latch_total");
        },
        MetricId::ScanPageFillNs => {
            reveal_strlit("scan_page_fill_ns");
        },
        MetricId::ScanPagePrepareNs => {
            reveal_strlit("scan_page_prepare_ns");
        },
        MetricId::ScanPageFinishNs => {
            reveal_strlit("scan_page_finish_ns");
        },
        MetricId::ScanPageRetryTotal => {
            reveal_strlit("scan_page_retry_total");
        },
        MetricId::ScanFetchCallsTotal => {
            reveal_strlit("scan_fetch_calls_total");
        },
        MetricId::ScanRowsEncodedTotal => {
            reveal_strlit("scan_rows_encoded_total");
        },
        MetricId::ScanFullPagesTotal => {
            reveal_strlit("scan_full_pages_total");
        },
        MetricId::ScanEofPagesTotal => {
            reveal_strlit("scan_eof_pages_total");
        },
        MetricId::ScanPagesSentTotal => {
            reveal_strlit("scan_pages_sent_total");
        },
        MetricId::ScanBytesSentTotal => {
            reveal_strlit("scan_bytes_sent_total");
        },
        MetricId::ScanB2wWaitNs => {
            reveal_strlit("scan_b2w_wait_ns");
        },
        MetricId::ScanB2wWaitTotal => {
            reveal_strlit("scan_b2w_wait_total");
        },
        MetricId::ScanPageReadNs => {
            reveal_strlit("scan_page_read_ns");
        },
        MetricId::ScanPagesReadTotal => {
            reveal_strlit("scan_pages_read_total");
        },
        MetricId::ScanBatchSendNs => {
            reveal_strlit("scan_batch_send_ns");
        },
        MetricId::ScanBatchSendTotal => {
            reveal_strlit("scan_batch_send_total");
        },
        MetricId::ScanBatchDeliveryNs => {
            reveal_strlit("scan_batch_delivery_ns");
        },
        MetricId::ScanBatchDeliveryTotal => {
            reveal_strlit("scan_batch_delivery_total");
        },
        MetricId::ScanIdleSleepNs => {
            reveal_strlit("scan_idle_sleep_ns");
        },
        MetricId::ScanIdleSleepTotal => {
            reveal_strlit("scan_idle_sleep_total");
        },
        MetricId::WorkerTotalNs => {
            reveal_strlit("worker_total_ns");
        },
        MetricId::WorkerPhysicalPlanNs => {
            reveal_strlit("worker_physical_plan_ns");
        },
        MetricId::WorkerPhysicalPlanTotal => {
            reveal_strlit("worker_physical_plan_total");
        },
        MetricId::WorkerResultPageFillNs => {
            reveal_strlit("worker_result_page_fill_ns");
        },
        MetricId::WorkerResultPagesTotal => {
            reveal_strlit("worker_result_pages_total");
        },
        MetricId::WorkerResultBytesSentTotal => {
            reveal_strlit("worker_result_bytes_sent_total");
        },
        MetricId::WorkerSpillCountTotal => {
            reveal_strlit("worker_spill_count_total");
        },
        MetricId::WorkerSpilledRowsTotal => {
            reveal_strlit("worker_spilled_rows_total");
        },
        MetricId::WorkerSpilledBytesTotal => {
            reveal_strlit("worker_spilled_bytes_total");
        },
        MetricId::WorkerSpillLeakedFilesTotal => {
            reveal_strlit("worker_spill_leaked_files_total");
        },
        MetricId::WorkerSpillLeakedBytesTotal => {
            reveal_strlit("worker_spill_leaked_bytes_total");
        },
        MetricId::WorkerSpillDirsCreatedTotal => {
            reveal_strlit("worker_spill_dirs_created_total");
        },
        MetricId::WorkerSpillDirsRemovedTotal => {
            reveal_strlit("worker_spill_dirs_removed_total");
        },
        MetricId::WorkerSpillCleanupErrorsTotal => {
            reveal_strlit("worker_spill_cleanup_errors_total");
        },
        MetricId::ResultW2bWaitNs => {
            reveal_strlit("result_w2b_wait_ns");
        },
        MetricId::ResultW2bWaitTotal => {
            reveal_strlit("result_w2b_wait_total");
        },
        MetricId::ResultPageReadNs => {
            reveal_strlit("result_page_read_ns");
        },
        MetricId::ResultPagesReadTotal => {
            reveal_strlit("result_pages_read_total");
        },
        MetricId::RuntimeFilterAllocatedTotal => {
            reveal_strlit("runtime_filter_allocated_total");
        },
        MetricId::RuntimeFilterReadyTotal => {
            reveal_strlit("runtime_filter_ready_total");
        },
        MetricId::RuntimeFilterPoolExhaustedTotal => {
            reveal_strlit("runtime_filter_pool_exhausted_total");
        },
        MetricId::RuntimeFilterBuildRowsTotal => {
            reveal_strlit("runtime_filter_build_rows_total");
        },
        MetricId::RuntimeFilterProbeRowsTotal => {
            reveal_strlit("runtime_filter_probe_rows_total");
        },
        MetricId::RuntimeFilterProbeRowsRejectedTotal => {
            reveal_strlit("runtime_filter_probe_rows_rejected_total");
        },
        MetricId::RuntimeFilterProbePassUnfilteredTotal => {
            reveal_strlit("runtime_filter_probe_pass_unfiltered_total");
        },
    }
}

/// No two metrics have the same name.
pub proof fn law_metric_names_are_unique(a: MetricId, b: MetricId)
    requires
        name_of(a) == name_of(b),
    ensures
        a == b,
{
    lemma_name_key(a);
    lemma_name_key(b);
}

} // verus!

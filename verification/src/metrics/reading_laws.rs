//! What metrics are called and measured in, and which mappings hold them.

use super::descriptor::{
    component_of, kind_of, metric_index, name_of, unit_of, MetricId, MetricKind, MetricUnit,
};
use super::region::{
    elapsed, epoch_word, fresh_header, header_error, layout_error, region_error, region_size,
    saturated, zero_stamp, MetricsError, MetricsHeader, MetricsState, PageDescriptor, PageDirection,
};
use vstd::prelude::*;

verus! {

/// The name of a metric begins with these characters.
pub open spec fn begins(name: Seq<char>, component: Seq<char>) -> bool {
    &&& name.len() > component.len()
    &&& name.take(component.len() as int) == component
    &&& name[component.len() as int] == '_'
}

/// The name of a metric ends in the mark of a time in nanoseconds.
pub open spec fn ends_in_ns(name: Seq<char>) -> bool {
    &&& name.len() >= 3
    &&& name[name.len() - 3] == '_'
    &&& name[name.len() - 2] == 'n'
    &&& name[name.len() - 1] == 's'
}

proof fn lemma_component_of_name(id: MetricId)
    ensures
        begins(name_of(id), component_of(id)),
{
    reveal_strlit("query");
    reveal_strlit("backend");
    reveal_strlit("worker");
    reveal_strlit("result");
    reveal_strlit("scan");
    reveal_strlit("runtime_filter");
    match id {
        MetricId::QueryTotalNs => {
            reveal_strlit("query_total_ns");
        },
        MetricId::BackendTotalNs => {
            reveal_strlit("backend_total_ns");
        },
        MetricId::BackendExecCallsTotal => {
            reveal_strlit("backend_exec_calls_total");
        },
        MetricId::BackendRowsReturnedTotal => {
            reveal_strlit("backend_rows_returned_total");
        },
        MetricId::BackendWaitLatchNs => {
            reveal_strlit("backend_wait_latch_ns");
        },
        MetricId::BackendWaitLatchTotal => {
            reveal_strlit("backend_wait_latch_total");
        },
        MetricId::ScanPageFillNs => {
            reveal_strlit("scan_page_fill_ns");
        },
        MetricId::ScanPagePrepareNs => {
            reveal_strlit("scan_page_prepare_ns");
        },
        MetricId::ScanPageFinishNs => {
            reveal_strlit("scan_page_finish_ns");
        },
        MetricId::ScanPageRetryTotal => {
            reveal_strlit("scan_page_retry_total");
        },
        MetricId::ScanFetchCallsTotal => {
            reveal_strlit("scan_fetch_calls_total");
        },
        MetricId::ScanRowsEncodedTotal => {
            reveal_strlit("scan_rows_encoded_total");
        },
        MetricId::ScanFullPagesTotal => {
            reveal_strlit("scan_full_pages_total");
        },
        MetricId::ScanEofPagesTotal => {
            reveal_strlit("scan_eof_pages_total");
        },
        MetricId::ScanPagesSentTotal => {
            reveal_strlit("scan_pages_sent_total");
        },
        MetricId::ScanBytesSentTotal => {
            reveal_strlit("scan_bytes_sent_total");
        },
        MetricId::ScanB2wWaitNs => {
            reveal_strlit("scan_b2w_wait_ns");
        },
        MetricId::ScanB2wWaitTotal => {
            reveal_strlit("scan_b2w_wait_total");
        },
        MetricId::ScanPageReadNs => {
            reveal_strlit("scan_page_read_ns");
        },
        MetricId::ScanPagesReadTotal => {
            reveal_strlit("scan_pages_read_total");
        },
        MetricId::ScanBatchSendNs => {
            reveal_strlit("scan_batch_send_ns");
        },
        MetricId::ScanBatchSendTotal => {
            reveal_strlit("scan_batch_send_total");
        },
        MetricId::ScanBatchDeliveryNs => {
            reveal_strlit("scan_batch_delivery_ns");
        },
        MetricId::ScanBatchDeliveryTotal => {
            reveal_strlit("scan_batch_delivery_total");
        },
        MetricId::ScanIdleSleepNs => {
            reveal_strlit("scan_idle_sleep_ns");
        },
        MetricId::ScanIdleSleepTotal => {
            reveal_strlit("scan_idle_sleep_total");
        },
        MetricId::WorkerTotalNs => {
            reveal_strlit("worker_total_ns");
        },
        MetricId::WorkerPhysicalPlanNs => {
            reveal_strlit("worker_physical_plan_ns");
        },
        MetricId::WorkerPhysicalPlanTotal => {
            reveal_strlit("worker_physical_plan_total");
        },
        MetricId::WorkerResultPageFillNs => {
            reveal_strlit("worker_result_page_fill_ns");
        },
        MetricId::WorkerResultPagesTotal => {
            reveal_strlit("worker_result_pages_total");
        },
        MetricId::WorkerResultBytesSentTotal => {
            reveal_strlit("worker_result_bytes_sent_total");
        },
        MetricId::WorkerSpillCountTotal => {
            reveal_strlit("worker_spill_count_total");
        },
        MetricId::WorkerSpilledRowsTotal => {
            reveal_strlit("worker_spilled_rows_total");
        },
        MetricId::WorkerSpilledBytesTotal => {
            reveal_strlit("worker_spilled_bytes_total");
        },
        MetricId::WorkerSpillLeakedFilesTotal => {
            reveal_strlit("worker_spill_leaked_files_total");
        },
        MetricId::WorkerSpillLeakedBytesTotal => {
            reveal_strlit("worker_spill_leaked_bytes_total");
        },
        MetricId::WorkerSpillDirsCreatedTotal => {
            reveal_strlit("worker_spill_dirs_created_total");
        },
        MetricId::WorkerSpillDirsRemovedTotal => {
            reveal_strlit("worker_spill_dirs_removed_total");
        },
        MetricId::WorkerSpillCleanupErrorsTotal => {
            reveal_strlit("worker_spill_cleanup_errors_total");
        },
        MetricId::ResultW2bWaitNs => {
            reveal_strlit("result_w2b_wait_ns");
        },
        MetricId::ResultW2bWaitTotal => {
            reveal_strlit("result_w2b_wait_total");
        },
        MetricId::ResultPageReadNs => {
            reveal_strlit("result_page_read_ns");
        },
        MetricId::ResultPagesReadTotal => {
            reveal_strlit("result_pages_read_total");
        },
        MetricId::RuntimeFilterAllocatedTotal => {
            reveal_strlit("runtime_filter_allocated_total");
        },
        MetricId::RuntimeFilterReadyTotal => {
            reveal_strlit("runtime_filter_ready_total");
        },
        MetricId::RuntimeFilterPoolExhaustedTotal => {
            reveal_strlit("runtime_filter_pool_exhausted_total");
        },
        MetricId::RuntimeFilterBuildRowsTotal => {
            reveal_strlit("runtime_filter_build_rows_total");
        },
        MetricId::RuntimeFilterProbeRowsTotal => {
            reveal_strlit("runtime_filter_probe_rows_total");
        },
        MetricId::RuntimeFilterProbeRowsRejectedTotal => {
            reveal_strlit("runtime_filter_probe_rows_rejected_total");
        },
        MetricId::RuntimeFilterProbePassUnfilteredTotal => {
            reveal_strlit("runtime_filter_probe_pass_unfiltered_total");
        },
    }
    let component = component_of(id);
    assert(name_of(id).take(component.len() as int) =~= component);
}

proof fn lemma_unit_of_name(id: MetricId)
    ensures
        ends_in_ns(name_of(id)) <==> unit_of(id) == MetricUnit::Nanoseconds,
{
    match id {
        MetricId::QueryTotalNs => {
            reveal_strlit("query_total_ns");
        },
        MetricId::BackendTotalNs => {
            reveal_strlit("backend_total_ns");
        },
        MetricId::BackendExecCallsTotal => {
            reveal_strlit("backend_exec_calls_total");
        },
        MetricId::BackendRowsReturnedTotal => {
            reveal_strlit("backend_rows_returned_total");
        },
        MetricId::BackendWaitLatchNs => {
            reveal_strlit("backend_wait_latch_ns");
        },
        MetricId::BackendWaitLatchTotal => {
            reveal_strlit("backend_wait_latch_total");
        },
        MetricId::ScanPageFillNs => {
            reveal_strlit("scan_page_fill_ns");
        },
        MetricId::ScanPagePrepareNs => {
            reveal_strlit("scan_page_prepare_ns");
        },
        MetricId::ScanPageFinishNs => {
            reveal_strlit("scan_page_finish_ns");
        },
        MetricId::ScanPageRetryTotal => {
            reveal_strlit("scan_page_retry_total");
        },
        MetricId::ScanFetchCallsTotal => {
            reveal_strlit("scan_fetch_calls_total");
        },
        MetricId::ScanRowsEncodedTotal => {
            reveal_strlit("scan_rows_encoded_total");
        },
        MetricId::ScanFullPagesTotal => {
            reveal_strlit("scan_full_pages_total");
        },
        MetricId::ScanEofPagesTotal => {
            reveal_strlit("scan_eof_pages_total");
        },
        MetricId::ScanPagesSentTotal => {
            reveal_strlit("scan_pages_sent_total");
        },
        MetricId::ScanBytesSentTotal => {
            reveal_strlit("scan_bytes_sent_total");
        },
        MetricId::ScanB2wWaitNs => {
            reveal_strlit("scan_b2w_wait_ns");
        },
        MetricId::ScanB2wWaitTotal => {
            reveal_strlit("scan_b2w_wait_total");
        },
        MetricId::ScanPageReadNs => {
            reveal_strlit("scan_page_read_ns");
        },
        MetricId::ScanPagesReadTotal => {
            reveal_strlit("scan_pages_read_total");
        },
        MetricId::ScanBatchSendNs => {
            reveal_strlit("scan_batch_send_ns");
        },
        MetricId::ScanBatchSendTotal => {
            reveal_strlit("scan_batch_send_total");
        },
        MetricId::ScanBatchDeliveryNs => {
            reveal_strlit("scan_batch_delivery_ns");
        },
        MetricId::ScanBatchDeliveryTotal => {
            reveal_strlit("scan_batch_delivery_total");
        },
        MetricId::ScanIdleSleepNs => {
            reveal_strlit("scan_idle_sleep_ns");
        },
        MetricId::ScanIdleSleepTotal => {
            reveal_strlit("scan_idle_sleep_total");
        },
        MetricId::WorkerTotalNs => {
            reveal_strlit("worker_total_ns");
        },
        MetricId::WorkerPhysicalPlanNs => {
            reveal_strlit("worker_physical_plan_ns");
        },
        MetricId::WorkerPhysicalPlanTotal => {
            reveal_strlit("worker_physical_plan_total");
        },
        MetricId::WorkerResultPageFillNs => {
            reveal_strlit("worker_result_page_fill_ns");
        },
        MetricId::WorkerResultPagesTotal => {
            reveal_strlit("worker_result_pages_total");
        },
        MetricId::WorkerResultBytesSentTotal => {
            reveal_strlit("worker_result_bytes_sent_total");
        },
        MetricId::WorkerSpillCountTotal => {
            reveal_strlit("worker_spill_count_total");
        },
        MetricId::WorkerSpilledRowsTotal => {
            reveal_strlit("worker_spilled_rows_total");
        },
        MetricId::WorkerSpilledBytesTotal => {
            reveal_strlit("worker_spilled_bytes_total");
        },
        MetricId::WorkerSpillLeakedFilesTotal => {
            reveal_strlit("worker_spill_leaked_files_total");
        },
        MetricId::WorkerSpillLeakedBytesTotal => {
            reveal_strlit("worker_spill_leaked_bytes_total");
        },
        MetricId::WorkerSpillDirsCreatedTotal => {
            reveal_strlit("worker_spill_dirs_created_total");
        },
        MetricId::WorkerSpillDirsRemovedTotal => {
            reveal_strlit("worker_spill_dirs_removed_total");
        },
        MetricId::WorkerSpillCleanupErrorsTotal => {
            reveal_strlit("worker_spill_cleanup_errors_total");
        },
        MetricId::ResultW2bWaitNs => {
            reveal_strlit("result_w2b_wait_ns");
        },
        MetricId::ResultW2bWaitTotal => {
            reveal_strlit("result_w2b_wait_total");
        },
        MetricId::ResultPageReadNs => {
            reveal_strlit("result_page_read_ns");
        },
        MetricId::ResultPagesReadTotal => {
            reveal_strlit("result_pages_read_total");
        },
        MetricId::RuntimeFilterAllocatedTotal => {
            reveal_strlit("runtime_filter_allocated_total");
        },
        MetricId::RuntimeFilterReadyTotal => {
            reveal_strlit("runtime_filter_ready_total");
        },
        MetricId::RuntimeFilterPoolExhaustedTotal => {
            reveal_strlit("runtime_filter_pool_exhausted_total");
        },
        MetricId::RuntimeFilterBuildRowsTotal => {
            reveal_strlit("runtime_filter_build_rows_total");
        },
        MetricId::RuntimeFilterProbeRowsTotal => {
            reveal_strlit("runtime_filter_probe_rows_total");
        },
        MetricId::RuntimeFilterProbeRowsRejectedTotal => {
            reveal_strlit("runtime_filter_probe_rows_rejected_total");
        },
        MetricId::RuntimeFilterProbePassUnfilteredTotal => {
            reveal_strlit("runtime_filter_probe_pass_unfiltered_total");
        },
    }
}

/// A metric is named after the component that counts it, and its name says whether
/// it is a time: times are timers in nanoseconds, and everything else is a counter
/// of bytes or of things.
pub proof fn law_names_tell_component_and_unit(id: MetricId)
    ensures
        begins(name_of(id), component_of(id)),
        ends_in_ns(name_of(id)) <==> unit_of(id) == MetricUnit::Nanoseconds,
        kind_of(id) == MetricKind::Timer <==> unit_of(id) == MetricUnit::Nanoseconds,
        kind_of(id) == MetricKind::Counter <==> unit_of(id) != MetricUnit::Nanoseconds,
        unit_of(id) == MetricUnit::Bytes <==> (id is ScanBytesSentTotal
            || id is WorkerResultBytesSentTotal || id is WorkerSpilledBytesTotal
            || id is WorkerSpillLeakedBytesTotal),
{
    lemma_component_of_name(id);
    lemma_unit_of_name(id);
}

/// The metrics of a component stand together, in the order query, backend, scan,
/// worker, result and filter.
pub proof fn law_components_stand_together(id: MetricId)
    ensures
        metric_index(id) == 0 <==> component_of(id) == "query"@,
        1 <= metric_index(id) <= 5 <==> component_of(id) == "backend"@,
        6 <= metric_index(id) <= 25 <==> component_of(id) == "scan"@,
        26 <= metric_index(id) <= 39 <==> component_of(id) == "worker"@,
        40 <= metric_index(id) <= 43 <==> component_of(id) == "result"@,
        44 <= metric_index(id) <= 50 <==> component_of(id) == "runtime_filter"@,
{
    reveal_strlit("query");
    reveal_strlit("backend");
    reveal_strlit("worker");
    reveal_strlit("result");
    reveal_strlit("scan");
    reveal_strlit("runtime_filter");
    assert("query"@.len() == 5 && "backend"@.len() == 7 && "scan"@.len() == 4);
    assert("worker"@.len() == 6 && "result"@.len() == 6 && "runtime_filter"@.len() == 14);
    assert("worker"@[0] == 'w' && "result"@[0] == 'r');
    assert("worker"@ != "result"@);
}

/// Counts stop at the largest number, and a time that would be negative is none.
pub proof fn law_counts_and_times_stay_in_range(sum: int, now: u64, start: u64)
    requires
        sum >= 0,
    ensures
        saturated(sum) <= sum,
        saturated(sum) == sum || saturated(sum) == u64::MAX,
        sum <= u64::MAX ==> saturated(sum) == sum,
        now >= start ==> elapsed(now, start) + start == now,
        now < start ==> elapsed(now, start) == 0,
{
}

/// A stamp is for its page alone: every other page, every count and the epoch stay
/// as they are. A page without a place for a stamp is not stamped.
pub proof fn law_stamp_is_for_one_page(
    state: MetricsState,
    direction: PageDirection,
    page: PageDescriptor,
    payload_bytes: u64,
    now_ns: u64,
    other: int,
)
    requires
        0 <= other < state.stamps.len(),
        other != page.page_id,
    ensures
        ({
            let after = state.stamped(direction, page, payload_bytes, now_ns);
            &&& after.stamps.len() == state.stamps.len()
            &&& after.stamps[other] == state.stamps[other]
            &&& after.values == state.values
            &&& after.header == state.header
            &&& page.page_id >= state.stamps.len() ==> after == state
        }),
{
}

/// Metrics that are not attached count nothing and say zero of everything.
pub proof fn law_detached_metrics_count_nothing(state: MetricsState, id: MetricId, value: u64)
    requires
        state.header is None,
    ensures
        state.added(id, value) == state,
        state.value(id) == 0,
        state.reset() == state,
        state.current_epoch() == 0,
{
}

/// A page is observed exactly if its stamp is of the current epoch, the same
/// direction, the same pool and the same generation, and was given a time.
pub proof fn law_only_matching_stamps_are_observed(
    state: MetricsState,
    direction: PageDirection,
    page: PageDescriptor,
    now_ns: u64,
)
    ensures
        state.observed(direction, page, now_ns) is Some <==> {
            &&& page.page_id < state.stamps.len()
            &&& state.stamps[page.page_id as int].epoch_direction == epoch_word(
                state.current_epoch(),
                direction,
            )
            &&& state.stamps[page.page_id as int].pool_id == page.pool_id
            &&& state.stamps[page.page_id as int].generation == page.generation
            &&& state.stamps[page.page_id as int].sent_ns != 0
        },
        state.observed(direction, page, now_ns) matches Some(observation) ==> {
            &&& observation.payload_bytes == state.stamps[page.page_id as int].payload_bytes
            &&& now_ns >= state.stamps[page.page_id as int].sent_ns ==> observation.wait_ns
                == now_ns - state.stamps[page.page_id as int].sent_ns
            &&& now_ns < state.stamps[page.page_id as int].sent_ns ==> observation.wait_ns == 0
        },
        zero_stamp().sent_ns == 0,
        zero_stamp().payload_bytes == 0,
        zero_stamp().epoch_direction == 0,
{
}

/// The word of a stamp holds the lowest 56 bits of the epoch, and the direction in
/// its last byte: one towards the worker, two towards the backend.
pub proof fn law_stamp_word(epoch: u64, direction: PageDirection)
    ensures
        epoch_word(epoch, direction) % 256 == if direction is BackendToWorker {
            1int
        } else {
            2int
        },
        epoch_word(epoch, direction) / 256 == epoch as int % 0x100_0000_0000_0000,
        0 < epoch_word(epoch, direction) <= u64::MAX,
{
}

/// Metrics for so many pages take up a header, a place for each metric and a stamp
/// for each page. There are none for no page.
pub proof fn law_metrics_have_a_place_for_each(page_count: u32)
    ensures
        region_size(page_count) == 40 + 8 * 51 + 40 * page_count,
        layout_error(page_count) is None <==> page_count > 0 && region_size(page_count)
            <= isize::MAX - 7,
        page_count == 0 <==> layout_error(page_count) == Some(MetricsError::ZeroPageCount),
        page_count > 0 && region_size(page_count) > isize::MAX - 7 ==> layout_error(page_count)
            == Some(MetricsError::LayoutOverflow),
        fresh_header(page_count).magic == 0x5047_4655_4D45_5431,
        fresh_header(page_count).version == 12,
        fresh_header(page_count).metric_count == 51,
        fresh_header(page_count).page_count == page_count,
        fresh_header(page_count).reset_epoch == 1,
{
}

/// A mapping can hold metrics exactly if it is aligned to eight bytes and large
/// enough.
pub proof fn law_mappings_that_hold_metrics(base: usize, len: usize, size: int)
    requires
        0 <= size <= usize::MAX,
    ensures
        region_error(base, len, size) is None <==> base % 8 == 0 && len >= size,
        base % 8 != 0 <==> region_error(base, len, size) == Some(
            MetricsError::BadAlignment { expected: 8, actual: base },
        ),
        base % 8 == 0 && len < size <==> region_error(base, len, size) == Some(
            MetricsError::RegionTooSmall { expected: size as usize, actual: len },
        ),
{
}

/// Metrics are attached exactly if their header is of this format, with as many
/// metrics, as many pages as can be and the size that goes with them, in a mapping
/// that holds them. The first of these that fails is told.
pub proof fn law_metrics_that_can_be_attached(header: MetricsHeader, base: usize, len: usize)
    ensures
        ({
            let error = header_error(header, base, len);
            let marked = header.magic == 0x5047_4655_4D45_5431;
            let current = header.version == 12;
            let complete = header.metric_count == 51;
            let size = region_size(header.page_count);
            let layout = layout_error(header.page_count);
            let mapping = region_error(base, len, size);
            let sized = header.region_size as usize == size;
            let read = marked && current && complete;
            &&& error is None <==> read && layout is None && mapping is None && sized
            &&& (error matches Some(MetricsError::BadMagic { actual, .. }) && actual
                == header.magic) <==> !marked
            &&& error == Some(
                MetricsError::UnsupportedVersion { expected: 12, actual: header.version },
            ) <==> marked && !current
            &&& error == Some(
                MetricsError::MetricCountMismatch { expected: 51, actual: header.metric_count },
            ) <==> marked && current && !complete
            &&& read && layout is Some ==> error == layout
            &&& read && layout is None && mapping is Some ==> error == mapping
            &&& read && layout is None && mapping is None && !sized ==> error == Some(
                MetricsError::LayoutMismatch {
                    expected: size as usize,
                    actual: header.region_size as usize,
                },
            )
        }),
{
}

} // verus!

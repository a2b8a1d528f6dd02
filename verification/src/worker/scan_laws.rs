//! What a worker makes of what comes in on a scan, and in which order it asks.

use super::error::{violates, WorkerRuntimeError};
use super::scan_exec::ScanProducerPeer;
use super::scan_flow_driver::{
    control_encoded, declared, driver_step, ScanFlowDriverStep, WorkerStep,
};
use super::transport_scan_source::{
    action_in, forward_of, inbound_as, next_phase, outcome_as, scan_control_sent, scan_rings_fault,
    terminal_target, wrong_family_text, ForwardAction, ProducerOutcome, ScanInbound, ScanLoopAction,
    ScanLoopEvent, ScanPhase,
};
use crate::control::error::WorkerTxError;
use crate::control::region::{sent_to_backend, RegionState};
use crate::control::worker::WorkerSlot;
use crate::metrics::descriptor::{law_metric_places, MetricId, METRIC_COUNT};
use crate::metrics::region::{elapsed, MetricsState, PageDescriptor, PageDirection};
use crate::protocol::codec::{parse_backend_scan, worker_scan_bytes};
use crate::protocol::envelope::law_envelope_is_eight_bytes;
use crate::protocol::error::DecodeFault;
use crate::protocol::message::{BackendScanMessage, RuntimeMessageFamily, WorkerScanMessage};
use vstd::prelude::*;

verus! {

/// A frame on a scan that has the marks of an issued page is taken for one
/// exactly if it does not begin as an envelope of the current version: because it
/// is shorter than one, because its first four bytes are not those of an
/// envelope, or because the version is another. A frame that does begin so is
/// read as a message; one without the marks never counts as a page.
pub proof fn law_issued_frame_is_no_envelope<'a>(
    r: Result<ScanInbound<'a>, WorkerRuntimeError>,
    bytes: Seq<u8>,
    is_issued: bool,
)
    requires
        bytes.len() <= usize::MAX,
        inbound_as(r, bytes, is_issued),
    ensures
        ({
            let envelope = bytes.len() >= 8 && bytes[0] == 0x50 && bytes[1] == 0x46 && bytes[2]
                == 0x52 && bytes[3] == 0x32 && bytes[4] == 0 && bytes[5] == 4;
            &&& (r matches Ok(ScanInbound::Issued)) <==> is_issued && !envelope
            &&& (r matches Ok(ScanInbound::Control(_))) <==> envelope && bytes[6] == 4
                && parse_backend_scan(bytes) is Ok
            &&& r matches Ok(ScanInbound::Control(control)) ==> parse_backend_scan(bytes) == Ok::<
                BackendScanMessage,
                DecodeFault,
            >(control@)
            &&& envelope && 1 <= bytes[6] <= 3 <==> (r matches Err(
                WorkerRuntimeError::ProtocolViolation(_),
            ))
            &&& (r matches Err(WorkerRuntimeError::Decode(_))) <==> {
                ||| !envelope && !is_issued
                ||| envelope && !(1 <= bytes[6] <= 4)
                ||| envelope && bytes[6] == 4 && parse_backend_scan(bytes) is Err
            }
        }),
{
    law_envelope_is_eight_bytes(bytes);
}

/// The rings of a scan are refused exactly if one of them holds less than 256
/// bytes. The one towards the worker is looked at first, and the refusal names
/// the ring, what it must hold and what it holds.
pub proof fn law_small_rings_are_refused(inbound: usize, outbound: usize)
    ensures
        scan_rings_fault(inbound, outbound) is None <==> inbound >= 256 && outbound >= 256,
        scan_rings_fault(inbound, outbound) matches Some((ring, required, actual)) ==> {
            &&& required == 256
            &&& actual < 256
            &&& inbound < 256 ==> ring == "backend_to_worker"@ && actual == inbound
            &&& inbound >= 256 ==> ring == "worker_to_backend"@ && actual == outbound
        },
{
}

/// A terminal of a producer ends that producer's part, well or with the text of
/// its failure, and speaks of the scan that it names.
pub proof fn law_terminal_ends_its_producer(outcome: ProducerOutcome, terminal: BackendScanMessage)
    requires
        outcome_as(outcome, terminal),
    ensures
        outcome is Eof <==> terminal is ScanFinished,
        match terminal {
            BackendScanMessage::ScanFinished { session_epoch, scan_id, producer_id } => {
                &&& terminal_target(terminal) == (session_epoch, scan_id)
                &&& outcome matches ProducerOutcome::Eof { producer_id: ended } && ended
                    == producer_id
            },
            BackendScanMessage::ScanFailed { session_epoch, scan_id, producer_id, message } => {
                &&& terminal_target(terminal) == (session_epoch, scan_id)
                &&& outcome matches ProducerOutcome::Failed { producer_id: ended, message: text }
                    && ended == producer_id && text@ == message
            },
        },
{
}

/// What the flow of a scan answers reaches the stream: a page as a batch, its end
/// as the end, an error as an error that ends it; where the flow has nothing to
/// say, nothing happens. The flow, the producer and the text stay what they are.
pub proof fn law_answers_reach_the_stream(step: WorkerStep)
    ensures
        forward_of(driver_step(step)) == ForwardAction::Nothing <==> step is Idle,
        forward_of(driver_step(step)) == ForwardAction::DeliverBatch <==> step is Page,
        forward_of(driver_step(step)) == ForwardAction::Close <==> step is LogicalEof,
        forward_of(driver_step(step)) == ForwardAction::DeliverErrorAndClose
            <==> step is LogicalError,
        step matches WorkerStep::Page { flow, producer_id } ==> driver_step(step)
            == (ScanFlowDriverStep::Batch { flow, producer_id }),
        step matches WorkerStep::LogicalEof { flow } ==> driver_step(step)
            == (ScanFlowDriverStep::LogicalEof { flow }),
        step matches WorkerStep::LogicalError { flow, producer_id, message } ==> driver_step(step)
            == (ScanFlowDriverStep::LogicalError { flow, producer_id, message }),
{
}

/// A scan declares every one of its peers, in order, with its number and role.
pub proof fn law_every_peer_is_declared(peers: Seq<ScanProducerPeer>, i: int)
    requires
        0 <= i < peers.len(),
    ensures
        declared(peers).len() == peers.len(),
        declared(peers)[i].producer_id == peers[i].producer_id,
        declared(peers)[i].role == peers[i].role,
{
}

/// What the loop of a scan asks for next. Before a round it asks whether to stop;
/// within a round it asks producer after producer; behind the last it starts over
/// at once if any of them had a frame, and sleeps otherwise. The terminal of the
/// scan ends the loop, and so does a failure at any point.
pub proof fn law_scan_loop_asks_in_turn(producers: usize, phase: ScanPhase, event: ScanLoopEvent)
    requires
        producers > 0,
        phase matches ScanPhase::Polling { index, .. } ==> index < producers,
    ensures
        ({
            let asked = action_in(phase);
            let next = action_in(next_phase(producers, phase, event));
            let over = asked == ScanLoopAction::Finish || asked == ScanLoopAction::CancelAndAbort;
            &&& over ==> next == asked
            &&& !over && event is Failure ==> next == ScanLoopAction::Finish
            &&& asked == ScanLoopAction::CheckStop && event is KeepGoing ==> next
                == (ScanLoopAction::Poll { index: 0 })
            &&& asked == ScanLoopAction::CheckStop && event is StopRequested ==> next
                == ScanLoopAction::CancelAndAbort
            &&& asked == ScanLoopAction::Sleep && event is Slept ==> next
                == ScanLoopAction::CheckStop
            &&& asked matches ScanLoopAction::Poll { index } ==> {
                let had_frame = phase->any_frame;
                &&& event matches ScanLoopEvent::FrameHandled { terminal } ==> {
                    &&& terminal ==> next == ScanLoopAction::Finish
                    &&& !terminal && index + 1 < producers ==> next == (ScanLoopAction::Poll {
                        index: (index + 1) as usize,
                    })
                    &&& !terminal && index + 1 == producers ==> next == ScanLoopAction::CheckStop
                }
                &&& event is NoFrame ==> {
                    &&& index + 1 < producers ==> next == (ScanLoopAction::Poll {
                        index: (index + 1) as usize,
                    })
                    &&& index + 1 == producers && had_frame ==> next == ScanLoopAction::CheckStop
                    &&& index + 1 == producers && !had_frame ==> next == ScanLoopAction::Sleep
                }
            }
        }),
{
}

/// Reading a page counts one page, and its time if the clock was running.
/// Nothing else is counted.
pub proof fn law_page_read_is_counted(
    state: MetricsState,
    start_ns: u64,
    end_ns: u64,
    other: MetricId,
)
    requires
        state.header is Some,
        state.values.len() == METRIC_COUNT,
    ensures
        ({
            let after = state.page_read(start_ns, end_ns);
            let spent = if start_ns == 0 || end_ns < start_ns {
                0int
            } else {
                end_ns - start_ns
            };
            &&& grown(state, after, MetricId::ScanPagesReadTotal, 1)
            &&& grown(state, after, MetricId::ScanPageReadNs, spent)
            &&& other != MetricId::ScanPagesReadTotal && other != MetricId::ScanPageReadNs
                ==> after.value(other) == state.value(other)
        }),
{
    lemma_added(state, MetricId::ScanPageReadNs, elapsed(end_ns, start_ns), other);
    lemma_added(
        state,
        MetricId::ScanPageReadNs,
        elapsed(end_ns, start_ns),
        MetricId::ScanPagesReadTotal,
    );
    let timed = if start_ns == 0 {
        state
    } else {
        state.added(MetricId::ScanPageReadNs, elapsed(end_ns, start_ns))
    };
    lemma_added(timed, MetricId::ScanPagesReadTotal, 1, other);
    lemma_added(timed, MetricId::ScanPagesReadTotal, 1, MetricId::ScanPageReadNs);
}

/// The metric has grown by so much, up to the largest number.
pub open spec fn grown(before: MetricsState, after: MetricsState, id: MetricId, by: int) -> bool {
    after.value(id) == if before.value(id) + by > u64::MAX {
        u64::MAX as int
    } else {
        before.value(id) + by
    }
}

proof fn lemma_added(state: MetricsState, id: MetricId, value: u64, other: MetricId)
    requires
        state.header is Some,
        state.values.len() == METRIC_COUNT,
    ensures
        state.added(id, value).header is Some,
        state.added(id, value).values.len() == METRIC_COUNT,
        grown(state, state.added(id, value), id, value as int),
        other != id ==> state.added(id, value).value(other) == state.value(other),
        grown(state, state, other, 0),
{
    law_metric_places(id, 0);
    law_metric_places(other, 0);
}

/// A delivered batch counts one sending and its time. Where the clock of its
/// delivery was running, it counts one delivery and the time of that too.
pub proof fn law_delivery_is_counted(
    state: MetricsState,
    send_start: u64,
    send_end: u64,
    delivery_start: Option<u64>,
    other: MetricId,
)
    requires
        state.header is Some,
        state.values.len() == METRIC_COUNT,
        send_start <= send_end,
    ensures
        ({
            let after = state.batch_delivered(send_start, send_end, delivery_start);
            &&& grown(state, after, MetricId::ScanBatchSendTotal, 1)
            &&& grown(state, after, MetricId::ScanBatchSendNs, send_end - send_start)
            &&& grown(
                state,
                after,
                MetricId::ScanBatchDeliveryTotal,
                if delivery_start is Some {
                    1
                } else {
                    0
                },
            )
            &&& grown(
                state,
                after,
                MetricId::ScanBatchDeliveryNs,
                match delivery_start {
                    Some(start) => if start <= send_end {
                        send_end - start
                    } else {
                        0
                    },
                    None => 0,
                },
            )
            &&& other != MetricId::ScanBatchSendTotal && other != MetricId::ScanBatchSendNs && other
                != MetricId::ScanBatchDeliveryTotal && other != MetricId::ScanBatchDeliveryNs
                ==> after.value(other) == state.value(other)
        }),
{
    let sent = state.added(MetricId::ScanBatchSendNs, elapsed(send_end, send_start));
    lemma_two_added(
        state,
        MetricId::ScanBatchSendNs,
        elapsed(send_end, send_start),
        MetricId::ScanBatchSendTotal,
        1,
        other,
    );
    lemma_two_added(
        state,
        MetricId::ScanBatchSendNs,
        elapsed(send_end, send_start),
        MetricId::ScanBatchSendTotal,
        1,
        MetricId::ScanBatchDeliveryNs,
    );
    lemma_two_added(
        state,
        MetricId::ScanBatchSendNs,
        elapsed(send_end, send_start),
        MetricId::ScanBatchSendTotal,
        1,
        MetricId::ScanBatchDeliveryTotal,
    );
    let delivered = sent.added(MetricId::ScanBatchSendTotal, 1);
    if delivery_start is Some {
        let time = elapsed(send_end, delivery_start->0);
        lemma_two_added(
            delivered,
            MetricId::ScanBatchDeliveryNs,
            time,
            MetricId::ScanBatchDeliveryTotal,
            1,
            other,
        );
        lemma_two_added(
            delivered,
            MetricId::ScanBatchDeliveryNs,
            time,
            MetricId::ScanBatchDeliveryTotal,
            1,
            MetricId::ScanBatchSendNs,
        );
        lemma_two_added(
            delivered,
            MetricId::ScanBatchDeliveryNs,
            time,
            MetricId::ScanBatchDeliveryTotal,
            1,
            MetricId::ScanBatchSendTotal,
        );
    }
}

pub proof fn lemma_two_added(
    state: MetricsState,
    a: MetricId,
    x: u64,
    b: MetricId,
    y: u64,
    other: MetricId,
)
    requires
        state.header is Some,
        state.values.len() == METRIC_COUNT,
        a != b,
    ensures
        ({
            let after = state.added(a, x).added(b, y);
            &&& after.header is Some
            &&& after.values.len() == METRIC_COUNT
            &&& grown(state, after, a, x as int)
            &&& grown(state, after, b, y as int)
            &&& other != a && other != b ==> after.value(other) == state.value(other)
        }),
{
    lemma_added(state, a, x, other);
    lemma_added(state, a, x, b);
    lemma_added(state.added(a, x), b, y, other);
    lemma_added(state.added(a, x), b, y, a);
}

/// A sleep of the loop counts once, with its time.
pub proof fn law_sleep_is_counted(
    state: MetricsState,
    start_ns: u64,
    end_ns: u64,
    other: MetricId,
)
    requires
        state.header is Some,
        state.values.len() == METRIC_COUNT,
        start_ns <= end_ns,
    ensures
        grown(state, state.slept(start_ns, end_ns), MetricId::ScanIdleSleepTotal, 1),
        grown(state, state.slept(start_ns, end_ns), MetricId::ScanIdleSleepNs, end_ns - start_ns),
        other != MetricId::ScanIdleSleepTotal && other != MetricId::ScanIdleSleepNs
            ==> state.slept(start_ns, end_ns).value(other) == state.value(other),
{
    lemma_two_added(
        state,
        MetricId::ScanIdleSleepNs,
        elapsed(end_ns, start_ns),
        MetricId::ScanIdleSleepTotal,
        1,
        other,
    );
}

/// A page that comes in from the backend counts its wait exactly if the backend
/// stamped that page in the current epoch: the time since the stamp, once.
pub proof fn law_wait_is_counted(
    state: MetricsState,
    page: Option<PageDescriptor>,
    read_ns: u64,
    other: MetricId,
)
    requires
        state.header is Some,
        state.values.len() == METRIC_COUNT,
    ensures
        ({
            let after = state.page_received(page, read_ns);
            let seen = match page {
                Some(descriptor) => state.observed(
                    PageDirection::BackendToWorker,
                    descriptor,
                    read_ns,
                ),
                None => None,
            };
            &&& seen is None ==> after == state
            &&& seen matches Some(observation) ==> {
                &&& grown(state, after, MetricId::ScanB2wWaitTotal, 1)
                &&& grown(state, after, MetricId::ScanB2wWaitNs, observation.wait_ns as int)
                &&& other != MetricId::ScanB2wWaitTotal && other != MetricId::ScanB2wWaitNs
                    ==> after.value(other) == state.value(other)
            }
        }),
{
    if page is Some {
        let seen = state.observed(PageDirection::BackendToWorker, page->0, read_ns);
        if seen is Some {
            lemma_two_added(
                state,
                MetricId::ScanB2wWaitNs,
                seen->0.wait_ns,
                MetricId::ScanB2wWaitTotal,
                1,
                other,
            );
        }
    }
}

/// A control message is encoded into a buffer exactly if it fits; a buffer into
/// which it does not fit stays as it is.
pub proof fn law_control_fits_or_is_refused(
    r: Result<usize, WorkerRuntimeError>,
    message: WorkerScanMessage,
    before: Seq<u8>,
    after: Seq<u8>,
)
    requires
        control_encoded(r, message, before, after),
        before.len() <= usize::MAX,
    ensures
        ({
            let bytes = worker_scan_bytes(message);
            &&& r is Ok <==> bytes.len() <= before.len()
            &&& r is Err ==> r == Err::<usize, WorkerRuntimeError>(
                WorkerRuntimeError::ControlFrameTooLarge,
            ) && after == before
            &&& r matches Ok(n) ==> n == bytes.len() && after.take(n as int) == bytes
                && after.skip(n as int) == before.skip(n as int)
        }),
{
    if r is Ok {
        let n = worker_scan_bytes(message).len() as int;
        assert(after.take(n) =~= worker_scan_bytes(message));
        assert(after.skip(n) =~= before.skip(n));
    }
}

/// Scan control goes onto the ring towards the backend exactly if it fits into
/// the scratch room, the claim of the worker is good, and the ring takes it. What
/// does not hold is told in this order, and the region then stays as it is.
pub proof fn law_scan_control_is_sent(
    r: Result<(), WorkerRuntimeError>,
    slot: WorkerSlot,
    message: WorkerScanMessage,
    room: int,
    before: RegionState,
    after: RegionState,
)
    requires
        scan_control_sent(r, slot, message, room, before, after),
    ensures
        ({
            let bytes = worker_scan_bytes(message);
            let id = slot.slot_id as int;
            let fits = bytes.len() <= room;
            let good = slot.verdict(before) is None;
            let ring = before.slots[id].to_backend;
            let taken = ring.send_error(bytes.len() as int) is None;
            &&& r is Ok <==> fits && good && taken
            &&& r is Err ==> after == before
            &&& r is Ok ==> sent_to_backend(before, id, bytes, after)
            &&& !fits ==> r == Err::<(), WorkerRuntimeError>(
                WorkerRuntimeError::ControlFrameTooLarge,
            )
            &&& fits ==> (slot.verdict(before) matches Some(e) ==> r == Err::<
                (),
                WorkerRuntimeError,
            >(WorkerRuntimeError::Slot(e)))
            &&& fits && good ==> (ring.send_error(bytes.len() as int) matches Some(e) ==> r
                == Err::<(), WorkerRuntimeError>(
                WorkerRuntimeError::Send(WorkerTxError::Ring(e)),
            ))
        }),
{
}

/// A message of another family is refused by the name of its family.
pub proof fn law_refusal_names_the_family(family: RuntimeMessageFamily, error: WorkerRuntimeError)
    requires
        violates(error, wrong_family_text(family)),
    ensures
        error is ProtocolViolation,
        family is BackendExecutionToWorker ==> (error matches WorkerRuntimeError::ProtocolViolation(
            text,
        ) && text@ == "unexpected runtime family BackendExecutionToWorker on dedicated scan peer"@),
        family is WorkerExecutionToBackend ==> (error matches WorkerRuntimeError::ProtocolViolation(
            text,
        ) && text@ == "unexpected runtime family WorkerExecutionToBackend on dedicated scan peer"@),
        family is WorkerScanToBackend ==> (error matches WorkerRuntimeError::ProtocolViolation(
            text,
        ) && text@ == "unexpected runtime family WorkerScanToBackend on dedicated scan peer"@),
        family is BackendScanToWorker ==> (error matches WorkerRuntimeError::ProtocolViolation(
            text,
        ) && text@ == "unexpected runtime family BackendScanToWorker on dedicated scan peer"@),
{
    reveal_strlit("unexpected runtime family ");
    reveal_strlit(" on dedicated scan peer");
    reveal_strlit("BackendExecutionToWorker");
    reveal_strlit("unexpected runtime family BackendExecutionToWorker on dedicated scan peer");
    reveal_strlit("WorkerExecutionToBackend");
    reveal_strlit("unexpected runtime family WorkerExecutionToBackend on dedicated scan peer");
    reveal_strlit("WorkerScanToBackend");
    reveal_strlit("unexpected runtime family WorkerScanToBackend on dedicated scan peer");
    reveal_strlit("BackendScanToWorker");
    reveal_strlit("unexpected runtime family BackendScanToWorker on dedicated scan peer");
    let text = wrong_family_text(family);
    match family {
        RuntimeMessageFamily::BackendExecutionToWorker => {
            assert(text =~= "unexpected runtime family BackendExecutionToWorker on dedicated scan peer"@);
        },
        RuntimeMessageFamily::WorkerExecutionToBackend => {
            assert(text =~= "unexpected runtime family WorkerExecutionToBackend on dedicated scan peer"@);
        },
        RuntimeMessageFamily::WorkerScanToBackend => {
            assert(text =~= "unexpected runtime family WorkerScanToBackend on dedicated scan peer"@);
        },
        RuntimeMessageFamily::BackendScanToWorker => {
            assert(text =~= "unexpected runtime family BackendScanToWorker on dedicated scan peer"@);
        },
    }
}

} // verus!

//! What the worker decides: executions, scans, filters and spilling.

use fusion_runtime::control::backend::BackendSlotLease;
use fusion_runtime::control::layout::TransportRegionLayout;
use fusion_runtime::control::lease::{BackendLeaseId, BackendLeaseSlot};
use fusion_runtime::control::process::{KillAnswer, LivenessTable};
use fusion_runtime::control::region::TransportRegion;
use fusion_runtime::control::registry::ProcessContext;
use fusion_runtime::control::worker::{WorkerSlot, WorkerTransport};
use fusion_runtime::filter::bloom::BloomParams;
use fusion_runtime::filter::hash::{
    hash_bool_key, hash_bytes_key, hash_float32_key, hash_float64_key, hash_int_key,
};
use fusion_runtime::filter::lifecycle::{
    pack_lifecycle_word, ProbeDecision, RuntimeFilterState,
};
use fusion_runtime::filter::pool::{
    RuntimeFilterKeyType, RuntimeFilterPool, RuntimeFilterPoolConfig, RuntimeFilterTarget,
};
use fusion_runtime::metrics::descriptor::MetricId;
use fusion_runtime::metrics::region::{
    PageDescriptor, PageDirection, RuntimeMetrics, RuntimeMetricsConfig,
};
use fusion_runtime::protocol::codec::{
    decode_worker_scan_to_backend, encode_backend_scan_to_worker_into,
    encode_worker_scan_to_backend_into, encoded_len_backend_scan_to_worker,
};
use fusion_runtime::protocol::error::DecodeError;
use fusion_runtime::protocol::message::{
    BackendScanToWorker, WorkerScanToBackend, WorkerScanToBackendRef,
};
use fusion_runtime::protocol::scan::{ProducerDescriptorWire, ProducerRole, ProducerSetError};
use fusion_runtime::protocol::session::{
    MIN_SCAN_BACKEND_TO_WORKER_RING_CAPACITY, MIN_SCAN_WORKER_TO_BACKEND_RING_CAPACITY,
};
use fusion_runtime::protocol::sets::ProducerSetRef;
use fusion_runtime::worker::error::{missing_peer_message, WorkerRuntimeError};
use fusion_runtime::worker::fsm::worker_execution_flow::{
    StateMachine, TransitionImpossibleError,
};
use fusion_runtime::worker::fsm::{
    WorkerExecutionAction, WorkerExecutionEvent, WorkerExecutionState,
};
use fusion_runtime::worker::key_column::KeyColumn;
use fusion_runtime::worker::runtime_filter_install::{install_runtime_filters, PlanTree};
use fusion_runtime::worker::runtime_filter_plan::{
    key_type_for_pair, maybe_wrap_hash_join, runtime_filter_probe_scan, JoinFacts, KeyDataType,
    PlanNode, RuntimeFilterBuildState,
};
use fusion_runtime::worker::scan_exec::{
    OpenScanRequest, ScanProducerPeer, WorkerPgScanExec, WorkerPgScanExecFactory,
    WorkerScanTuning,
};
use fusion_runtime::worker::scan_flow_driver::{
    FlowId, OpenScanControl, ScanFlowDriver, ScanFlowDriverStep, ScanFlowOpen, WorkerStep,
};
use fusion_runtime::worker::spill::{
    incarnation_step, is_stale_incarnation, is_worker_incarnation_dir, removal_succeeded,
    safe_path_component, DirOutcome, IncarnationStep, SpillPath, TaskResources,
    WorkerSpillConfig, WorkerSpillRuntime,
};
use fusion_runtime::worker::spill_metrics::{
    datafusion_spill_metrics, record_datafusion_spill_leaks, record_datafusion_spill_metrics,
    DataFusionSpillMetrics, OperatorSpill, PlanSpill,
};
use fusion_runtime::worker::transport_scan_source::{
    control_to_outcome, decode_scan_inbound, forward_driver_step, record_batch_delivered,
    record_idle_sleep, record_page_read, record_page_received, send_cancel_scan, send_open_scan,
    ForwardAction, ProducerOutcome, ScanInbound, ScanLoop, ScanLoopAction, ScanLoopEvent,
    TransportScanBatchSource,
};
use std::collections::BTreeMap;

const PID: i32 = 4242;
const BASE: usize = 0x10000;

#[test]
fn start_plan_run_complete_cleanup_happy_path() {
    let mut machine = StateMachine::new();
    assert_eq!(machine.state(), &WorkerExecutionState::Idle);

    assert_eq!(
        machine.consume(&WorkerExecutionEvent::StartExecution).unwrap(),
        Some(WorkerExecutionAction::OpenPlanFlow)
    );
    assert_eq!(machine.state(), &WorkerExecutionState::ReceivingPlan);

    assert_eq!(
        machine.consume(&WorkerExecutionEvent::PlanFrame).unwrap(),
        Some(WorkerExecutionAction::AcceptPlanFrame)
    );
    assert_eq!(machine.state(), &WorkerExecutionState::ReceivingPlan);

    assert_eq!(
        machine.consume(&WorkerExecutionEvent::PlanDecoded).unwrap(),
        Some(WorkerExecutionAction::PlanPhysical)
    );
    assert_eq!(machine.state(), &WorkerExecutionState::Planning);

    assert_eq!(
        machine.consume(&WorkerExecutionEvent::PhysicalPlanReady).unwrap(),
        Some(WorkerExecutionAction::MarkRunning)
    );
    assert_eq!(machine.state(), &WorkerExecutionState::Running);

    assert_eq!(
        machine.consume(&WorkerExecutionEvent::CompleteExecution).unwrap(),
        Some(WorkerExecutionAction::CompleteExecution)
    );
    assert_eq!(machine.state(), &WorkerExecutionState::Terminal);

    assert_eq!(
        machine.consume(&WorkerExecutionEvent::Cleanup).unwrap(),
        Some(WorkerExecutionAction::CleanupExecution)
    );
    assert_eq!(machine.state(), &WorkerExecutionState::Idle);
}

#[test]
fn cancel_from_receiving_plan_reaches_terminal() {
    let mut machine = StateMachine::new();
    machine.consume(&WorkerExecutionEvent::StartExecution).unwrap();

    assert_eq!(
        machine.consume(&WorkerExecutionEvent::CancelExecution).unwrap(),
        Some(WorkerExecutionAction::CancelExecution)
    );
    assert_eq!(machine.state(), &WorkerExecutionState::Terminal);
}

#[test]
fn scan_events_are_running_self_loops() {
    let mut machine = StateMachine::new();
    machine.consume(&WorkerExecutionEvent::StartExecution).unwrap();
    machine.consume(&WorkerExecutionEvent::PlanDecoded).unwrap();
    machine.consume(&WorkerExecutionEvent::PhysicalPlanReady).unwrap();

    assert_eq!(
        machine.consume(&WorkerExecutionEvent::OpenScan).unwrap(),
        Some(WorkerExecutionAction::OpenScan)
    );
    assert_eq!(
        machine.consume(&WorkerExecutionEvent::ScanPage).unwrap(),
        Some(WorkerExecutionAction::AcceptScanPage)
    );
    assert_eq!(
        machine.consume(&WorkerExecutionEvent::ScanEof).unwrap(),
        Some(WorkerExecutionAction::ObserveScanEof)
    );
    assert_eq!(machine.state(), &WorkerExecutionState::Running);
}

#[test]
fn transport_restart_aborts_active_execution() {
    let mut machine = StateMachine::new();
    machine.consume(&WorkerExecutionEvent::StartExecution).unwrap();

    assert_eq!(
        machine.consume(&WorkerExecutionEvent::TransportRestart).unwrap(),
        Some(WorkerExecutionAction::AbortForTransportRestart)
    );
    assert_eq!(machine.state(), &WorkerExecutionState::Terminal);
}

#[test]
fn impossible_events_leave_the_state() {
    let mut machine = StateMachine::new();
    assert!(matches!(
        machine.consume(&WorkerExecutionEvent::ScanPage),
        Err(TransitionImpossibleError)
    ));
    assert_eq!(machine.state(), &WorkerExecutionState::Idle);
    assert!(machine.consume(&WorkerExecutionEvent::Cleanup).is_err());
}

fn pool_fixture(slot_count: u32) -> RuntimeFilterPool {
    let params = BloomParams::new(1024, 3, 17).unwrap();
    let config = RuntimeFilterPoolConfig::new(slot_count, params);
    let layout = RuntimeFilterPool::layout(config).unwrap();
    RuntimeFilterPool::init_in_place(BASE, layout.size, config).expect("pool init")
}

fn metrics_fixture() -> RuntimeMetrics {
    let config = RuntimeMetricsConfig::new(4).expect("metrics config");
    let layout = RuntimeMetrics::layout(config).expect("metrics layout");
    RuntimeMetrics::init_in_place(BASE, layout.size, config).expect("metrics init")
}

fn build_and_probe(key_type: RuntimeFilterKeyType, column: KeyColumn, present_hash: u64) {
    let mut pool = pool_fixture(1);
    let target =
        RuntimeFilterTarget { session_epoch: 1, scan_id: 2, output_column: 0, key_type };
    let handle = pool.allocate_build(target).expect("allocate").expect("available slot");
    let mut metrics = RuntimeMetrics::default();
    let mut state = RuntimeFilterBuildState { handle, closed: false };

    state.insert_batch(&mut pool, &mut metrics, &column, key_type).expect("insert");
    state.publish_ready(&mut pool, &mut metrics).expect("publish");

    let mut probes = Vec::new();
    pool.lookup_probes(1, 2, &mut probes);
    assert_eq!(probes.len(), 1);
    assert_eq!(
        probes[0].decision_for_hash(&pool, present_hash),
        ProbeDecision::MaybePresent
    );
    assert_eq!(probes[0].decision_for_null(&pool), ProbeDecision::DefinitelyAbsent);
}

#[test]
fn key_type_pair_accepts_supported_matching_types() {
    let cases = [
        (KeyDataType::Boolean, RuntimeFilterKeyType::Boolean),
        (KeyDataType::Int16, RuntimeFilterKeyType::Int16),
        (KeyDataType::Int32, RuntimeFilterKeyType::Int32),
        (KeyDataType::Int64, RuntimeFilterKeyType::Int64),
        (KeyDataType::Float32, RuntimeFilterKeyType::Float32),
        (KeyDataType::Float64, RuntimeFilterKeyType::Float64),
        (KeyDataType::Utf8View, RuntimeFilterKeyType::Utf8View),
        (KeyDataType::FixedSizeBinary(16), RuntimeFilterKeyType::Uuid),
        (KeyDataType::BinaryView, RuntimeFilterKeyType::BinaryView),
    ];

    for (data_type, expected) in cases {
        assert_eq!(key_type_for_pair(&data_type, &data_type), Some(expected));
    }
}

#[test]
fn key_type_pair_rejects_mismatches_and_unsupported_types() {
    assert_eq!(key_type_for_pair(&KeyDataType::Int32, &KeyDataType::Int64), None);
    assert_eq!(key_type_for_pair(&KeyDataType::Utf8, &KeyDataType::Utf8), None);
    assert_eq!(key_type_for_pair(&KeyDataType::Binary, &KeyDataType::Binary), None);
    assert_eq!(
        key_type_for_pair(&KeyDataType::FixedSizeBinary(15), &KeyDataType::FixedSizeBinary(15)),
        None
    );
    assert_eq!(
        key_type_for_pair(&KeyDataType::FixedSizeBinary(17), &KeyDataType::FixedSizeBinary(17)),
        None
    );
}

#[test]
fn build_state_inserts_non_integer_key_arrays() {
    build_and_probe(
        RuntimeFilterKeyType::Boolean,
        KeyColumn::Boolean(vec![Some(true), None]),
        hash_bool_key(true),
    );
    build_and_probe(
        RuntimeFilterKeyType::Float32,
        KeyColumn::Float32(vec![Some(1.25f32.to_bits()), None]),
        hash_float32_key(1.25f32.to_bits()),
    );
    build_and_probe(
        RuntimeFilterKeyType::Float64,
        KeyColumn::Float64(vec![Some((-2.5f64).to_bits()), None]),
        hash_float64_key((-2.5f64).to_bits()),
    );
    build_and_probe(
        RuntimeFilterKeyType::Utf8View,
        KeyColumn::Utf8View(vec![Some(b"alpha".to_vec()), None]),
        hash_bytes_key(b"alpha"),
    );
    let uuid = [1, 2, 3, 4, 5, 6, 7, 8, 9, 10, 11, 12, 13, 14, 15, 16];
    build_and_probe(
        RuntimeFilterKeyType::Uuid,
        KeyColumn::FixedSizeBinary(16, vec![Some(uuid.to_vec()), None]),
        hash_bytes_key(&uuid),
    );
    build_and_probe(
        RuntimeFilterKeyType::BinaryView,
        KeyColumn::BinaryView(vec![Some(b"\x00\x01binary".to_vec()), None]),
        hash_bytes_key(b"\x00\x01binary"),
    );
}

fn join_on_first_columns(scan: u64) -> JoinFacts {
    JoinFacts {
        inner: true,
        null_equals_nothing: true,
        null_aware: false,
        left_partitions: 1,
        on: vec![(Some(0), Some(0))],
        right: PlanNode::Cooperative(Box::new(PlanNode::Scan(scan))),
        left_types: vec![KeyDataType::Int64],
        right_types: vec![KeyDataType::Int64],
    }
}

#[test]
fn inner_join_over_a_scan_gets_a_filter() {
    let mut pool = pool_fixture(1);
    let mut metrics = metrics_fixture();
    let join = join_on_first_columns(22);
    assert_eq!(runtime_filter_probe_scan(&join.right), Some(22));

    let mut filter = maybe_wrap_hash_join(&join, 11, &mut pool, &mut metrics)
        .expect("wrap")
        .expect("filter");
    assert_eq!(filter.key_index, 0);
    assert_eq!(filter.key_type, RuntimeFilterKeyType::Int64);
    let column = KeyColumn::Int64(vec![Some(42), None]);
    filter
        .state
        .insert_batch(&mut pool, &mut metrics, &column, filter.key_type)
        .expect("insert");
    filter.state.publish_ready(&mut pool, &mut metrics).expect("publish");

    let mut probes = Vec::new();
    pool.lookup_probes(11, 22, &mut probes);
    assert_eq!(probes.len(), 1);
    assert_eq!(
        probes[0].decision_for_hash(&pool, hash_int_key(42)),
        ProbeDecision::MaybePresent
    );
}

#[test]
fn other_joins_get_no_filter() {
    let mut pool = pool_fixture(1);
    let mut metrics = metrics_fixture();
    let mut joins = Vec::new();
    for _ in 0..6 {
        joins.push(join_on_first_columns(22));
    }
    joins[0].inner = false;
    joins[1].null_equals_nothing = false;
    joins[2].null_aware = true;
    joins[3].left_partitions = 2;
    joins[4].on = Vec::new();
    joins[5].right = PlanNode::Other;
    for join in &joins {
        let wrapped = maybe_wrap_hash_join(join, 11, &mut pool, &mut metrics);
        assert!(matches!(wrapped, Ok(None)));
    }
}

#[test]
fn given_up_build_lets_everything_pass() {
    let mut pool = pool_fixture(1);
    let mut metrics = metrics_fixture();
    let mut filter =
        maybe_wrap_hash_join(&join_on_first_columns(22), 11, &mut pool, &mut metrics)
            .expect("wrap")
            .expect("filter");
    filter.state.disable_build(&mut pool);
    let mut probes = Vec::new();
    pool.lookup_probes(11, 22, &mut probes);
    for probe in &probes {
        assert_eq!(probe.decision_for_hash(&pool, 1), ProbeDecision::PassUnfiltered);
    }
}

#[test]
fn wrong_key_column_is_refused() {
    let mut pool = pool_fixture(1);
    let mut metrics = metrics_fixture();
    let filter = maybe_wrap_hash_join(&join_on_first_columns(22), 11, &mut pool, &mut metrics)
        .expect("wrap")
        .expect("filter");
    let column = KeyColumn::Boolean(vec![Some(true)]);
    assert!(filter
        .state
        .insert_batch(&mut pool, &mut metrics, &column, filter.key_type)
        .is_err());
}

#[test]
fn wrong_batch_gives_the_build_up() {
    let mut pool = pool_fixture(1);
    let mut metrics = metrics_fixture();
    let mut filter =
        maybe_wrap_hash_join(&join_on_first_columns(22), 11, &mut pool, &mut metrics)
            .expect("wrap")
            .expect("filter");
    let good = KeyColumn::Int64(vec![Some(1), Some(2), None]);
    let bad = KeyColumn::FixedSizeBinary(8, Vec::new());
    let key_type = filter.key_type;
    filter.state.insert_or_give_up(&mut pool, &mut metrics, &good, key_type).expect("insert");
    assert_eq!(metrics.get(MetricId::RuntimeFilterBuildRowsTotal), 2);
    assert!(matches!(
        filter.state.insert_or_give_up(&mut pool, &mut metrics, &bad, key_type),
        Err(WorkerRuntimeError::Execution(text))
            if text == "runtime filter Int64 build key had non-Int64 array"
    ));
    assert!(filter.state.closed);
    filter.state.publish_ready(&mut pool, &mut metrics).expect("nothing to publish");
    assert_eq!(metrics.get(MetricId::RuntimeFilterReadyTotal), 0);
    assert!(matches!(
        filter.state.insert_batch(&mut pool, &mut metrics, &bad, RuntimeFilterKeyType::Uuid),
        Err(WorkerRuntimeError::Execution(text))
            if text == "runtime filter Uuid build key had FixedSizeBinary(8) array"
    ));
    filter.state.release(&mut pool);
    let again = maybe_wrap_hash_join(&join_on_first_columns(23), 11, &mut pool, &mut metrics);
    assert!(matches!(again, Ok(Some(_))));
}

#[test]
fn joins_of_a_plan_are_asked_from_below() {
    let mut pool = pool_fixture(2);
    let mut metrics = metrics_fixture();
    let plan = PlanTree {
        join: Some(join_on_first_columns(30)),
        children: vec![
            PlanTree { join: Some(join_on_first_columns(10)), children: Vec::new() },
            PlanTree {
                join: None,
                children: vec![PlanTree {
                    join: Some(join_on_first_columns(20)),
                    children: Vec::new(),
                }],
            },
        ],
    };
    let filters = install_runtime_filters(&plan, 11, &mut pool, &mut metrics).expect("install");
    assert_eq!(filters.len(), 3);
    assert!(filters[0].is_some());
    assert!(filters[1].is_some());
    assert!(filters[2].is_none());
    let first = filters[0].as_ref().expect("first filter");
    assert_eq!(first.describe(), "RuntimeFilterBuildExec: key_index=0");
    assert!(first.check_new_children(1).is_ok());
    assert!(first.check_new_children(2).is_err());
    assert_eq!(metrics.get(MetricId::RuntimeFilterAllocatedTotal), 2);
    assert_eq!(metrics.get(MetricId::RuntimeFilterPoolExhaustedTotal), 1);
    let mut probes = Vec::new();
    pool.lookup_probes(11, 10, &mut probes);
    pool.lookup_probes(11, 20, &mut probes);
    pool.lookup_probes(11, 30, &mut probes);
    assert_eq!(probes.len(), 2);
}

#[test]
fn failed_installation_gives_filters_back() {
    let mut pool = pool_fixture(2);
    let mut metrics = metrics_fixture();
    let last = u64::MAX >> 2;
    pool.slots[1].filter.header.lifecycle =
        pack_lifecycle_word(last, RuntimeFilterState::Free).expect("word");
    let plan = PlanTree {
        join: Some(join_on_first_columns(20)),
        children: vec![PlanTree { join: Some(join_on_first_columns(10)), children: Vec::new() }],
    };
    assert!(install_runtime_filters(&plan, 11, &mut pool, &mut metrics).is_err());
    let mut probes = Vec::new();
    pool.lookup_probes(11, 10, &mut probes);
    assert!(probes.is_empty());
    let again = maybe_wrap_hash_join(&join_on_first_columns(10), 12, &mut pool, &mut metrics);
    assert!(matches!(again, Ok(Some(_))));
}

fn leader(peer: BackendLeaseSlot) -> ScanProducerPeer {
    ScanProducerPeer { producer_id: 0, role: ProducerRole::Leader, peer }
}

#[test]
fn factory_builds_worker_pg_scan_exec() {
    let mut scan_peers = BTreeMap::new();
    let peer = BackendLeaseSlot::new(0, BackendLeaseId::new(1, 1));
    scan_peers.insert(7, vec![leader(peer)]);
    let factory =
        WorkerPgScanExecFactory::new(99, scan_peers, 0x4152, 0, WorkerScanTuning::default());
    let exec = factory.create(7).unwrap();

    assert_eq!(exec.producers()[0].peer, peer);
    assert_eq!(exec.session_epoch(), 99);
    assert_eq!(exec.scan_id(), 7);
    assert_eq!(exec.name(), "WorkerPgScanExec");
    assert_eq!(exec.describe(), "WorkerPgScanExec: scan_id=7");
    assert_eq!(
        exec.describe_verbose(42, "Schema"),
        "WorkerPgScanExec: session_epoch=99, scan_id=7, table_oid=42, schema=Schema"
    );
}

#[test]
fn execute_uses_scan_id_and_schema_from_spec() {
    let peer = BackendLeaseSlot::new(2, BackendLeaseId::new(1, 3));
    let exec = WorkerPgScanExec::new(
        vec![leader(peer)],
        100,
        8,
        0x4152,
        0,
        WorkerScanTuning::default(),
    );
    let request = exec.execute(0).unwrap();

    assert_eq!(request.producers[0].peer, peer);
    assert_eq!(request.session_epoch, 100);
    assert_eq!(request.scan_id, 8);
    assert_eq!(request.page_kind, 0x4152);
    assert_eq!(request.page_flags, 0);
    assert_eq!(request.tuning, WorkerScanTuning::default());
}

#[test]
fn execute_rejects_nonzero_partition() {
    let exec = WorkerPgScanExec::new(
        vec![leader(BackendLeaseSlot::new(3, BackendLeaseId::new(1, 4)))],
        100,
        9,
        0x4152,
        0,
        WorkerScanTuning::default(),
    );
    let err = match exec.execute(1) {
        Ok(_) => panic!("nonzero partition should fail"),
        Err(err) => err,
    };

    assert!(format!("{err:?}").contains("one partition"));
    assert!(exec.check_new_children(0).is_ok());
    assert!(exec.check_new_children(1).is_err());
}

#[test]
fn factory_rejects_missing_scan_peer_mapping() {
    let err = WorkerPgScanExecFactory::new(
        99,
        BTreeMap::new(),
        0x4152,
        0,
        WorkerScanTuning::default(),
    )
    .create(7)
    .expect_err("missing scan peer mapping should fail");

    let scan_id = match err {
        WorkerRuntimeError::MissingScanPeer { scan_id } => scan_id,
        other => panic!("unexpected error: {other:?}"),
    };
    assert!(missing_peer_message(scan_id)
        .contains("no dedicated scan peer was published for scan_id 7"));
}

fn producers_of(set: ProducerSetRef<'_>) -> Vec<ProducerDescriptorWire> {
    let mut iter = set.iter();
    let mut producers = Vec::new();
    while let Some(producer) = iter.next() {
        producers.push(producer);
    }
    producers
}

#[test]
fn open_scan_control_payload_uses_declared_producers() {
    let control = OpenScanControl {
        session_epoch: 11,
        scan_id: 22,
        page_kind: 0x4152,
        page_flags: 0,
        producers: vec![
            ProducerDescriptorWire { producer_id: 0, role: ProducerRole::Leader },
            ProducerDescriptorWire { producer_id: 1, role: ProducerRole::Worker },
        ],
    };
    let mut encoded = [0_u8; 128];
    let written = control.encode_into(&mut encoded).unwrap();
    let decoded = decode_worker_scan_to_backend(&encoded[..written]).unwrap();

    let WorkerScanToBackendRef::OpenScan { session_epoch, scan_id, scan } = decoded else {
        panic!("expected open scan");
    };

    assert_eq!(session_epoch, 11);
    assert_eq!(scan_id, 22);
    assert_eq!(scan.page_kind, 0x4152);
    assert_eq!(scan.page_flags, 0);
    let producers = producers_of(scan.producers());
    assert_eq!(producers.len(), 2);
    assert_eq!(producers[0].producer_id, 0);
    assert_eq!(producers[0].role, ProducerRole::Leader);
    assert_eq!(producers[1].producer_id, 1);
    assert_eq!(producers[1].role, ProducerRole::Worker);
}

#[test]
fn open_scan_that_cannot_be_sent_is_refused() {
    let mut control = OpenScanControl {
        session_epoch: 11,
        scan_id: 22,
        page_kind: 0x4152,
        page_flags: 0,
        producers: Vec::new(),
    };
    let mut encoded = [0_u8; 16];
    assert!(matches!(
        control.encode_into(&mut encoded),
        Err(WorkerRuntimeError::Producers(ProducerSetError::EmptyProducerSet))
    ));
    control.producers =
        vec![ProducerDescriptorWire { producer_id: 0, role: ProducerRole::Leader }];
    assert!(matches!(
        control.encode_into(&mut encoded),
        Err(WorkerRuntimeError::ControlFrameTooLarge)
    ));
}

#[test]
fn driver_forwards_what_the_flow_answers() {
    let flow = FlowId { session_epoch: 7, scan_id: 11 };
    let peer = BackendLeaseSlot::new(2, BackendLeaseId::new(1, 3));
    let (driver, control) =
        ScanFlowDriver::open(&ScanFlowOpen::new(7, 11, 0x4152, 1, vec![leader(peer)]));
    assert_eq!(driver.flow(), flow);
    assert_eq!(control.page_flags, 1);
    assert_eq!(control.producers.len(), 1);

    let batch = driver.accept_page_frame(WorkerStep::Page { flow, producer_id: 0 });
    assert_eq!(batch, ScanFlowDriverStep::Batch { flow, producer_id: 0 });
    assert_eq!(forward_driver_step(&batch), (ForwardAction::DeliverBatch, false));
    let idle = driver.accept_producer_eof(WorkerStep::Idle);
    assert_eq!(forward_driver_step(&idle), (ForwardAction::Nothing, false));
    let eof = driver.accept_producer_eof(WorkerStep::LogicalEof { flow });
    assert_eq!(forward_driver_step(&eof), (ForwardAction::Close, true));
    let error = driver.accept_producer_error(WorkerStep::LogicalError {
        flow,
        producer_id: 0,
        message: "boom".into(),
    });
    assert_eq!(forward_driver_step(&error), (ForwardAction::DeliverErrorAndClose, true));
}

fn transport_region(slots: u32, b2w: usize, w2b: usize) -> TransportRegion {
    let layout = TransportRegionLayout::new(slots, b2w, w2b).expect("transport layout");
    TransportRegion::init_in_place(BASE, layout.size, 0, layout).expect("transport region")
}

#[test]
fn transport_scan_source_rejects_inbound_ring_below_minimum() {
    let region = transport_region(
        1,
        MIN_SCAN_BACKEND_TO_WORKER_RING_CAPACITY - 1,
        MIN_SCAN_WORKER_TO_BACKEND_RING_CAPACITY,
    );

    let err = TransportScanBatchSource::new(&region, MIN_SCAN_BACKEND_TO_WORKER_RING_CAPACITY)
        .expect_err("small inbound ring must be rejected");
    assert!(matches!(
        err,
        WorkerRuntimeError::ScanTransportRingTooSmall {
            direction: "backend_to_worker",
            required,
            actual,
        } if required == MIN_SCAN_BACKEND_TO_WORKER_RING_CAPACITY
            && actual == MIN_SCAN_BACKEND_TO_WORKER_RING_CAPACITY - 1
    ));
}

#[test]
fn transport_scan_source_rejects_outbound_ring_below_minimum() {
    let region = transport_region(
        1,
        MIN_SCAN_BACKEND_TO_WORKER_RING_CAPACITY,
        MIN_SCAN_WORKER_TO_BACKEND_RING_CAPACITY - 1,
    );

    let err = TransportScanBatchSource::new(&region, MIN_SCAN_BACKEND_TO_WORKER_RING_CAPACITY)
        .expect_err("small outbound ring must be rejected");
    assert!(matches!(
        err,
        WorkerRuntimeError::ScanTransportRingTooSmall {
            direction: "worker_to_backend",
            required,
            actual,
        } if required == MIN_SCAN_WORKER_TO_BACKEND_RING_CAPACITY
            && actual == MIN_SCAN_WORKER_TO_BACKEND_RING_CAPACITY - 1
    ));
}

#[test]
fn transport_scan_source_accepts_minimum_asymmetric_scan_rings() {
    let region = transport_region(
        1,
        MIN_SCAN_BACKEND_TO_WORKER_RING_CAPACITY,
        MIN_SCAN_WORKER_TO_BACKEND_RING_CAPACITY,
    );

    TransportScanBatchSource::new(&region, MIN_SCAN_BACKEND_TO_WORKER_RING_CAPACITY)
        .expect("minimum asymmetric scan rings should be accepted");
    assert!(matches!(
        TransportScanBatchSource::new(&region, MIN_SCAN_BACKEND_TO_WORKER_RING_CAPACITY - 1),
        Err(WorkerRuntimeError::ControlFrameCapacityTooSmall { required, actual })
            if required == MIN_SCAN_BACKEND_TO_WORKER_RING_CAPACITY
                && actual == MIN_SCAN_BACKEND_TO_WORKER_RING_CAPACITY - 1
    ));
}

/// A scan of the worker with its producers' leases, stepped by hand.
struct ScanRun {
    region: TransportRegion,
    backends: Vec<BackendSlotLease>,
    slots: Vec<WorkerSlot>,
    request: OpenScanRequest,
    machine: ScanLoop,
    finished: Vec<u16>,
}

fn open_run(producer_count: u16) -> ScanRun {
    let alive = LivenessTable { entries: Vec::new(), otherwise: KillAnswer::Delivered };
    let mut region = transport_region(producer_count as u32, 256, 256);
    let mut process = ProcessContext::new(PID);
    let transport = WorkerTransport::attach(&region, &mut process).expect("worker attach");
    transport
        .activate_generation(&mut region, PID, &process, &alive)
        .expect("activate generation");
    let mut producers = Vec::new();
    let mut backends = Vec::new();
    let mut slots = Vec::new();
    for producer_id in 0..producer_count {
        let lease =
            BackendSlotLease::acquire(&mut region, &process, &alive).expect("backend lease");
        let peer = lease.backend_lease_slot();
        let role = if producer_id == 0 { ProducerRole::Leader } else { ProducerRole::Worker };
        producers.push(ScanProducerPeer { producer_id, role, peer });
        backends.push(lease);
        slots.push(
            transport
                .slot_for_backend_lease(&mut region, &mut process, peer, &alive)
                .expect("claim"),
        );
    }
    let request = OpenScanRequest {
        producers,
        session_epoch: 7,
        scan_id: 11,
        page_kind: 0x4152,
        page_flags: 0,
        tuning: WorkerScanTuning::default(),
    };
    let open = ScanFlowOpen::new(7, 11, 0x4152, 0, request.producers.clone());
    let (_driver, control) = ScanFlowDriver::open(&open);
    let machine = ScanLoop::start(&request, producer_count as usize).expect("start");
    let mut scratch = vec![0_u8; 256];
    for slot in &slots {
        send_open_scan(&mut region, slot, &control, &mut scratch, Ok(false)).expect("open scan");
    }
    ScanRun { region, backends, slots, request, machine, finished: Vec::new() }
}

impl ScanRun {
    fn worker_frame(&mut self, producer: usize) -> Vec<u8> {
        let mut buf = vec![0_u8; 1024];
        let rx = self.backends[producer].from_worker_rx();
        let len = rx.recv_frame_into(&mut self.region, &mut buf).expect("recv").expect("frame");
        buf[..len].to_vec()
    }

    fn backend_sends(&mut self, producer: usize, message: BackendScanToWorker<'_>) {
        let mut encoded = vec![0_u8; encoded_len_backend_scan_to_worker(message)];
        let written = encode_backend_scan_to_worker_into(message, &mut encoded).expect("encode");
        self.backends[producer]
            .to_worker_tx()
            .send_frame(&mut self.region, &encoded[..written], Ok(false))
            .expect("send");
    }

    /// Performs one action; gives the error that was delivered, if any.
    fn step(&mut self, stop: bool) -> Option<String> {
        let mut scratch = vec![0_u8; 256];
        match self.machine.action() {
            ScanLoopAction::CheckStop => {
                self.machine.advance(if stop {
                    ScanLoopEvent::StopRequested
                } else {
                    ScanLoopEvent::KeepGoing
                });
                None
            }
            ScanLoopAction::Sleep => {
                self.machine.advance(ScanLoopEvent::Slept);
                None
            }
            ScanLoopAction::Poll { index } => {
                let rx = self.slots[index].from_backend_rx(&self.region).expect("rx");
                let received =
                    rx.recv_frame_into(&mut self.region, &mut scratch).expect("recv");
                let Some(len) = received else {
                    self.machine.advance(ScanLoopEvent::NoFrame);
                    return None;
                };
                let inbound = decode_scan_inbound(&scratch[..len], false).expect("inbound");
                let ScanInbound::Control(control) = inbound else {
                    panic!("expected control");
                };
                let outcome = control_to_outcome(&self.request, control).expect("outcome");
                let flow = FlowId { session_epoch: 7, scan_id: 11 };
                let (step, error) = match outcome {
                    ProducerOutcome::Eof { producer_id } => {
                        self.finished.push(producer_id);
                        if self.finished.len() == self.slots.len() {
                            (ScanFlowDriverStep::LogicalEof { flow }, None)
                        } else {
                            (ScanFlowDriverStep::Idle, None)
                        }
                    }
                    ProducerOutcome::Failed { producer_id, message } => (
                        ScanFlowDriverStep::LogicalError {
                            flow,
                            producer_id,
                            message: message.clone(),
                        },
                        Some(message),
                    ),
                };
                let (_action, terminal) = forward_driver_step(&step);
                self.machine.advance(ScanLoopEvent::FrameHandled { terminal });
                error
            }
            ScanLoopAction::CancelAndAbort => {
                for slot in &self.slots {
                    send_cancel_scan(
                        &mut self.region,
                        slot,
                        7,
                        11,
                        &mut scratch,
                        Ok(false),
                    )
                    .expect("cancel");
                }
                None
            }
            ScanLoopAction::Finish => None,
        }
    }

    fn run_rounds(&mut self, steps: usize) -> Option<String> {
        let mut error = None;
        for _ in 0..steps {
            if self.machine.action() == ScanLoopAction::Finish {
                break;
            }
            error = self.step(false).or(error);
        }
        error
    }
}

#[test]
fn transport_scan_source_sends_open_scan_on_dedicated_peer_and_finishes() {
    let mut run = open_run(1);

    let open_frame = run.worker_frame(0);
    let open = decode_worker_scan_to_backend(&open_frame).expect("decode open");
    let WorkerScanToBackendRef::OpenScan { session_epoch, scan_id, scan } = open else {
        panic!("expected OpenScan, got {open:?}");
    };
    assert_eq!(session_epoch, 7);
    assert_eq!(scan_id, 11);
    assert_eq!(scan.page_kind, 0x4152);
    assert_eq!(scan.page_flags, 0);
    let producers = producers_of(scan.producers());
    assert_eq!(producers.len(), 1);
    assert_eq!(producers[0].producer_id, 0);
    assert_eq!(producers[0].role, ProducerRole::Leader);

    run.backend_sends(
        0,
        BackendScanToWorker::ScanFinished { session_epoch: 7, scan_id: 11, producer_id: 0 },
    );
    assert_eq!(run.run_rounds(10), None);
    assert_eq!(run.machine.action(), ScanLoopAction::Finish);
}

#[test]
fn transport_scan_source_surfaces_scan_failure() {
    let mut run = open_run(1);
    let _open = run.worker_frame(0);
    run.backend_sends(
        0,
        BackendScanToWorker::ScanFailed {
            session_epoch: 7,
            scan_id: 11,
            producer_id: 0,
            message: "boom",
        },
    );
    assert!(run.run_rounds(10).expect("failure item").contains("boom"));
    assert_eq!(run.machine.action(), ScanLoopAction::Finish);
}

#[test]
fn dropping_transport_scan_stream_sends_cancel_scan() {
    let mut run = open_run(1);
    let _open = run.worker_frame(0);
    assert_eq!(run.machine.action(), ScanLoopAction::CheckStop);
    run.step(true);
    assert_eq!(run.machine.action(), ScanLoopAction::CancelAndAbort);
    run.step(true);

    let cancel_frame = run.worker_frame(0);
    let cancel = decode_worker_scan_to_backend(&cancel_frame).expect("decode cancel");
    assert_eq!(
        cancel,
        WorkerScanToBackendRef::CancelScan { session_epoch: 7, scan_id: 11 }
    );
}

#[test]
fn transport_scan_source_waits_for_all_declared_producers() {
    let mut run = open_run(2);
    let leader_open = run.worker_frame(0);
    let worker_open = run.worker_frame(1);
    for frame in [&leader_open, &worker_open] {
        let open = decode_worker_scan_to_backend(frame).expect("decode open");
        let WorkerScanToBackendRef::OpenScan { scan, .. } = open else {
            panic!("expected OpenScan, got {open:?}");
        };
        let producers = producers_of(scan.producers());
        assert_eq!(producers.len(), 2);
        assert_eq!(producers[0].producer_id, 0);
        assert_eq!(producers[0].role, ProducerRole::Leader);
        assert_eq!(producers[1].producer_id, 1);
        assert_eq!(producers[1].role, ProducerRole::Worker);
    }

    run.backend_sends(
        0,
        BackendScanToWorker::ScanFinished { session_epoch: 7, scan_id: 11, producer_id: 0 },
    );
    assert_eq!(run.run_rounds(12), None);
    assert_ne!(run.machine.action(), ScanLoopAction::Finish);

    run.backend_sends(
        1,
        BackendScanToWorker::ScanFinished { session_epoch: 7, scan_id: 11, producer_id: 1 },
    );
    assert_eq!(run.run_rounds(12), None);
    assert_eq!(run.machine.action(), ScanLoopAction::Finish);
}

#[test]
fn scans_that_cannot_start_are_refused() {
    let mut request = OpenScanRequest {
        producers: Vec::new(),
        session_epoch: 7,
        scan_id: 11,
        page_kind: 0x4152,
        page_flags: 0,
        tuning: WorkerScanTuning::default(),
    };
    assert!(matches!(
        ScanLoop::start(&request, 0),
        Err(WorkerRuntimeError::ProtocolViolation(text))
            if text == "scan_id 11 has no declared scan producers"
    ));
    request.producers = vec![leader(BackendLeaseSlot::new(0, BackendLeaseId::new(1, 1)))];
    assert!(matches!(
        ScanLoop::start(&request, 2),
        Err(WorkerRuntimeError::ProtocolViolation(text))
            if text == "scan_id 11 has 2 producer ingress streams for 1 declared producers"
    ));
}

#[test]
fn terminal_of_another_scan_is_refused() {
    let run = open_run(1);
    let other = BackendScanToWorker::ScanFinished { session_epoch: 7, scan_id: 12, producer_id: 0 };
    let mut encoded = vec![0_u8; encoded_len_backend_scan_to_worker(other)];
    encode_backend_scan_to_worker_into(other, &mut encoded).expect("encode");
    let inbound = decode_scan_inbound(&encoded, false).expect("inbound");
    let ScanInbound::Control(control) = inbound else {
        panic!("expected control");
    };
    assert!(matches!(
        control_to_outcome(&run.request, control),
        Err(WorkerRuntimeError::ProtocolViolation(text)) if text
            == "scan terminal targeted session_epoch=7, scan_id=12; expected session_epoch=7, scan_id=11"
    ));
}

#[test]
fn inbound_frames_are_told_apart() {
    assert!(matches!(decode_scan_inbound(&[1, 2, 3], true), Ok(ScanInbound::Issued)));
    assert!(matches!(
        decode_scan_inbound(&[1, 2, 3], false),
        Err(WorkerRuntimeError::Decode(DecodeError::TruncatedEnvelope { .. }))
    ));
    let message = WorkerScanToBackend::CancelScan { session_epoch: 7, scan_id: 11 };
    let mut encoded = vec![0_u8; 64];
    let written = encode_worker_scan_to_backend_into(message, &mut encoded).expect("encode");
    assert!(matches!(
        decode_scan_inbound(&encoded[..written], true),
        Err(WorkerRuntimeError::ProtocolViolation(text))
            if text == "unexpected runtime family WorkerScanToBackend on dedicated scan peer"
    ));
}

#[test]
fn scan_metrics_are_counted() {
    let mut metrics = metrics_fixture();
    let page = PageDescriptor { pool_id: 7, page_id: 1, generation: 3 };
    metrics.stamp_page(PageDirection::BackendToWorker, page, 64, 100);
    record_page_received(&mut metrics, Some(page), 130);
    record_page_received(&mut metrics, None, 140);
    assert_eq!(metrics.get(MetricId::ScanB2wWaitNs), 30);
    assert_eq!(metrics.get(MetricId::ScanB2wWaitTotal), 1);
    record_page_read(&mut metrics, 130, 150);
    assert_eq!(metrics.get(MetricId::ScanPageReadNs), 20);
    assert_eq!(metrics.get(MetricId::ScanPagesReadTotal), 1);
    record_batch_delivered(&mut metrics, 150, 155, Some(130));
    record_batch_delivered(&mut metrics, 160, 161, None);
    assert_eq!(metrics.get(MetricId::ScanBatchSendNs), 6);
    assert_eq!(metrics.get(MetricId::ScanBatchSendTotal), 2);
    assert_eq!(metrics.get(MetricId::ScanBatchDeliveryNs), 25);
    assert_eq!(metrics.get(MetricId::ScanBatchDeliveryTotal), 1);
    record_idle_sleep(&mut metrics, 200, 300);
    assert_eq!(metrics.get(MetricId::ScanIdleSleepNs), 100);
    assert_eq!(metrics.get(MetricId::ScanIdleSleepTotal), 1);
}

fn spill_root() -> SpillPath {
    SpillPath::new(b"/tmp/spill".to_vec())
}

fn components(path: &SpillPath) -> Vec<&str> {
    assert_eq!(path.base, b"/tmp/spill");
    path.components.iter().map(|name| name.as_str()).collect()
}

#[test]
fn cluster_namespace_scopes_root() {
    let config =
        WorkerSpillConfig::new(Some(1024), spill_root()).with_cluster_namespace("a/b:c");

    assert_eq!(config.root, spill_root().join("cluster-a_b_c".into()));
    assert!(config.enabled());
}

#[test]
fn disabled_runtime_has_no_directories() {
    let config = WorkerSpillConfig::new(None, spill_root());
    let mut runtime = WorkerSpillRuntime::new(config, 42, 7);
    assert!(runtime.active_dir().is_none());
    let peer = BackendLeaseSlot::new(3, BackendLeaseId::new(9, 10));
    let dir = runtime.execution_dir(peer, 11);
    assert!(dir.path().is_none());
    assert!(matches!(runtime.task_resources(&dir), Ok(TaskResources::Unbounded)));
    assert!(runtime.release().is_none());
}

#[test]
fn spill_directories_are_named() {
    let config = WorkerSpillConfig::new(Some(1024), spill_root());
    let mut runtime = WorkerSpillRuntime::new(config, 5, 8);
    assert_eq!(components(runtime.active_dir().unwrap()), vec!["worker-5-gen-8"]);
    let peer = BackendLeaseSlot::new(3, BackendLeaseId::new(9, 10));
    let mut first = runtime.execution_dir(peer, 11);
    let second = runtime.execution_dir(peer, 11);
    assert_eq!(
        components(first.path().unwrap()),
        vec!["worker-5-gen-8", "exec-slot-3-backendgen-9-lease-10-session-11-0"]
    );
    assert_eq!(
        components(second.path().unwrap()),
        vec!["worker-5-gen-8", "exec-slot-3-backendgen-9-lease-10-session-11-1"]
    );
    let resources = runtime.task_resources(&first).expect("resources");
    assert!(matches!(
        &resources,
        TaskResources::Spilling { memory_limit_bytes: 1024, directory }
            if Some(directory) == first.path()
    ));
    assert!(first.cleanup().is_some());
    assert!(first.cleanup().is_none());
    assert!(matches!(
        runtime.task_resources(&first),
        Err(WorkerRuntimeError::ProtocolViolation(text))
            if text == "worker spill is enabled but execution spill directory was not created"
    ));
    assert!(runtime.release().is_some());
    assert!(runtime.release().is_none());
}

#[test]
fn incarnations_are_told_from_other_directories() {
    assert!(is_worker_incarnation_dir("worker-1-gen-1"));
    assert!(is_worker_incarnation_dir("worker-gen-gen-"));
    assert!(!is_worker_incarnation_dir("not-a-worker-dir"));
    assert!(!is_worker_incarnation_dir("worker-1"));
    assert!(!is_worker_incarnation_dir("aworker-1-gen-1"));
    assert!(is_stale_incarnation(false, Some(true), "worker-1-gen-1", true));
    assert!(!is_stale_incarnation(true, Some(true), "worker-1-gen-1", true));
    assert!(!is_stale_incarnation(false, Some(false), "worker-1-gen-1", true));
    assert!(!is_stale_incarnation(false, None, "worker-1-gen-1", true));
    assert!(!is_stale_incarnation(false, Some(true), "other", true));
    assert!(!is_stale_incarnation(false, Some(true), "worker-1-gen-1", false));
}

#[test]
fn only_marked_incarnations_are_replaced() {
    assert_eq!(incarnation_step(DirOutcome::Done, false, true), IncarnationStep::Ready);
    assert_eq!(incarnation_step(DirOutcome::AlreadyExists, true, true), IncarnationStep::Replace);
    assert_eq!(incarnation_step(DirOutcome::AlreadyExists, false, true), IncarnationStep::Refuse);
    assert_eq!(incarnation_step(DirOutcome::AlreadyExists, true, false), IncarnationStep::Refuse);
    assert_eq!(incarnation_step(DirOutcome::Failed, true, true), IncarnationStep::Refuse);
    assert!(removal_succeeded(DirOutcome::Done));
    assert!(removal_succeeded(DirOutcome::NotFound));
    assert!(!removal_succeeded(DirOutcome::Failed));
}

#[test]
fn path_components_are_made_safe() {
    assert_eq!(safe_path_component("abc-XYZ_0.9"), "abc-XYZ_0.9");
    assert_eq!(safe_path_component("../\u{e9} x"), "..___x");
    assert_eq!(safe_path_component(""), "unknown");
}

fn spilled(count: usize, rows: usize, bytes: usize) -> Option<OperatorSpill> {
    Some(OperatorSpill {
        spill_count: Some(count),
        spilled_rows: Some(rows),
        spilled_bytes: Some(bytes),
    })
}

#[test]
fn plan_spills_are_summed_and_recorded() {
    let plan = PlanSpill {
        operator: spilled(1, 10, 100),
        children: vec![
            PlanSpill { operator: None, children: Vec::new() },
            PlanSpill {
                operator: spilled(2, 20, 200),
                children: vec![PlanSpill {
                    operator: Some(OperatorSpill {
                        spill_count: None,
                        spilled_rows: Some(usize::MAX),
                        spilled_bytes: None,
                    }),
                    children: Vec::new(),
                }],
            },
        ],
    };
    let totals = datafusion_spill_metrics(&plan);
    assert_eq!(
        totals,
        DataFusionSpillMetrics { spill_count: 3, spilled_rows: u64::MAX, spilled_bytes: 300 }
    );

    let mut metrics = metrics_fixture();
    record_datafusion_spill_metrics(&plan, &mut metrics);
    record_datafusion_spill_leaks(1, 0, &mut metrics);
    assert_eq!(metrics.get(MetricId::WorkerSpillCountTotal), totals.spill_count);
    assert_eq!(metrics.get(MetricId::WorkerSpilledRowsTotal), totals.spilled_rows);
    assert_eq!(metrics.get(MetricId::WorkerSpilledBytesTotal), totals.spilled_bytes);
    assert_eq!(metrics.get(MetricId::WorkerSpillLeakedFilesTotal), 1);
    assert_eq!(metrics.get(MetricId::WorkerSpillLeakedBytesTotal), 0);
}

#[test]
fn spill_roots_may_be_any_bytes() {
    let root = SpillPath::new(vec![b'/', 0xff, 0xfe]);
    let config = WorkerSpillConfig::new(Some(1), root).with_cluster_namespace("a/b");
    assert_eq!(config.root.base, [b'/', 0xff, 0xfe]);
    assert_eq!(config.root.components, ["cluster-a_b"]);
}

#[test]
fn polls_are_fifty_microseconds_apart_by_default() {
    let tuning = WorkerScanTuning::default();
    assert_eq!(tuning.batch_channel_capacity, 32);
    assert_eq!(tuning.idle_poll_interval_ns, 50_000);
}

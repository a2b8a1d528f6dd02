//! Counters, timers and page stamps.

use fusion_runtime::metrics::descriptor::{
    metric_descriptor, metric_descriptors, MetricId, MetricKind, MetricUnit, METRIC_COUNT,
};
use fusion_runtime::metrics::region::{
    clock_ns, MetricsError, PageDescriptor, PageDirection, RuntimeMetrics, RuntimeMetricsConfig,
};

const BASE: usize = 0x10000;

fn fresh(page_count: u32) -> (RuntimeMetrics, usize) {
    let cfg = RuntimeMetricsConfig::new(page_count).expect("config");
    let layout = RuntimeMetrics::layout(cfg).expect("layout");
    let metrics = RuntimeMetrics::init_in_place(BASE, layout.size, cfg).expect("init");
    (metrics, layout.size)
}

#[test]
fn init_attach_and_count_metrics() {
    let (mut metrics, size) = fresh(4);

    metrics.increment(MetricId::BackendExecCallsTotal);
    metrics.add(MetricId::ScanBytesSentTotal, 42);

    metrics.attach(BASE, size).expect("attach metrics");
    assert_eq!(metrics.get(MetricId::BackendExecCallsTotal), 1);
    assert_eq!(metrics.get(MetricId::ScanBytesSentTotal), 42);
    assert_eq!(metrics.snapshot().len(), METRIC_COUNT);
}

#[test]
fn metric_descriptors_have_unique_names() {
    let mut names = std::collections::HashSet::new();
    for descriptor in metric_descriptors() {
        assert!(
            names.insert(descriptor.metric),
            "duplicate metric name {}",
            descriptor.metric
        );
    }
    assert_eq!(names.len(), METRIC_COUNT);
}

#[test]
fn page_stamp_observes_matching_generation() {
    let (mut metrics, _size) = fresh(2);
    let descriptor = PageDescriptor { pool_id: 7, page_id: 1, generation: 3 };

    metrics.stamp_page(PageDirection::BackendToWorker, descriptor, 128, 1_000);
    let observed = metrics
        .observe_page_at(PageDirection::BackendToWorker, descriptor, 1_250)
        .expect("matching stamp observed");
    assert_eq!(observed.payload_bytes, 128);
    assert_eq!(observed.wait_ns, 250);

    assert!(metrics
        .observe_page(
            PageDirection::WorkerToBackend,
            PageDescriptor { generation: 3, ..descriptor },
            1_300,
        )
        .is_none());
    assert!(metrics
        .observe_page(
            PageDirection::BackendToWorker,
            PageDescriptor { generation: 4, ..descriptor },
            1_300,
        )
        .is_none());
}

#[test]
fn reset_ignores_stale_page_stamps() {
    let (mut metrics, _size) = fresh(1);
    let descriptor = PageDescriptor { pool_id: 9, page_id: 0, generation: 1 };

    metrics.increment(MetricId::BackendExecCallsTotal);
    metrics.stamp_page(PageDirection::BackendToWorker, descriptor, 64, 1_000);
    let epoch = metrics.reset();

    assert_eq!(metrics.get(MetricId::BackendExecCallsTotal), 0);
    assert_eq!(metrics.reset_epoch(), epoch);
    assert!(metrics
        .observe_page(PageDirection::BackendToWorker, descriptor, 2_000)
        .is_none());
}

#[test]
fn sums_saturate() {
    let (mut metrics, _size) = fresh(1);
    metrics.add(MetricId::ScanBytesSentTotal, u64::MAX - 1);
    metrics.add(MetricId::ScanBytesSentTotal, 5);
    assert_eq!(metrics.get(MetricId::ScanBytesSentTotal), u64::MAX);
    metrics.add_elapsed(MetricId::ScanPageReadNs, 10, 25);
    assert_eq!(metrics.get(MetricId::ScanPageReadNs), 15);
    metrics.add_elapsed(MetricId::ScanPageReadNs, 25, 10);
    assert_eq!(metrics.get(MetricId::ScanPageReadNs), 15);
}

#[test]
fn detached_metrics_count_nothing() {
    let mut metrics = RuntimeMetrics::default();
    assert!(!metrics.is_attached());
    metrics.add(MetricId::ScanBytesSentTotal, 5);
    assert_eq!(metrics.get(MetricId::ScanBytesSentTotal), 0);
    assert_eq!(metrics.reset_epoch(), 0);
}

#[test]
fn refusals_name_what_is_wrong() {
    assert_eq!(RuntimeMetricsConfig::new(0).unwrap_err(), MetricsError::ZeroPageCount);
    let cfg = RuntimeMetricsConfig::new(4).expect("config");
    let (metrics, size) = fresh(4);
    assert_eq!(
        RuntimeMetrics::init_in_place(BASE, size - 1, cfg).unwrap_err(),
        MetricsError::RegionTooSmall { expected: size, actual: size - 1 }
    );
    assert!(matches!(
        RuntimeMetrics::init_in_place(BASE + 4, size, cfg).unwrap_err(),
        MetricsError::BadAlignment { expected: 8, .. }
    ));

    let mut spoiled = RuntimeMetrics { header: metrics.header, ..metrics };
    let good = spoiled.header.expect("header");
    let mut header = good;
    header.magic = 1;
    spoiled.header = Some(header);
    assert!(matches!(spoiled.attach(BASE, size), Err(MetricsError::BadMagic { actual: 1, .. })));
    let mut header = good;
    header.version = 1;
    spoiled.header = Some(header);
    assert!(matches!(
        spoiled.attach(BASE, size),
        Err(MetricsError::UnsupportedVersion { expected: 12, actual: 1 })
    ));
    let mut header = good;
    header.metric_count = 1;
    spoiled.header = Some(header);
    assert!(matches!(
        spoiled.attach(BASE, size),
        Err(MetricsError::MetricCountMismatch { expected: 51, actual: 1 })
    ));
    let mut header = good;
    header.region_size = 1;
    spoiled.header = Some(header);
    assert!(matches!(
        spoiled.attach(BASE, size),
        Err(MetricsError::LayoutMismatch { actual: 1, .. })
    ));
}

#[test]
fn layout_is_exact() {
    let (_metrics, size) = fresh(4);
    assert_eq!(size, 448 + 4 * 40);
}

#[test]
fn descriptors_say_what_is_counted() {
    let descriptor = metric_descriptor(MetricId::ScanBytesSentTotal);
    assert_eq!(descriptor.metric, "scan_bytes_sent_total");
    assert_eq!(descriptor.kind, MetricKind::Counter);
    assert_eq!(descriptor.unit, MetricUnit::Bytes);
    assert_eq!(MetricUnit::Bytes.as_str(), "bytes");
    assert_eq!(MetricKind::Timer.as_str(), "timer");
    let (mut metrics, _size) = fresh(1);
    metrics.add(MetricId::ScanBytesSentTotal, 9);
    let row = &metrics.snapshot()[MetricId::ScanBytesSentTotal.index()];
    assert_eq!(row.value, 9);
    assert_eq!(row.descriptor, descriptor);
}

#[test]
fn clock_readings_become_nanoseconds() {
    assert_eq!(clock_ns(true, 2, 5), 2_000_000_005);
    assert_eq!(clock_ns(false, 2, 5), 0);
}

#[test]
fn counting_and_stamping_leave_the_header_alone() {
    let (mut metrics, size) = fresh(2);
    let before = metrics.header.expect("header");
    let page = PageDescriptor { pool_id: 7, page_id: 1, generation: 3 };

    metrics.increment(MetricId::BackendExecCallsTotal);
    metrics.add(MetricId::ScanBytesSentTotal, 42);
    metrics.stamp_page(PageDirection::BackendToWorker, page, 128, 1_000);
    assert_eq!(metrics.header, Some(before));

    assert_eq!(metrics.reset(), before.reset_epoch + 1);
    let after = metrics.header.expect("header");
    assert_eq!(after.reset_epoch, before.reset_epoch + 1);
    assert_eq!(after.magic, before.magic);
    assert_eq!(after.version, before.version);
    assert_eq!(after.metric_count, before.metric_count);
    assert_eq!(after.page_count, 2);
    assert_eq!(after.region_size, size as u64);
    metrics.attach(BASE, size).expect("attach after reset");
}

//! The values of the metrics and the stamps of pages under way.

use super::descriptor::{
    describes, metric_at, metric_descriptors, metric_index, MetricDescriptor, MetricId,
    METRIC_COUNT,
};
use vstd::prelude::*;

verus! {

/// Marks initialized metrics.
pub const METRICS_MAGIC: u64 = 0x5047_4655_4D45_5431;

/// Format version of the metrics.
pub const METRICS_VERSION: u32 = 12;

/// No page is under way.
pub const NO_STAMP: u64 = 0;

/// Bytes of the header.
pub const METRICS_HEADER_SIZE: usize = 40;

/// Where the stamps begin: behind the header and the values.
pub const STAMPS_OFFSET: usize = 448;

/// Bytes of one stamp.
pub const PAGE_STAMP_SIZE: usize = 40;

/// Alignment of the metrics.
pub const METRICS_ALIGN: usize = 8;

#[allow(inconsistent_fields)]
#[derive(Clone, Copy, Debug, PartialEq, Eq, Structural)]
pub enum MetricsError {
    ZeroPageCount,
    LayoutOverflow,
    RegionTooSmall { expected: usize, actual: usize },
    BadAlignment { expected: usize, actual: usize },
    BadMagic { expected: u64, actual: u64 },
    UnsupportedVersion { expected: u32, actual: u32 },
    MetricCountMismatch { expected: u32, actual: u32 },
    LayoutMismatch { expected: usize, actual: usize },
}

/// For how many pages there are stamps.
#[derive(Clone, Copy, Debug, PartialEq, Eq, Structural)]
pub struct RuntimeMetricsConfig {
    pub page_count: u32,
}

impl RuntimeMetricsConfig {
    pub fn new(page_count: u32) -> (r: Result<Self, MetricsError>)
        ensures
            r == if page_count == 0 {
                Err::<Self, MetricsError>(MetricsError::ZeroPageCount)
            } else {
                Ok(RuntimeMetricsConfig { page_count })
            },
    {
        if page_count == 0 {
            return Err(MetricsError::ZeroPageCount);
        }
        Ok(RuntimeMetricsConfig { page_count })
    }

    pub fn page_count(self) -> (r: u32)
        ensures
            r == self.page_count,
    {
        self.page_count
    }
}

/// Size and alignment that the metrics need.
#[derive(Clone, Copy, Debug, PartialEq, Eq, Structural)]
pub struct RuntimeMetricsLayout {
    pub size: usize,
    pub align: usize,
}

/// Where the parts of the metrics lie.
#[derive(Clone, Copy, Debug, PartialEq, Eq, Structural)]
pub struct ComputedLayout {
    pub size: usize,
    pub values_offset: usize,
    pub stamps_offset: usize,
}

/// The size of metrics for so many pages.
pub open spec fn region_size(page_count: u32) -> int {
    STAMPS_OFFSET + PAGE_STAMP_SIZE * page_count
}

/// Why there are no metrics for so many pages, if so.
pub open spec fn layout_error(page_count: u32) -> Option<MetricsError> {
    if page_count == 0 {
        Some(MetricsError::ZeroPageCount)
    } else if region_size(page_count) > isize::MAX - 7 {
        Some(MetricsError::LayoutOverflow)
    } else {
        None
    }
}

/// The layout for so many pages.
pub open spec fn layout_of(page_count: u32) -> ComputedLayout {
    ComputedLayout {
        size: region_size(page_count) as usize,
        values_offset: METRICS_HEADER_SIZE,
        stamps_offset: STAMPS_OFFSET,
    }
}

impl ComputedLayout {
    /// Lays the metrics out.
    pub fn new(page_count: u32) -> (r: Result<Self, MetricsError>)
        ensures
            r == match layout_error(page_count) {
                Some(e) => Err::<Self, MetricsError>(e),
                None => Ok(layout_of(page_count)),
            },
    {
        if page_count == 0 {
            return Err(MetricsError::ZeroPageCount);
        }
        let limit: usize = isize::MAX as usize - 7;
        if page_count as usize > (limit - STAMPS_OFFSET) / PAGE_STAMP_SIZE {
            return Err(MetricsError::LayoutOverflow);
        }
        Ok(
            ComputedLayout {
                size: STAMPS_OFFSET + PAGE_STAMP_SIZE * page_count as usize,
                values_offset: METRICS_HEADER_SIZE,
                stamps_offset: STAMPS_OFFSET,
            },
        )
    }
}

/// The values lie between the header and the stamps.
pub proof fn law_parts_follow_each_other(page_count: u32)
    ensures
        METRICS_HEADER_SIZE + 8 * METRIC_COUNT == STAMPS_OFFSET,
        region_size(page_count) % 8 == 0,
{
}

/// Why a region cannot hold so many bytes, if so.
pub open spec fn region_error(base: usize, len: usize, size: int) -> Option<MetricsError> {
    if base as int % 8 != 0 {
        Some(MetricsError::BadAlignment { expected: METRICS_ALIGN, actual: base })
    } else if len < size {
        Some(MetricsError::RegionTooSmall { expected: size as usize, actual: len })
    } else {
        None
    }
}

fn validate_region(base: usize, len: usize, size: usize) -> (r: Result<(), MetricsError>)
    ensures
        r == match region_error(base, len, size as int) {
            Some(e) => Err::<(), MetricsError>(e),
            None => Ok(()),
        },
{
    if base % METRICS_ALIGN != 0 {
        return Err(MetricsError::BadAlignment { expected: METRICS_ALIGN, actual: base });
    }
    if len < size {
        return Err(MetricsError::RegionTooSmall { expected: size, actual: len });
    }
    Ok(())
}

/// Which way a page goes.
#[derive(Clone, Copy, Debug, PartialEq, Eq, Structural)]
pub enum PageDirection {
    BackendToWorker,
    WorkerToBackend,
}

/// The number that stands for a direction.
pub open spec fn direction_number(direction: PageDirection) -> u64 {
    match direction {
        PageDirection::BackendToWorker => 1,
        PageDirection::WorkerToBackend => 2,
    }
}

/// Names one page of a page pool.
#[derive(Clone, Copy, Debug, PartialEq, Eq, Structural)]
pub struct PageDescriptor {
    pub pool_id: u64,
    pub page_id: u32,
    pub generation: u64,
}

/// What the receiver of a page learns from its stamp.
#[derive(Clone, Copy, Debug, PartialEq, Eq, Structural)]
pub struct PageObservation {
    pub wait_ns: u64,
    pub payload_bytes: u64,
}

/// What the sender of a page leaves.
#[derive(Clone, Copy, Debug, PartialEq, Eq, Structural)]
pub struct PageStamp {
    pub epoch_direction: u64,
    pub pool_id: u64,
    pub generation: u64,
    pub sent_ns: u64,
    pub payload_bytes: u64,
}

/// The stamp of a page that is not under way.
pub open spec fn zero_stamp() -> PageStamp {
    PageStamp {
        epoch_direction: NO_STAMP,
        pool_id: 0,
        generation: 0,
        sent_ns: 0,
        payload_bytes: 0,
    }
}

impl PageStamp {
    /// The stamp of a page that is not under way.
    pub fn zeroed() -> (r: Self)
        ensures
            r == zero_stamp(),
    {
        PageStamp {
            epoch_direction: NO_STAMP,
            pool_id: 0,
            generation: 0,
            sent_ns: 0,
            payload_bytes: 0,
        }
    }
}

/// Epoch and direction in one word; the highest byte of the epoch is lost.
pub open spec fn epoch_word(epoch: u64, direction: PageDirection) -> int {
    (epoch as int % 0x100_0000_0000_0000) * 256 + direction_number(direction)
}

fn pack_epoch_direction(epoch: u64, direction: PageDirection) -> (r: u64)
    ensures
        r == epoch_word(epoch, direction),
{
    let number: u64 = match direction {
        PageDirection::BackendToWorker => 1,
        PageDirection::WorkerToBackend => 2,
    };
    assert((epoch << 8) | number == (epoch % 0x100_0000_0000_0000) * 256 + number) by (bit_vector)
        requires
            number < 256,
    ;
    (epoch << 8) | number
}

/// What the header of metrics says.
#[derive(Clone, Copy, Debug, PartialEq, Eq, Structural)]
pub struct MetricsHeader {
    pub magic: u64,
    pub version: u32,
    pub metric_count: u32,
    pub page_count: u32,
    pub region_size: u64,
    pub reset_epoch: u64,
}

/// Why a header is not one of metrics in this region, if so.
pub open spec fn header_error(header: MetricsHeader, base: usize, len: usize) -> Option<
    MetricsError,
> {
    if header.magic != METRICS_MAGIC {
        Some(MetricsError::BadMagic { expected: METRICS_MAGIC, actual: header.magic })
    } else if header.version != METRICS_VERSION {
        Some(
            MetricsError::UnsupportedVersion { expected: METRICS_VERSION, actual: header.version },
        )
    } else if header.metric_count != METRIC_COUNT {
        Some(
            MetricsError::MetricCountMismatch {
                expected: METRIC_COUNT as u32,
                actual: header.metric_count,
            },
        )
    } else if layout_error(header.page_count) is Some {
        layout_error(header.page_count)
    } else if region_error(base, len, region_size(header.page_count)) is Some {
        region_error(base, len, region_size(header.page_count))
    } else if header.region_size as usize != region_size(header.page_count) {
        Some(
            MetricsError::LayoutMismatch {
                expected: region_size(header.page_count) as usize,
                actual: header.region_size as usize,
            },
        )
    } else {
        None
    }
}

/// Checks the header that lies in a region.
pub fn check_attach(header: MetricsHeader, base: usize, len: usize) -> (r: Result<
    ComputedLayout,
    MetricsError,
>)
    ensures
        r == match region_error(base, len, METRICS_HEADER_SIZE as int) {
            Some(e) => Err::<ComputedLayout, MetricsError>(e),
            None => match header_error(header, base, len) {
                Some(e) => Err(e),
                None => Ok(layout_of(header.page_count)),
            },
        },
{
    match validate_region(base, len, METRICS_HEADER_SIZE) {
        Ok(()) => {},
        Err(e) => {
            return Err(e);
        },
    }
    if header.magic != METRICS_MAGIC {
        return Err(MetricsError::BadMagic { expected: METRICS_MAGIC, actual: header.magic });
    }
    if header.version != METRICS_VERSION {
        return Err(
            MetricsError::UnsupportedVersion { expected: METRICS_VERSION, actual: header.version },
        );
    }
    if header.metric_count != METRIC_COUNT as u32 {
        return Err(
            MetricsError::MetricCountMismatch {
                expected: METRIC_COUNT as u32,
                actual: header.metric_count,
            },
        );
    }
    let computed: ComputedLayout = match ComputedLayout::new(header.page_count) {
        Ok(computed) => computed,
        Err(e) => {
            return Err(e);
        },
    };
    match validate_region(base, len, computed.size) {
        Ok(()) => {},
        Err(e) => {
            return Err(e);
        },
    }
    if header.region_size as usize != computed.size {
        return Err(
            MetricsError::LayoutMismatch {
                expected: computed.size,
                actual: header.region_size as usize,
            },
        );
    }
    Ok(computed)
}

/// The header of fresh metrics.
pub open spec fn fresh_header(page_count: u32) -> MetricsHeader {
    MetricsHeader {
        magic: METRICS_MAGIC,
        version: METRICS_VERSION,
        metric_count: METRIC_COUNT as u32,
        page_count,
        region_size: region_size(page_count) as u64,
        reset_epoch: 1,
    }
}

/// What metrics are: their header if they are attached, their values, and the
/// stamps of the pages.
#[verifier::ext_equal]
pub struct MetricsState {
    pub header: Option<MetricsHeader>,
    pub values: Seq<u64>,
    pub stamps: Seq<PageStamp>,
}

impl MetricsState {
    /// The epoch, or zero where nothing is attached.
    pub open spec fn current_epoch(self) -> u64 {
        match self.header {
            Some(header) => header.reset_epoch,
            None => 0,
        }
    }

    /// The value of a metric, or zero where nothing is attached.
    pub open spec fn value(self, id: MetricId) -> u64 {
        if self.header is Some {
            self.values[metric_index(id)]
        } else {
            0
        }
    }

    /// Adds to a metric, up to the largest number.
    pub open spec fn added(self, id: MetricId, value: u64) -> MetricsState {
        if self.header is Some {
            MetricsState {
                values: self.values.update(
                    metric_index(id),
                    saturated(self.value(id) as int + value),
                ),
                ..self
            }
        } else {
            self
        }
    }

    /// Starts a new epoch: no counts, no stamps.
    pub open spec fn reset(self) -> MetricsState {
        match self.header {
            Some(header) => MetricsState {
                header: Some(
                    MetricsHeader { reset_epoch: (header.reset_epoch + 1) as u64, ..header },
                ),
                values: Seq::new(METRIC_COUNT as nat, |i: int| 0u64),
                stamps: Seq::new(self.stamps.len(), |i: int| zero_stamp()),
            },
            None => self,
        }
    }

    /// Stamps a page that is sent.
    pub open spec fn stamped(
        self,
        direction: PageDirection,
        page: PageDescriptor,
        payload_bytes: u64,
        now_ns: u64,
    ) -> MetricsState {
        if page.page_id < self.stamps.len() {
            MetricsState {
                stamps: self.stamps.update(
                    page.page_id as int,
                    PageStamp {
                        epoch_direction: epoch_word(self.current_epoch(), direction) as u64,
                        pool_id: page.pool_id,
                        generation: page.generation,
                        sent_ns: now_ns,
                        payload_bytes,
                    },
                ),
                ..self
            }
        } else {
            self
        }
    }

    /// What the stamp of a page tells its receiver: nothing, unless it is of
    /// this epoch, direction, pool and generation.
    pub open spec fn observed(
        self,
        direction: PageDirection,
        page: PageDescriptor,
        now_ns: u64,
    ) -> Option<PageObservation> {
        let stamp = self.stamps[page.page_id as int];
        if page.page_id < self.stamps.len() && stamp.epoch_direction == epoch_word(
            self.current_epoch(),
            direction,
        ) && stamp.pool_id == page.pool_id && stamp.generation == page.generation && stamp.sent_ns
            != 0 {
            Some(
                PageObservation {
                    wait_ns: elapsed(now_ns, stamp.sent_ns),
                    payload_bytes: stamp.payload_bytes,
                },
            )
        } else {
            None
        }
    }
}

/// The largest number, where a sum exceeds it.
pub open spec fn saturated(sum: int) -> u64 {
    if sum > u64::MAX {
        u64::MAX
    } else {
        sum as u64
    }
}

/// How long after `start` it is; zero, where `start` lies ahead.
pub open spec fn elapsed(now: u64, start: u64) -> u64 {
    if now >= start {
        (now - start) as u64
    } else {
        0
    }
}

/// Counters, timers and page stamps.
#[derive(Debug)]
pub struct RuntimeMetrics {
    pub header: Option<MetricsHeader>,
    pub values: Vec<u64>,
    pub stamps: Vec<PageStamp>,
    pub page_count: u32,
}

impl View for RuntimeMetrics {
    type V = MetricsState;

    open spec fn view(&self) -> MetricsState {
        MetricsState {
            header: self.header,
            values: self.values@,
            stamps: self.stamps@,
        }
    }
}

impl Default for RuntimeMetrics {
    fn default() -> (r: Self)
        ensures
            r.wf(),
            r.header is None,
            r.page_count == 0,
            r@ == (MetricsState { header: None, values: Seq::empty(), stamps: Seq::empty() }),
    {
        let r = RuntimeMetrics {
            header: None,
            values: Vec::new(),
            stamps: Vec::new(),
            page_count: 0,
        };
        assert(r@ =~= (MetricsState { header: None, values: Seq::empty(), stamps: Seq::empty() }));
        r
    }
}

/// One metric with its value.
#[derive(Clone, Copy, Debug, PartialEq, Eq)]
pub struct MetricValue {
    pub descriptor: MetricDescriptor,
    pub value: u64,
    pub reset_epoch: u64,
}

impl RuntimeMetrics {
    /// Attached metrics have all values; there is one stamp per page.
    pub open spec fn wf(self) -> bool {
        &&& self.header is Some ==> self.values@.len() == METRIC_COUNT
        &&& self.stamps@.len() == self.page_count
    }

    pub fn layout(config: RuntimeMetricsConfig) -> (r: Result<RuntimeMetricsLayout, MetricsError>)
        ensures
            r == match layout_error(config.page_count) {
                Some(e) => Err::<RuntimeMetricsLayout, MetricsError>(e),
                None => Ok(
                    RuntimeMetricsLayout {
                        size: region_size(config.page_count) as usize,
                        align: METRICS_ALIGN,
                    },
                ),
            },
    {
        match ComputedLayout::new(config.page_count) {
            Ok(computed) => Ok(RuntimeMetricsLayout { size: computed.size, align: METRICS_ALIGN }),
            Err(e) => Err(e),
        }
    }

    /// Initialize metrics in a region at `base` with `len` bytes.
    pub fn init_in_place(base: usize, len: usize, config: RuntimeMetricsConfig) -> (r: Result<
        Self,
        MetricsError,
    >)
        ensures
            match layout_error(config.page_count) {
                Some(e) => r == Err::<Self, MetricsError>(e),
                None => match region_error(base, len, region_size(config.page_count)) {
                    Some(e) => r == Err::<Self, MetricsError>(e),
                    None => r matches Ok(metrics) && metrics.wf() && metrics.page_count
                        == config.page_count && metrics@ == (MetricsState {
                        header: Some(fresh_header(config.page_count)),
                        values: Seq::new(METRIC_COUNT as nat, |i: int| 0u64),
                        stamps: Seq::new(config.page_count as nat, |i: int| zero_stamp()),
                    }),
                },
            },
    {
        let computed: ComputedLayout = match ComputedLayout::new(config.page_count) {
            Ok(computed) => computed,
            Err(e) => {
                return Err(e);
            },
        };
        match validate_region(base, len, computed.size) {
            Ok(()) => {},
            Err(e) => {
                return Err(e);
            },
        }
        let values: Vec<u64> = vec![0u64; METRIC_COUNT];
        let mut stamps: Vec<PageStamp> = Vec::new();
        let mut i: u32 = 0;
        while i < config.page_count
            invariant
                i <= config.page_count,
                stamps@.len() == i,
                forall|j: int| 0 <= j < i ==> #[trigger] stamps@[j] == zero_stamp(),
            decreases config.page_count - i,
        {
            stamps.push(PageStamp::zeroed());
            i = i + 1;
        }
        let header = MetricsHeader {
            magic: METRICS_MAGIC,
            version: METRICS_VERSION,
            metric_count: METRIC_COUNT as u32,
            page_count: config.page_count,
            region_size: computed.size as u64,
            reset_epoch: 1,
        };
        let metrics = RuntimeMetrics {
            header: Some(header),
            values,
            stamps,
            page_count: config.page_count,
        };
        assert(metrics@.values =~= Seq::new(METRIC_COUNT as nat, |i: int| 0u64));
        assert(metrics@.stamps =~= Seq::new(config.page_count as nat, |i: int| zero_stamp()));
        Ok(metrics)
    }

    /// Check that these metrics, mapped at `base` with `len` bytes, can be used.
    /// Metrics that are not attached have no header to check.
    pub fn attach(&self, base: usize, len: usize) -> (r: Result<ComputedLayout, MetricsError>)
        ensures
            r == match region_error(base, len, METRICS_HEADER_SIZE as int) {
                Some(e) => Err::<ComputedLayout, MetricsError>(e),
                None => match self.header {
                    None => Err(MetricsError::BadMagic { expected: METRICS_MAGIC, actual: 0 }),
                    Some(header) => match header_error(header, base, len) {
                        Some(e) => Err(e),
                        None => Ok(layout_of(header.page_count)),
                    },
                },
            },
    {
        let header: MetricsHeader = match self.header {
            Some(header) => header,
            None => MetricsHeader {
                magic: 0,
                version: 0,
                metric_count: 0,
                page_count: 0,
                region_size: 0,
                reset_epoch: 0,
            },
        };
        check_attach(header, base, len)
    }

    pub fn is_attached(&self) -> (r: bool)
        ensures
            r == self@.header is Some,
    {
        self.header.is_some()
    }

    pub fn reset_epoch(&self) -> (r: u64)
        ensures
            r == self@.current_epoch(),
    {
        match self.header {
            Some(header) => header.reset_epoch,
            None => 0,
        }
    }

    /// Start a new epoch and return it.
    pub fn reset(&mut self) -> (r: u64)
        requires
            old(self).wf(),
            old(self)@.current_epoch() < u64::MAX,
        ensures
            final(self).wf(),
            final(self).page_count == old(self).page_count,
            final(self)@ == old(self)@.reset(),
            r == final(self)@.current_epoch(),
    {
        let mut header: MetricsHeader = match self.header {
            Some(header) => header,
            None => {
                return 0;
            },
        };
        let next_epoch: u64 = header.reset_epoch + 1;
        header.reset_epoch = next_epoch;
        self.header = Some(header);
        self.values = vec![0u64; METRIC_COUNT];
        let mut index: usize = 0;
        while index < self.stamps.len()
            invariant
                index <= self.stamps@.len(),
                self.stamps@.len() == old(self).stamps@.len(),
                self.wf(),
                self.header == Some(header),
                self.page_count == old(self).page_count,
                self.values@ =~= Seq::new(METRIC_COUNT as nat, |i: int| 0u64),
                forall|j: int| 0 <= j < index ==> #[trigger] self.stamps@[j] == zero_stamp(),
            decreases self.stamps.len() - index,
        {
            self.stamps.set(index, PageStamp::zeroed());
            index = index + 1;
        }
        assert(self@ =~= old(self)@.reset());
        next_epoch
    }

    /// Add to a metric.
    pub fn add(&mut self, id: MetricId, value: u64)
        requires
            old(self).wf(),
        ensures
            final(self).wf(),
            final(self).page_count == old(self).page_count,
            final(self)@ == old(self)@.added(id, value),
    {
        if self.header.is_some() {
            let index: usize = id.index();
            let sum: u64 = self.values[index].saturating_add(value);
            self.values.set(index, sum);
        }
        assert(self@ =~= old(self)@.added(id, value));
    }

    pub fn increment(&mut self, id: MetricId)
        requires
            old(self).wf(),
        ensures
            final(self).wf(),
            final(self).page_count == old(self).page_count,
            final(self)@ == old(self)@.added(id, 1),
    {
        self.add(id, 1);
    }

    /// Add the time since `start_ns`, if that is known.
    pub fn add_elapsed(&mut self, id: MetricId, start_ns: u64, now_ns: u64)
        requires
            old(self).wf(),
        ensures
            final(self).wf(),
            final(self).page_count == old(self).page_count,
            start_ns == 0 ==> final(self)@ == old(self)@,
            start_ns != 0 ==> final(self)@ == old(self)@.added(id, elapsed(now_ns, start_ns)),
    {
        if start_ns == 0 {
            return;
        }
        self.add(id, now_ns.saturating_sub(start_ns));
    }

    pub fn get(&self, id: MetricId) -> (r: u64)
        requires
            self.wf(),
        ensures
            r == self@.value(id),
    {
        if self.header.is_some() {
            self.values[id.index()]
        } else {
            0
        }
    }

    /// All metrics with their values, in the order in which they are stored.
    pub fn snapshot(&self) -> (r: Vec<MetricValue>)
        requires
            self.wf(),
        ensures
            r@.len() == METRIC_COUNT,
            forall|i: int|
                0 <= i < METRIC_COUNT ==> describes((#[trigger] r@[i]).descriptor, metric_at(i))
                    && r@[i].value == self@.value(metric_at(i)) && r@[i].reset_epoch
                    == self@.current_epoch(),
    {
        let descriptors: Vec<MetricDescriptor> = metric_descriptors();
        let mut r: Vec<MetricValue> = Vec::new();
        let mut i: usize = 0;
        while i < descriptors.len()
            invariant
                i <= descriptors@.len(),
                descriptors@.len() == METRIC_COUNT,
                forall|j: int|
                    0 <= j < METRIC_COUNT ==> describes(#[trigger] descriptors@[j], metric_at(j)),
                self.wf(),
                r@.len() == i,
                forall|j: int|
                    0 <= j < i ==> describes((#[trigger] r@[j]).descriptor, metric_at(j))
                        && r@[j].value == self@.value(metric_at(j)) && r@[j].reset_epoch
                        == self@.current_epoch(),
            decreases descriptors.len() - i,
        {
            let descriptor: MetricDescriptor = descriptors[i];
            r.push(
                MetricValue {
                    descriptor,
                    value: self.get(descriptor.id),
                    reset_epoch: self.reset_epoch(),
                },
            );
            i = i + 1;
        }
        r
    }

    /// Stamp a page that is sent at `now_ns`.
    pub fn stamp_page(
        &mut self,
        direction: PageDirection,
        descriptor: PageDescriptor,
        payload_bytes: usize,
        now_ns: u64,
    )
        requires
            old(self).wf(),
        ensures
            final(self).wf(),
            final(self).page_count == old(self).page_count,
            final(self)@ == old(self)@.stamped(
                direction,
                descriptor,
                payload_bytes as u64,
                now_ns,
            ),
    {
        if descriptor.page_id >= self.page_count {
            return;
        }
        let epoch_direction: u64 = pack_epoch_direction(self.reset_epoch(), direction);
        self.stamps.set(
            descriptor.page_id as usize,
            PageStamp {
                epoch_direction,
                pool_id: descriptor.pool_id,
                generation: descriptor.generation,
                sent_ns: now_ns,
                payload_bytes: payload_bytes as u64,
            },
        );
        assert(self@ =~= old(self)@.stamped(direction, descriptor, payload_bytes as u64, now_ns));
    }

    /// Read the stamp of a page that is received at `observed_ns`.
    pub fn observe_page_at(
        &self,
        direction: PageDirection,
        descriptor: PageDescriptor,
        observed_ns: u64,
    ) -> (r: Option<PageObservation>)
        requires
            self.wf(),
        ensures
            r == self@.observed(direction, descriptor, observed_ns),
    {
        if descriptor.page_id >= self.page_count {
            return None;
        }
        let stamp: PageStamp = self.stamps[descriptor.page_id as usize];
        if stamp.epoch_direction != pack_epoch_direction(self.reset_epoch(), direction) {
            return None;
        }
        if stamp.pool_id != descriptor.pool_id {
            return None;
        }
        if stamp.generation != descriptor.generation {
            return None;
        }
        if stamp.sent_ns == 0 {
            return None;
        }
        Some(
            PageObservation {
                wait_ns: observed_ns.saturating_sub(stamp.sent_ns),
                payload_bytes: stamp.payload_bytes,
            },
        )
    }

    /// Read the stamp of a page that is received now.
    pub fn observe_page(
        &self,
        direction: PageDirection,
        descriptor: PageDescriptor,
        now_ns: u64,
    ) -> (r: Option<PageObservation>)
        requires
            self.wf(),
        ensures
            r == self@.observed(direction, descriptor, now_ns),
    {
        self.observe_page_at(direction, descriptor, now_ns)
    }
}

/// The reading of a clock in nanoseconds, given whether it succeeded, its
/// seconds and the rest; negative parts count as none.
pub fn clock_ns(succeeded: bool, seconds: i64, nanoseconds: i64) -> (r: u64)
    ensures
        r == if succeeded {
            let whole = if seconds > 0 {
                saturated(seconds * 1_000_000_000)
            } else {
                0
            };
            saturated(
                whole + if nanoseconds > 0 {
                    nanoseconds as int
                } else {
                    0
                },
            )
        } else {
            0
        },
{
    if !succeeded {
        return 0;
    }
    let whole: u64 = if seconds > 0 {
        match (seconds as u64).checked_mul(1_000_000_000) {
            Some(whole) => whole,
            None => u64::MAX,
        }
    } else {
        0
    };
    let rest: u64 = if nanoseconds > 0 {
        nanoseconds as u64
    } else {
        0
    };
    whole.saturating_add(rest)
}

/// Fresh metrics can be attached in the region they were made for.
pub proof fn law_init_then_attach(page_count: u32, base: usize, len: usize)
    requires
        layout_error(page_count) is None,
        region_error(base, len, region_size(page_count)) is None,
    ensures
        region_error(base, len, METRICS_HEADER_SIZE as int) is None,
        header_error(fresh_header(page_count), base, len) is None,
{
}

/// What is added to a metric is counted there, up to the largest number, and
/// nowhere else.
pub proof fn law_add_counts(state: MetricsState, id: MetricId, other: MetricId, a: u64, b: u64)
    requires
        state.header is Some,
        state.values.len() == METRIC_COUNT,
    ensures
        state.added(id, a).added(id, b).value(id) == saturated(state.value(id) + a + b),
        other != id ==> state.added(id, a).value(other) == state.value(other),
        state.added(id, a).added(other, b) == state.added(other, b).added(id, a),
{
    super::descriptor::law_metric_places(id, 0);
    super::descriptor::law_metric_places(other, 0);
    assert(state.added(id, a).added(other, b).values =~= state.added(other, b).added(
        id,
        a,
    ).values);
}

/// A reset makes every count zero and forgets every page under way: until it is
/// stamped again, no page is observed.
pub proof fn law_reset_forgets(
    state: MetricsState,
    id: MetricId,
    direction: PageDirection,
    page: PageDescriptor,
    now_ns: u64,
)
    requires
        state.header is Some,
        state.current_epoch() < u64::MAX,
    ensures
        state.reset().value(id) == 0,
        state.reset().current_epoch() == state.current_epoch() + 1,
        state.reset().observed(direction, page, now_ns) is None,
{
    super::descriptor::law_metric_places(id, 0);
}

/// A page that was stamped is observed by who looks for the same page, pool,
/// generation and direction, and by nobody else.
pub proof fn law_stamp_is_observed(
    state: MetricsState,
    direction: PageDirection,
    page: PageDescriptor,
    payload_bytes: u64,
    sent_ns: u64,
    other_direction: PageDirection,
    other: PageDescriptor,
    now_ns: u64,
)
    requires
        page.page_id < state.stamps.len(),
        sent_ns != 0,
        other.page_id == page.page_id,
    ensures
        state.stamped(direction, page, payload_bytes, sent_ns).observed(
            other_direction,
            other,
            now_ns,
        ) == if other_direction == direction && other == page {
            Some(PageObservation { wait_ns: elapsed(now_ns, sent_ns), payload_bytes })
        } else {
            None
        },
{
}

/// A stamp of an earlier epoch is not observed, as long as the epochs are less
/// than two to the power of 56 apart.
pub proof fn law_old_stamp_is_ignored(
    state: MetricsState,
    old_epoch: u64,
    old_direction: PageDirection,
    direction: PageDirection,
    page: PageDescriptor,
    now_ns: u64,
)
    requires
        page.page_id < state.stamps.len(),
        old_epoch < state.current_epoch() < old_epoch + 0x100_0000_0000_0000,
        state.stamps[page.page_id as int].epoch_direction == epoch_word(old_epoch, old_direction),
    ensures
        state.observed(direction, page, now_ns) is None,
{
    let a = old_epoch as int;
    let b = state.current_epoch() as int;
    let qa = a / 0x100_0000_0000_0000;
    let qb = b / 0x100_0000_0000_0000;
    assert(a % 0x100_0000_0000_0000 == a - 0x100_0000_0000_0000 * qa);
    assert(b % 0x100_0000_0000_0000 == b - 0x100_0000_0000_0000 * qb);
}

} // verus!

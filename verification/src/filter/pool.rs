//! A fixed number of filters in shared storage.
//!
//! The pool counts the references to each slot: one of the owner that builds the
//! filter, and one of each probe. Storage is reused only when nobody refers to
//! it, so that no builder clears bits under an old probe.

use super::bloom::{
    max_region_size, positions, AtomicBloomRef, BloomAttachError, BloomParams, LayoutError,
};
use super::lifecycle::{
    acquire_outcome, change_outcome, decision, LifecycleError, LifecycleSnapshot, ProbeDecision,
    RuntimeFilterHeader, RuntimeFilterSlot, RuntimeFilterState, SlotContent, MAX_GENERATION,
};
use super::sharing_laws::law_search_misses_no_free_slot;
use vstd::prelude::*;

verus! {

/// Marks an initialized pool.
pub const POOL_MAGIC: u64 = 0x5047_4655_5246_5031;

/// Shared-memory pool format version.
pub const RUNTIME_FILTER_POOL_VERSION: u32 = 1;

pub const SLOT_FREE: u32 = 0;

pub const SLOT_ALLOCATED: u32 = 1;

pub const SLOT_RETIRING: u32 = 2;

/// Bytes of the pool header.
pub const POOL_HEADER_SIZE: usize = 56;

/// Bytes of one slot's record.
pub const POOL_SLOT_SIZE: usize = 48;

/// Alignment of the pool.
pub const POOL_ALIGN: usize = 8;

/// Join key types that scan probes understand.
#[derive(Clone, Copy, Debug, PartialEq, Eq, Structural)]
pub enum RuntimeFilterKeyType {
    /// Signed 16-bit integer key.
    Int16,
    /// Signed 32-bit integer key.
    Int32,
    /// Signed 64-bit integer key.
    Int64,
    /// Boolean key.
    Boolean,
    /// 32-bit floating-point key.
    Float32,
    /// 64-bit floating-point key.
    Float64,
    /// UTF-8 byte key.
    Utf8View,
    /// Key of sixteen bytes.
    Uuid,
    /// Byte key.
    BinaryView,
}

/// The number that stands for a key type.
pub open spec fn key_type_number(key_type: RuntimeFilterKeyType) -> u32 {
    match key_type {
        RuntimeFilterKeyType::Int16 => 1,
        RuntimeFilterKeyType::Int32 => 2,
        RuntimeFilterKeyType::Int64 => 3,
        RuntimeFilterKeyType::Boolean => 4,
        RuntimeFilterKeyType::Float32 => 5,
        RuntimeFilterKeyType::Float64 => 6,
        RuntimeFilterKeyType::Utf8View => 7,
        RuntimeFilterKeyType::Uuid => 8,
        RuntimeFilterKeyType::BinaryView => 9,
    }
}

/// The key type that a number stands for.
pub open spec fn key_type_of(value: u32) -> Option<RuntimeFilterKeyType> {
    if value == 1 {
        Some(RuntimeFilterKeyType::Int16)
    } else if value == 2 {
        Some(RuntimeFilterKeyType::Int32)
    } else if value == 3 {
        Some(RuntimeFilterKeyType::Int64)
    } else if value == 4 {
        Some(RuntimeFilterKeyType::Boolean)
    } else if value == 5 {
        Some(RuntimeFilterKeyType::Float32)
    } else if value == 6 {
        Some(RuntimeFilterKeyType::Float64)
    } else if value == 7 {
        Some(RuntimeFilterKeyType::Utf8View)
    } else if value == 8 {
        Some(RuntimeFilterKeyType::Uuid)
    } else if value == 9 {
        Some(RuntimeFilterKeyType::BinaryView)
    } else {
        None
    }
}

impl RuntimeFilterKeyType {
    /// The key type that a number stands for.
    pub fn from_raw(value: u32) -> (r: Option<Self>)
        ensures
            r == key_type_of(value),
    {
        match value {
            1 => Some(RuntimeFilterKeyType::Int16),
            2 => Some(RuntimeFilterKeyType::Int32),
            3 => Some(RuntimeFilterKeyType::Int64),
            4 => Some(RuntimeFilterKeyType::Boolean),
            5 => Some(RuntimeFilterKeyType::Float32),
            6 => Some(RuntimeFilterKeyType::Float64),
            7 => Some(RuntimeFilterKeyType::Utf8View),
            8 => Some(RuntimeFilterKeyType::Uuid),
            9 => Some(RuntimeFilterKeyType::BinaryView),
            _ => None,
        }
    }

    /// The number that stands for this key type.
    pub fn to_raw(self) -> (r: u32)
        ensures
            r == key_type_number(self),
    {
        match self {
            RuntimeFilterKeyType::Int16 => 1,
            RuntimeFilterKeyType::Int32 => 2,
            RuntimeFilterKeyType::Int64 => 3,
            RuntimeFilterKeyType::Boolean => 4,
            RuntimeFilterKeyType::Float32 => 5,
            RuntimeFilterKeyType::Float64 => 6,
            RuntimeFilterKeyType::Utf8View => 7,
            RuntimeFilterKeyType::Uuid => 8,
            RuntimeFilterKeyType::BinaryView => 9,
        }
    }
}

/// What connects a filter that a worker builds to the scans that probe it.
#[derive(Clone, Copy, Debug, PartialEq, Eq, Structural)]
pub struct RuntimeFilterTarget {
    /// Session epoch that scopes scan identifiers.
    pub session_epoch: u64,
    /// Backend scan identifier.
    pub scan_id: u64,
    /// Output column to inspect.
    pub output_column: u32,
    /// Key type expected at `output_column`.
    pub key_type: RuntimeFilterKeyType,
}

/// Fixed pool configuration.
#[derive(Clone, Copy, Debug, PartialEq, Eq, Structural)]
pub struct RuntimeFilterPoolConfig {
    pub slot_count: u32,
    pub params: BloomParams,
}

impl RuntimeFilterPoolConfig {
    /// Create a pool configuration with `slot_count` independent filters.
    pub fn new(slot_count: u32, params: BloomParams) -> (r: Self)
        ensures
            r == (RuntimeFilterPoolConfig { slot_count, params }),
    {
        RuntimeFilterPoolConfig { slot_count, params }
    }

    /// Number of filter slots in the pool.
    pub fn slot_count(self) -> (r: u32)
        ensures
            r == self.slot_count,
    {
        self.slot_count
    }

    /// Bloom parameters used by every slot.
    pub fn params(self) -> (r: BloomParams)
        ensures
            r == self.params,
    {
        self.params
    }
}

/// Size and alignment that a pool needs.
#[derive(Clone, Copy, Debug, PartialEq, Eq, Structural)]
pub struct RuntimeFilterPoolLayout {
    /// Required byte length.
    pub size: usize,
    /// Required base-pointer alignment.
    pub align: usize,
}

/// Failure to initialize or attach a pool.
#[allow(inconsistent_fields)]
#[derive(Clone, Copy, Debug, PartialEq, Eq, Structural)]
pub enum RuntimeFilterPoolAttachError {
    NullBase,
    Layout(LayoutError),
    LayoutOverflow,
    Misaligned { required: usize, actual: usize },
    TooSmall { required: usize, actual: usize },
    InvalidMagic { actual: u64 },
    InvalidVersion { expected: u32, actual: u32 },
    ConfigMismatch,
    Bloom(BloomAttachError),
    Lifecycle(LifecycleError),
}

/// What the header of a pool says.
#[derive(Clone, Copy, Debug, PartialEq, Eq, Structural)]
pub struct PoolHeader {
    pub magic: u64,
    pub version: u32,
    pub slot_count: u32,
    pub bit_count: u64,
    pub hash_count: u32,
    pub seed: u64,
    pub word_count: u64,
    pub region_size: u64,
}

/// Where the parts of a pool lie.
#[derive(Clone, Copy, Debug, PartialEq, Eq, Structural)]
pub struct ComputedLayout {
    pub size: usize,
    pub slots_offset: usize,
    pub bits_offset: usize,
}

/// How many words all slots have together.
pub open spec fn total_words(config: RuntimeFilterPoolConfig) -> int {
    config.slot_count * config.params.word_count
}

/// Where the words of the slots begin.
pub open spec fn bits_start(config: RuntimeFilterPoolConfig) -> int {
    POOL_HEADER_SIZE + POOL_SLOT_SIZE * config.slot_count
}

/// The size of a pool: its header, its slot records, its words.
pub open spec fn pool_size(config: RuntimeFilterPoolConfig) -> int {
    bits_start(config) + 8 * total_words(config)
}

/// Why a configuration has no layout, if so. The slots are looked at first.
pub open spec fn layout_error(config: RuntimeFilterPoolConfig) -> Option<
    RuntimeFilterPoolAttachError,
> {
    if bits_start(config) > max_region_size() {
        Some(RuntimeFilterPoolAttachError::Layout(LayoutError))
    } else if total_words(config) > usize::MAX {
        Some(RuntimeFilterPoolAttachError::LayoutOverflow)
    } else if pool_size(config) > max_region_size() {
        Some(RuntimeFilterPoolAttachError::Layout(LayoutError))
    } else {
        None
    }
}

impl ComputedLayout {
    /// Lays a pool out.
    pub fn new(config: RuntimeFilterPoolConfig) -> (r: Result<Self, RuntimeFilterPoolAttachError>)
        ensures
            match layout_error(config) {
                Some(e) => r == Err::<Self, RuntimeFilterPoolAttachError>(e),
                None => r == Ok::<Self, RuntimeFilterPoolAttachError>(
                    ComputedLayout {
                        size: pool_size(config) as usize,
                        slots_offset: POOL_HEADER_SIZE,
                        bits_offset: bits_start(config) as usize,
                    },
                ),
            },
    {
        let limit: usize = isize::MAX as usize - 7;
        if config.slot_count as usize > (limit - POOL_HEADER_SIZE) / POOL_SLOT_SIZE {
            return Err(RuntimeFilterPoolAttachError::Layout(LayoutError));
        }
        let bits_offset: usize = POOL_HEADER_SIZE + POOL_SLOT_SIZE * config.slot_count as usize;
        let words: usize = match (config.slot_count as usize).checked_mul(
            config.params.word_count(),
        ) {
            Some(words) => words,
            None => {
                return Err(RuntimeFilterPoolAttachError::LayoutOverflow);
            },
        };
        if words > (limit - bits_offset) / 8 {
            return Err(RuntimeFilterPoolAttachError::Layout(LayoutError));
        }
        Ok(
            ComputedLayout {
                size: bits_offset + 8 * words,
                slots_offset: POOL_HEADER_SIZE,
                bits_offset,
            },
        )
    }
}

/// Why a region cannot hold a pool, if so.
pub open spec fn region_error(base: usize, len: usize, size: int) -> Option<
    RuntimeFilterPoolAttachError,
> {
    if base == 0 {
        Some(RuntimeFilterPoolAttachError::NullBase)
    } else if base as int % 8 != 0 {
        Some(
            RuntimeFilterPoolAttachError::Misaligned {
                required: POOL_ALIGN,
                actual: (base as int % 8) as usize,
            },
        )
    } else if len < size {
        Some(RuntimeFilterPoolAttachError::TooSmall { required: size as usize, actual: len })
    } else {
        None
    }
}

fn validate_region(base: usize, len: usize, size: usize) -> (r: Result<
    (),
    RuntimeFilterPoolAttachError,
>)
    ensures
        r == match region_error(base, len, size as int) {
            Some(e) => Err::<(), RuntimeFilterPoolAttachError>(e),
            None => Ok(()),
        },
{
    if base == 0 {
        return Err(RuntimeFilterPoolAttachError::NullBase);
    }
    let actual: usize = base % POOL_ALIGN;
    if actual != 0 {
        return Err(RuntimeFilterPoolAttachError::Misaligned { required: POOL_ALIGN, actual });
    }
    if len < size {
        return Err(RuntimeFilterPoolAttachError::TooSmall { required: size, actual: len });
    }
    Ok(())
}

/// The header of a configuration.
pub open spec fn header_for(config: RuntimeFilterPoolConfig) -> PoolHeader {
    PoolHeader {
        magic: POOL_MAGIC,
        version: RUNTIME_FILTER_POOL_VERSION,
        slot_count: config.slot_count,
        bit_count: config.params.bit_count as u64,
        hash_count: config.params.hash_count as u32,
        seed: config.params.seed,
        word_count: config.params.word_count as u64,
        region_size: pool_size(config) as u64,
    }
}

/// Why a header does not fit a configuration, if so.
pub open spec fn header_error(
    header: PoolHeader,
    config: RuntimeFilterPoolConfig,
) -> Option<RuntimeFilterPoolAttachError> {
    if header.magic != POOL_MAGIC {
        Some(RuntimeFilterPoolAttachError::InvalidMagic { actual: header.magic })
    } else if header.version != RUNTIME_FILTER_POOL_VERSION {
        Some(
            RuntimeFilterPoolAttachError::InvalidVersion {
                expected: RUNTIME_FILTER_POOL_VERSION,
                actual: header.version,
            },
        )
    } else if header != header_for(config) {
        Some(RuntimeFilterPoolAttachError::ConfigMismatch)
    } else {
        None
    }
}

/// Checks that an initialized pool in a region has this configuration.
pub fn check_attach(header: PoolHeader, base: usize, len: usize, config: RuntimeFilterPoolConfig) -> (r:
    Result<ComputedLayout, RuntimeFilterPoolAttachError>)
    ensures
        match layout_error(config) {
            Some(e) => r == Err::<ComputedLayout, RuntimeFilterPoolAttachError>(e),
            None => match region_error(base, len, pool_size(config)) {
                Some(e) => r == Err::<ComputedLayout, RuntimeFilterPoolAttachError>(e),
                None => match header_error(header, config) {
                    Some(e) => r == Err::<ComputedLayout, RuntimeFilterPoolAttachError>(e),
                    None => r == Ok::<ComputedLayout, RuntimeFilterPoolAttachError>(
                        ComputedLayout {
                            size: pool_size(config) as usize,
                            slots_offset: POOL_HEADER_SIZE,
                            bits_offset: bits_start(config) as usize,
                        },
                    ),
                },
            },
        },
{
    let computed: ComputedLayout = match ComputedLayout::new(config) {
        Ok(computed) => computed,
        Err(e) => {
            return Err(e);
        },
    };
    match validate_region(base, len, computed.size) {
        Ok(()) => {},
        Err(e) => {
            return Err(e);
        },
    }
    if header.magic != POOL_MAGIC {
        return Err(RuntimeFilterPoolAttachError::InvalidMagic { actual: header.magic });
    }
    if header.version != RUNTIME_FILTER_POOL_VERSION {
        return Err(
            RuntimeFilterPoolAttachError::InvalidVersion {
                expected: RUNTIME_FILTER_POOL_VERSION,
                actual: header.version,
            },
        );
    }
    if header.slot_count != config.slot_count || header.bit_count
        != config.params.bit_count() as u64 || header.hash_count
        != config.params.hash_count() as u32 || header.seed != config.params.seed()
        || header.word_count != config.params.word_count() as u64 || header.region_size
        != computed.size as u64 {
        return Err(RuntimeFilterPoolAttachError::ConfigMismatch);
    }
    Ok(computed)
}

/// One slot of a pool.
#[derive(Debug)]
pub struct PoolSlot {
    pub state: u32,
    pub refs: u32,
    pub generation: u64,
    pub session_epoch: u64,
    pub scan_id: u64,
    pub output_column: u32,
    pub key_type: u32,
    pub filter: RuntimeFilterSlot,
}

/// What a slot of a pool is.
#[verifier::ext_equal]
pub struct PoolSlotContent {
    pub state: u32,
    pub refs: u32,
    pub generation: u64,
    pub session_epoch: u64,
    pub scan_id: u64,
    pub output_column: u32,
    pub key_type: u32,
    pub filter: SlotContent,
}

impl View for PoolSlot {
    type V = PoolSlotContent;

    open spec fn view(&self) -> PoolSlotContent {
        PoolSlotContent {
            state: self.state,
            refs: self.refs,
            generation: self.generation,
            session_epoch: self.session_epoch,
            scan_id: self.scan_id,
            output_column: self.output_column,
            key_type: self.key_type,
            filter: self.filter@,
        }
    }
}

/// A slot that nobody has used.
pub open spec fn unused_slot() -> PoolSlotContent {
    PoolSlotContent {
        state: SLOT_FREE,
        refs: 0,
        generation: 0,
        session_epoch: 0,
        scan_id: 0,
        output_column: 0,
        key_type: 0,
        filter: SlotContent {
            lifecycle: LifecycleSnapshot { generation: 0, state: RuntimeFilterState::Free },
            bits: Set::empty(),
        },
    }
}

impl PoolSlotContent {
    /// A free slot taken for a target, before its builder is there.
    pub open spec fn taken(self, target: RuntimeFilterTarget) -> PoolSlotContent {
        PoolSlotContent {
            state: SLOT_ALLOCATED,
            refs: 1,
            session_epoch: target.session_epoch,
            scan_id: target.scan_id,
            output_column: target.output_column,
            key_type: key_type_number(target.key_type),
            ..self
        }
    }

    /// A free slot after an allocation for a target.
    pub open spec fn allocated(self, target: RuntimeFilterTarget) -> PoolSlotContent {
        match acquire_outcome(self.filter.lifecycle) {
            Ok(next) => PoolSlotContent {
                generation: next.generation,
                filter: SlotContent { lifecycle: next, bits: Set::empty() },
                ..self.taken(target)
            },
            Err(_) => PoolSlotContent { state: SLOT_FREE, refs: 0, ..self.taken(target) },
        }
    }

    /// A slot with one reference more.
    pub open spec fn referenced(self) -> PoolSlotContent {
        PoolSlotContent { refs: self.refs.wrapping_add(1), ..self }
    }

    /// The filter of a slot that nobody refers to any more.
    pub open spec fn retired_filter(self) -> SlotContent {
        let outcome = match self.filter.lifecycle.state {
            RuntimeFilterState::Ready => change_outcome(
                self.filter.lifecycle,
                self.generation,
                RuntimeFilterState::Ready,
                RuntimeFilterState::Disabled,
            ),
            RuntimeFilterState::Building => change_outcome(
                self.filter.lifecycle,
                self.generation,
                RuntimeFilterState::Building,
                RuntimeFilterState::Disabled,
            ),
            _ => Ok(self.filter.lifecycle),
        };
        match outcome {
            Ok(lifecycle) => SlotContent { lifecycle, ..self.filter },
            Err(_) => self.filter,
        }
    }

    /// A slot with one reference less. The last reference to a retiring slot
    /// frees it.
    pub open spec fn released(self) -> PoolSlotContent {
        let fewer = PoolSlotContent { refs: self.refs.wrapping_sub(1), ..self };
        if self.refs == 1 && self.state == SLOT_RETIRING {
            PoolSlotContent {
                state: SLOT_FREE,
                generation: 0,
                session_epoch: 0,
                scan_id: 0,
                output_column: 0,
                key_type: 0,
                filter: self.retired_filter(),
                ..fewer
            }
        } else {
            fewer
        }
    }

    /// A slot that its owner gives up.
    pub open spec fn disowned(self) -> PoolSlotContent {
        if self.state == SLOT_ALLOCATED {
            PoolSlotContent { state: SLOT_RETIRING, ..self }.released()
        } else {
            self.released()
        }
    }

    /// The slot is for this scan.
    pub open spec fn serves(self, session_epoch: u64, scan_id: u64) -> bool {
        &&& self.state == SLOT_ALLOCATED
        &&& self.session_epoch == session_epoch
        &&& self.scan_id == scan_id
        &&& key_type_of(self.key_type) is Some
    }

    /// The probe handle of the slot at this index.
    pub open spec fn probe_handle(self, slot_index: u32) -> RuntimeFilterProbeHandle {
        RuntimeFilterProbeHandle {
            slot_index,
            generation: self.generation,
            output_column: self.output_column,
            key_type: key_type_of(self.key_type)->0,
            released: false,
        }
    }
}

/// Fixed-slot owner of filters.
#[derive(Debug)]
pub struct RuntimeFilterPool {
    pub header: Option<PoolHeader>,
    pub slots: Vec<PoolSlot>,
    pub config: RuntimeFilterPoolConfig,
}

/// The contents of slots, one by one.
pub open spec fn contents(slots: Seq<PoolSlot>) -> Seq<PoolSlotContent> {
    slots.map_values(|slot: PoolSlot| slot@)
}

impl View for RuntimeFilterPool {
    type V = Seq<PoolSlotContent>;

    open spec fn view(&self) -> Seq<PoolSlotContent> {
        contents(self.slots@)
    }
}

/// The first free slot from `i` on.
pub open spec fn first_free(slots: Seq<PoolSlotContent>, i: int) -> Option<int>
    decreases slots.len() - i,
{
    if i < 0 || i >= slots.len() {
        None
    } else if slots[i].state == SLOT_FREE {
        Some(i)
    } else {
        first_free(slots, i + 1)
    }
}

/// The slots after a lookup that went through the first `n`.
pub open spec fn looked_up(
    slots: Seq<PoolSlotContent>,
    session_epoch: u64,
    scan_id: u64,
    n: int,
) -> Seq<PoolSlotContent> {
    Seq::new(
        slots.len(),
        |i: int|
            if i < n && slots[i].serves(session_epoch, scan_id) {
                slots[i].referenced()
            } else if i < n && slots[i].state == SLOT_ALLOCATED {
                slots[i].referenced().released()
            } else {
                slots[i]
            },
    )
}

/// The handles that a lookup through the first `n` slots finds.
pub open spec fn found(
    slots: Seq<PoolSlotContent>,
    session_epoch: u64,
    scan_id: u64,
    n: int,
) -> Seq<RuntimeFilterProbeHandle>
    decreases n,
{
    if n <= 0 {
        Seq::empty()
    } else {
        let before = found(slots, session_epoch, scan_id, n - 1);
        if slots[n - 1].serves(session_epoch, scan_id) {
            before.push(slots[n - 1].probe_handle((n - 1) as u32))
        } else {
            before
        }
    }
}

impl Default for RuntimeFilterPool {
    fn default() -> (r: Self)
        ensures
            r.wf(),
            r.header is None,
            r@ == Seq::<PoolSlotContent>::empty(),
            r.config.slot_count == 0,
            r.config.params == (BloomParams { bit_count: 1, word_count: 1, hash_count: 1, seed: 0 }),
    {
        let params = BloomParams { bit_count: 1, word_count: 1, hash_count: 1, seed: 0 };
        let r = RuntimeFilterPool {
            header: None,
            slots: Vec::new(),
            config: RuntimeFilterPoolConfig::new(0, params),
        };
        assert(r@ =~= Seq::<PoolSlotContent>::empty());
        r
    }
}

impl RuntimeFilterPool {
    /// One slot fits the pool.
    pub open spec fn slot_wf(self, i: int) -> bool {
        &&& self.slots@[i].filter.wf()
        &&& self.slots@[i].filter.bloom.params == self.config.params
        &&& self.slots@[i].generation <= MAX_GENERATION
    }

    /// As many slots as configured, each with bits of the configured size.
    pub open spec fn wf(self) -> bool {
        &&& self.config.params.wf()
        &&& self.slots@.len() == self.config.slot_count
        &&& forall|i: int| 0 <= i < self.slots@.len() ==> #[trigger] self.slot_wf(i)
    }

    /// Compute the layout that a configuration needs.
    pub fn layout(config: RuntimeFilterPoolConfig) -> (r: Result<
        RuntimeFilterPoolLayout,
        RuntimeFilterPoolAttachError,
    >)
        ensures
            match layout_error(config) {
                Some(e) => r == Err::<RuntimeFilterPoolLayout, RuntimeFilterPoolAttachError>(e),
                None => r == Ok::<RuntimeFilterPoolLayout, RuntimeFilterPoolAttachError>(
                    RuntimeFilterPoolLayout {
                        size: pool_size(config) as usize,
                        align: POOL_ALIGN,
                    },
                ),
            },
    {
        match ComputedLayout::new(config) {
            Ok(computed) => Ok(RuntimeFilterPoolLayout { size: computed.size, align: POOL_ALIGN }),
            Err(e) => Err(e),
        }
    }

    /// Initialize a pool in a region at `base` with `len` bytes.
    pub fn init_in_place(base: usize, len: usize, config: RuntimeFilterPoolConfig) -> (r: Result<
        Self,
        RuntimeFilterPoolAttachError,
    >)
        requires
            config.params.wf(),
        ensures
            match layout_error(config) {
                Some(e) => r == Err::<Self, RuntimeFilterPoolAttachError>(e),
                None => match region_error(base, len, pool_size(config)) {
                    Some(e) => r == Err::<Self, RuntimeFilterPoolAttachError>(e),
                    None => r matches Ok(pool) && pool.wf() && pool.config == config && pool.header
                        == Some(header_for(config)) && pool@ == Seq::new(
                        config.slot_count as nat,
                        |i: int| unused_slot(),
                    ),
                },
            },
    {
        let computed: ComputedLayout = match ComputedLayout::new(config) {
            Ok(computed) => computed,
            Err(e) => {
                return Err(e);
            },
        };
        match validate_region(base, len, computed.size) {
            Ok(()) => {},
            Err(e) => {
                return Err(e);
            },
        }
        let header = PoolHeader {
            magic: POOL_MAGIC,
            version: RUNTIME_FILTER_POOL_VERSION,
            slot_count: config.slot_count,
            bit_count: config.params.bit_count() as u64,
            hash_count: config.params.hash_count() as u32,
            seed: config.params.seed(),
            word_count: config.params.word_count() as u64,
            region_size: computed.size as u64,
        };
        let mut slots: Vec<PoolSlot> = Vec::new();
        let mut i: u32 = 0;
        while i < config.slot_count
            invariant
                i <= config.slot_count,
                slots@.len() == i,
                config.params.wf(),
                forall|j: int|
                    0 <= j < i ==> (#[trigger] slots@[j])@ == unused_slot() && slots@[j].filter.wf()
                        && slots@[j].filter.bloom.params == config.params,
            decreases config.slot_count - i,
        {
            slots.push(fresh_slot(config.params));
            i = i + 1;
        }
        let pool = RuntimeFilterPool { header: Some(header), slots, config };
        assert forall|j: int| 0 <= j < pool.slots@.len() implies #[trigger] pool.slot_wf(j) by {
            assert(pool.slots@[j]@ == unused_slot());
        }
        assert(pool@ =~= Seq::new(config.slot_count as nat, |i: int| unused_slot()));
        Ok(pool)
    }

    /// Check that this pool, mapped at `base` with `len` bytes, has the given
    /// configuration. A pool that is not attached has no header to check.
    pub fn attach(&self, base: usize, len: usize, config: RuntimeFilterPoolConfig) -> (r: Result<
        ComputedLayout,
        RuntimeFilterPoolAttachError,
    >)
        ensures
            match layout_error(config) {
                Some(e) => r == Err::<ComputedLayout, RuntimeFilterPoolAttachError>(e),
                None => match region_error(base, len, pool_size(config)) {
                    Some(e) => r == Err::<ComputedLayout, RuntimeFilterPoolAttachError>(e),
                    None => match self.header {
                        None => r == Err::<ComputedLayout, RuntimeFilterPoolAttachError>(
                            RuntimeFilterPoolAttachError::InvalidMagic { actual: 0 },
                        ),
                        Some(header) => match header_error(header, config) {
                            Some(e) => r == Err::<ComputedLayout, RuntimeFilterPoolAttachError>(e),
                            None => r == Ok::<ComputedLayout, RuntimeFilterPoolAttachError>(
                                ComputedLayout {
                                    size: pool_size(config) as usize,
                                    slots_offset: POOL_HEADER_SIZE,
                                    bits_offset: bits_start(config) as usize,
                                },
                            ),
                        },
                    },
                },
            },
    {
        let header: PoolHeader = match self.header {
            Some(header) => header,
            None => PoolHeader {
                magic: 0,
                version: 0,
                slot_count: 0,
                bit_count: 0,
                hash_count: 0,
                seed: 0,
                word_count: 0,
                region_size: 0,
            },
        };
        check_attach(header, base, len, config)
    }

    /// Return whether this pool is attached to a region.
    pub fn is_attached(&self) -> (r: bool)
        ensures
            r == self.header is Some,
    {
        self.header.is_some()
    }

    /// Return the pool configuration.
    pub fn config(&self) -> (r: RuntimeFilterPoolConfig)
        ensures
            r == self.config,
    {
        self.config
    }

    /// Allocate a filter slot for a worker build.
    ///
    /// Returns `Ok(None)` when the pool is unavailable or exhausted; the query
    /// then goes on without a filter.
    pub fn allocate_build(&mut self, target: RuntimeFilterTarget) -> (r: Result<
        Option<RuntimeFilterBuildHandle>,
        RuntimeFilterPoolAttachError,
    >)
        requires
            old(self).wf(),
        ensures
            final(self).wf(),
            final(self).config == old(self).config,
            final(self).header == old(self).header,
            match first_free(old(self)@, 0) {
                Some(i) if old(self).header is Some => {
                    let slot = old(self)@[i];
                    &&& final(self)@ == old(self)@.update(i, slot.allocated(target))
                    &&& r == match acquire_outcome(slot.filter.lifecycle) {
                        Ok(next) => Ok::<
                            Option<RuntimeFilterBuildHandle>,
                            RuntimeFilterPoolAttachError,
                        >(
                            Some(
                                RuntimeFilterBuildHandle {
                                    slot_index: i as u32,
                                    generation: next.generation,
                                    released: false,
                                },
                            ),
                        ),
                        Err(e) => Err(RuntimeFilterPoolAttachError::Lifecycle(e)),
                    }
                },
                _ => r == Ok::<Option<RuntimeFilterBuildHandle>, RuntimeFilterPoolAttachError>(None)
                    && final(self)@ == old(self)@,
            },
            (r matches Ok(None)) <==> old(self).header is None || forall|k: int|
                0 <= k < old(self)@.len() ==> (#[trigger] old(self)@[k]).state != SLOT_FREE,
    {
        proof {
            law_search_misses_no_free_slot(self@);
        }
        if !self.is_attached() || self.config.slot_count == 0 {
            return Ok(None);
        }
        let mut slot_index: u32 = 0;
        while slot_index < self.config.slot_count
            invariant
                slot_index <= self.config.slot_count,
                *self == *old(self),
                self.wf(),
                self.header is Some,
                first_free(self@, 0) == first_free(self@, slot_index as int),
            decreases self.config.slot_count - slot_index,
        {
            assert(self@[slot_index as int] == self.slots@[slot_index as int]@);
            if self.slots[slot_index as usize].state == SLOT_FREE {
                return self.allocate_at(slot_index, target);
            }
            slot_index = slot_index + 1;
        }
        Ok(None)
    }

    /// Allocates a slot that is free.
    fn allocate_at(&mut self, slot_index: u32, target: RuntimeFilterTarget) -> (r: Result<
        Option<RuntimeFilterBuildHandle>,
        RuntimeFilterPoolAttachError,
    >)
        requires
            old(self).wf(),
            slot_index < old(self).slots@.len(),
        ensures
            final(self).wf(),
            final(self).config == old(self).config,
            final(self).header == old(self).header,
            ({
                let slot = old(self)@[slot_index as int];
                &&& final(self)@ == old(self)@.update(slot_index as int, slot.allocated(target))
                &&& r == match acquire_outcome(slot.filter.lifecycle) {
                    Ok(next) => Ok::<
                        Option<RuntimeFilterBuildHandle>,
                        RuntimeFilterPoolAttachError,
                    >(
                        Some(
                            RuntimeFilterBuildHandle {
                                slot_index,
                                generation: next.generation,
                                released: false,
                            },
                        ),
                    ),
                    Err(e) => Err(RuntimeFilterPoolAttachError::Lifecycle(e)),
                }
            }),
    {
        let index: usize = slot_index as usize;
        proof {
            assert(self.slot_wf(slot_index as int));
        }
        let slot: &mut PoolSlot = &mut self.slots[index];
        slot.state = SLOT_ALLOCATED;
        slot.refs = 1;
        slot.session_epoch = target.session_epoch;
        slot.scan_id = target.scan_id;
        slot.output_column = target.output_column;
        slot.key_type = target.key_type.to_raw();
        let r: Result<Option<RuntimeFilterBuildHandle>, RuntimeFilterPoolAttachError> =
            match slot.filter.try_acquire_builder() {
            Ok(builder) => {
                let generation: u64 = builder.detach();
                slot.generation = generation;
                Ok(Some(RuntimeFilterBuildHandle { slot_index, generation, released: false }))
            },
            Err(e) => {
                slot.refs = 0;
                slot.state = SLOT_FREE;
                Err(RuntimeFilterPoolAttachError::Lifecycle(e))
            },
        };
        proof {
            self.lemma_updated(*old(self), slot_index as int);
        }
        r
    }

    /// Replacing one well-formed slot keeps the pool well-formed.
    proof fn lemma_updated(self, before: RuntimeFilterPool, i: int)
        requires
            before.wf(),
            0 <= i < before.slots@.len(),
            self.slots@ == before.slots@.update(i, self.slots@[i]),
            self.config == before.config,
            self.slot_wf(i),
        ensures
            self.wf(),
            self@ == before@.update(i, self.slots@[i]@),
    {
        assert forall|j: int| 0 <= j < self.slots@.len() implies #[trigger] self.slot_wf(j) by {
            assert(before.slot_wf(j));
        }
        assert(self@ =~= before@.update(i, self.slots@[i]@));
    }

    /// Find probe handles matching `(session_epoch, scan_id)`.
    ///
    /// Matching handles are pushed into `probes` and hold references until they
    /// are released.
    pub fn lookup_probes(
        &mut self,
        session_epoch: u64,
        scan_id: u64,
        probes: &mut Vec<RuntimeFilterProbeHandle>,
    )
        requires
            old(self).wf(),
        ensures
            final(self).wf(),
            final(self).config == old(self).config,
            final(self).header == old(self).header,
            old(self).header is None ==> final(self)@ == old(self)@ && final(probes)@ == old(
                probes,
            )@,
            old(self).header is Some ==> {
                let n = old(self)@.len() as int;
                &&& final(self)@ == looked_up(old(self)@, session_epoch, scan_id, n)
                &&& final(probes)@ == old(probes)@ + found(old(self)@, session_epoch, scan_id, n)
            },
    {
        if !self.is_attached() {
            return;
        }
        let ghost slots = self@;
        let ghost handles = probes@;
        let mut slot_index: u32 = 0;
        assert(self@ =~= looked_up(slots, session_epoch, scan_id, 0));
        assert(probes@ =~= handles + found(slots, session_epoch, scan_id, 0));
        while slot_index < self.config.slot_count
            invariant
                slot_index <= self.config.slot_count,
                slots.len() == self.config.slot_count,
                self.wf(),
                self.config == old(self).config,
                self.header == old(self).header,
                self@ == looked_up(slots, session_epoch, scan_id, slot_index as int),
                probes@ == handles + found(slots, session_epoch, scan_id, slot_index as int),
            decreases self.config.slot_count - slot_index,
        {
            let ghost i = slot_index as int;
            let ghost before = self@;
            assert(before[i] == slots[i]);
            if self.begin_probe(slot_index) {
                match self.finish_probe(slot_index, session_epoch, scan_id) {
                    Some(probe) => {
                        probes.push(probe);
                    },
                    None => {},
                }
            }
            proof {
                assert(self@ =~= looked_up(slots, session_epoch, scan_id, i + 1));
                assert(probes@ =~= handles + found(slots, session_epoch, scan_id, i + 1));
            }
            slot_index = slot_index + 1;
        }
    }

    /// First half of looking at a slot: refers to it if it is allocated.
    pub fn begin_probe(&mut self, slot_index: u32) -> (r: bool)
        requires
            old(self).wf(),
            slot_index < old(self).slots@.len(),
        ensures
            final(self).wf(),
            final(self).config == old(self).config,
            final(self).header == old(self).header,
            r == (old(self)@[slot_index as int].state == SLOT_ALLOCATED),
            final(self)@ == if r {
                old(self)@.update(slot_index as int, old(self)@[slot_index as int].referenced())
            } else {
                old(self)@
            },
    {
        let index: usize = slot_index as usize;
        if self.slots[index].state != SLOT_ALLOCATED {
            return false;
        }
        proof {
            assert(self.slot_wf(slot_index as int));
        }
        let slot: &mut PoolSlot = &mut self.slots[index];
        slot.refs = slot.refs.wrapping_add(1);
        proof {
            self.lemma_updated(*old(self), slot_index as int);
        }
        true
    }

    /// Second half of looking at a slot that is referred to: keeps the reference
    /// for a probe if the slot is still allocated and is for this scan.
    pub fn finish_probe(&mut self, slot_index: u32, session_epoch: u64, scan_id: u64) -> (r: Option<
        RuntimeFilterProbeHandle,
    >)
        requires
            old(self).wf(),
            slot_index < old(self).slots@.len(),
        ensures
            final(self).wf(),
            final(self).config == old(self).config,
            final(self).header == old(self).header,
            ({
                let slot = old(self)@[slot_index as int];
                if slot.serves(session_epoch, scan_id) {
                    &&& final(self)@ == old(self)@
                    &&& r == Some(slot.probe_handle(slot_index))
                } else {
                    &&& final(self)@ == old(self)@.update(slot_index as int, slot.released())
                    &&& r is None
                }
            }),
    {
        let slot: &PoolSlot = &self.slots[slot_index as usize];
        let matches: bool = slot.state == SLOT_ALLOCATED && slot.session_epoch == session_epoch
            && slot.scan_id == scan_id;
        if !matches {
            self.release_ref(slot_index);
            return None;
        }
        match RuntimeFilterKeyType::from_raw(slot.key_type) {
            None => {
                self.release_ref(slot_index);
                None
            },
            Some(key_type) => Some(
                RuntimeFilterProbeHandle {
                    slot_index,
                    generation: slot.generation,
                    output_column: slot.output_column,
                    key_type,
                    released: false,
                },
            ),
        }
    }

    fn insert_hash(&mut self, slot_index: u32, generation: u64, hash: u64)
        requires
            old(self).wf(),
            slot_index < old(self).slots@.len(),
        ensures
            final(self).wf(),
            final(self).config == old(self).config,
            final(self).header == old(self).header,
            final(self)@ == old(self)@.update(
                slot_index as int,
                with_hash(old(self)@[slot_index as int], old(self).config.params, generation, hash),
            ),
    {
        let index: usize = slot_index as usize;
        proof {
            assert(self.slot_wf(slot_index as int));
        }
        let slot: &mut PoolSlot = &mut self.slots[index];
        let snapshot: LifecycleSnapshot = slot.filter.snapshot();
        if snapshot.generation == generation && snapshot.state == RuntimeFilterState::Building {
            slot.filter.bloom.insert_hash(hash);
        }
        proof {
            self.lemma_updated(*old(self), slot_index as int);
        }
    }

    fn publish_ready(&mut self, slot_index: u32, generation: u64) -> (r: Result<
        (),
        RuntimeFilterPoolAttachError,
    >)
        requires
            old(self).wf(),
            slot_index < old(self).slots@.len(),
            generation <= MAX_GENERATION,
        ensures
            final(self).wf(),
            final(self).config == old(self).config,
            final(self).header == old(self).header,
            built(
                old(self)@,
                final(self)@,
                slot_index as int,
                generation,
                RuntimeFilterState::Ready,
                r,
            ),
    {
        let index: usize = slot_index as usize;
        proof {
            assert(self.slot_wf(slot_index as int));
        }
        let slot: &mut PoolSlot = &mut self.slots[index];
        let r: Result<(), RuntimeFilterPoolAttachError> = match slot.filter.publish_build(
            generation,
        ) {
            Ok(_) => Ok(()),
            Err(e) => Err(RuntimeFilterPoolAttachError::Lifecycle(e)),
        };
        proof {
            let i = slot_index as int;
            self.lemma_updated(*old(self), i);
            assert(old(self)@.update(i, old(self)@[i]) =~= old(self)@);
        }
        r
    }

    fn disable_build(&mut self, slot_index: u32, generation: u64) -> (r: Result<
        (),
        RuntimeFilterPoolAttachError,
    >)
        requires
            old(self).wf(),
            slot_index < old(self).slots@.len(),
            generation <= MAX_GENERATION,
        ensures
            final(self).wf(),
            final(self).config == old(self).config,
            final(self).header == old(self).header,
            built(
                old(self)@,
                final(self)@,
                slot_index as int,
                generation,
                RuntimeFilterState::Disabled,
                r,
            ),
    {
        let index: usize = slot_index as usize;
        proof {
            assert(self.slot_wf(slot_index as int));
        }
        let slot: &mut PoolSlot = &mut self.slots[index];
        let r: Result<(), RuntimeFilterPoolAttachError> = match slot.filter.disable_build(
            generation,
        ) {
            Ok(()) => Ok(()),
            Err(e) => Err(RuntimeFilterPoolAttachError::Lifecycle(e)),
        };
        proof {
            let i = slot_index as int;
            self.lemma_updated(*old(self), i);
            assert(old(self)@.update(i, old(self)@[i]) =~= old(self)@);
        }
        r
    }

    fn release_owner(&mut self, slot_index: u32)
        requires
            old(self).wf(),
            slot_index < old(self).slots@.len(),
        ensures
            final(self).wf(),
            final(self).config == old(self).config,
            final(self).header == old(self).header,
            final(self)@ == old(self)@.update(
                slot_index as int,
                old(self)@[slot_index as int].disowned(),
            ),
    {
        let index: usize = slot_index as usize;
        let ghost i = slot_index as int;
        proof {
            assert(self.slot_wf(i));
        }
        let slot: &mut PoolSlot = &mut self.slots[index];
        if slot.state == SLOT_ALLOCATED {
            slot.state = SLOT_RETIRING;
        }
        proof {
            self.lemma_updated(*old(self), i);
        }
        let ghost between = self@;
        self.release_ref(slot_index);
        assert(self@ =~= old(self)@.update(i, old(self)@[i].disowned()));
    }

    fn release_ref(&mut self, slot_index: u32)
        requires
            old(self).wf(),
            slot_index < old(self).slots@.len(),
        ensures
            final(self).wf(),
            final(self).config == old(self).config,
            final(self).header == old(self).header,
            final(self)@ == old(self)@.update(
                slot_index as int,
                old(self)@[slot_index as int].released(),
            ),
    {
        let index: usize = slot_index as usize;
        proof {
            assert(self.slot_wf(slot_index as int));
        }
        let slot: &mut PoolSlot = &mut self.slots[index];
        let old_refs: u32 = slot.refs;
        slot.refs = old_refs.wrapping_sub(1);
        if old_refs == 1 && slot.state == SLOT_RETIRING {
            let generation: u64 = slot.generation;
            match slot.filter.snapshot().state {
                RuntimeFilterState::Ready => {
                    let _ = slot.filter.retire_ready_after_quiescence(generation);
                },
                RuntimeFilterState::Building => {
                    let _ = slot.filter.disable_build(generation);
                },
                _ => {},
            }
            slot.session_epoch = 0;
            slot.scan_id = 0;
            slot.output_column = 0;
            slot.key_type = 0;
            slot.generation = 0;
            slot.state = SLOT_FREE;
        }
        proof {
            self.lemma_updated(*old(self), slot_index as int);
        }
    }
}

fn fresh_slot(params: BloomParams) -> (r: PoolSlot)
    requires
        params.wf(),
    ensures
        r@ == unused_slot(),
        r.filter.wf(),
        r.filter.bloom.params == params,
{
    let words: Vec<u64> = vec![0u64; params.word_count];
    let mut bloom: AtomicBloomRef = AtomicBloomRef { bits: words, params };
    bloom.clear();
    PoolSlot {
        state: SLOT_FREE,
        refs: 0,
        generation: 0,
        session_epoch: 0,
        scan_id: 0,
        output_column: 0,
        key_type: 0,
        filter: RuntimeFilterSlot { header: RuntimeFilterHeader::free(), bloom },
    }
}

/// A slot after the insertion of a hash: only the generation that is building
/// takes it.
pub open spec fn with_hash(
    slot: PoolSlotContent,
    params: BloomParams,
    generation: u64,
    hash: u64,
) -> PoolSlotContent {
    if slot.filter.lifecycle == (LifecycleSnapshot {
        generation,
        state: RuntimeFilterState::Building,
    }) {
        PoolSlotContent {
            filter: SlotContent {
                bits: slot.filter.bits.union(positions(params, hash)),
                ..slot.filter
            },
            ..slot
        }
    } else {
        slot
    }
}

/// What ending the build of a generation gives.
pub open spec fn built(
    before: Seq<PoolSlotContent>,
    after: Seq<PoolSlotContent>,
    i: int,
    generation: u64,
    to: RuntimeFilterState,
    r: Result<(), RuntimeFilterPoolAttachError>,
) -> bool {
    match change_outcome(
        before[i].filter.lifecycle,
        generation,
        RuntimeFilterState::Building,
        to,
    ) {
        Ok(lifecycle) => {
            &&& r is Ok
            &&& after == before.update(
                i,
                PoolSlotContent {
                    filter: SlotContent { lifecycle, ..before[i].filter },
                    ..before[i]
                },
            )
        },
        Err(e) => {
            &&& r == Err::<(), RuntimeFilterPoolAttachError>(
                RuntimeFilterPoolAttachError::Lifecycle(e),
            )
            &&& after == before
        },
    }
}

/// The owner's handle of a slot whose filter is built.
#[derive(Debug, PartialEq, Eq)]
pub struct RuntimeFilterBuildHandle {
    pub slot_index: u32,
    pub generation: u64,
    pub released: bool,
}

impl RuntimeFilterBuildHandle {
    /// The handle is of this pool.
    pub open spec fn fits(self, pool: RuntimeFilterPool) -> bool {
        self.slot_index < pool.slots@.len() && self.generation <= MAX_GENERATION
    }

    pub fn generation(&self) -> (r: u64)
        ensures
            r == self.generation,
    {
        self.generation
    }

    /// Insert a hash, unless the generation is no longer building.
    pub fn insert_hash(&self, pool: &mut RuntimeFilterPool, hash: u64) -> (r: Result<
        (),
        RuntimeFilterPoolAttachError,
    >)
        requires
            old(pool).wf(),
            self.fits(*old(pool)),
        ensures
            final(pool).wf(),
            final(pool).config == old(pool).config,
            final(pool).header == old(pool).header,
            r is Ok,
            final(pool)@ == old(pool)@.update(
                self.slot_index as int,
                with_hash(
                    old(pool)@[self.slot_index as int],
                    old(pool).config.params,
                    self.generation,
                    hash,
                ),
            ),
    {
        pool.insert_hash(self.slot_index, self.generation, hash);
        Ok(())
    }

    /// Publish the generation as ready.
    pub fn publish_ready(&self, pool: &mut RuntimeFilterPool) -> (r: Result<
        (),
        RuntimeFilterPoolAttachError,
    >)
        requires
            old(pool).wf(),
            self.fits(*old(pool)),
        ensures
            final(pool).wf(),
            final(pool).config == old(pool).config,
            final(pool).header == old(pool).header,
            built(
                old(pool)@,
                final(pool)@,
                self.slot_index as int,
                self.generation,
                RuntimeFilterState::Ready,
                r,
            ),
    {
        pool.publish_ready(self.slot_index, self.generation)
    }

    /// Disable the generation.
    pub fn disable_build(&self, pool: &mut RuntimeFilterPool) -> (r: Result<
        (),
        RuntimeFilterPoolAttachError,
    >)
        requires
            old(pool).wf(),
            self.fits(*old(pool)),
        ensures
            final(pool).wf(),
            final(pool).config == old(pool).config,
            final(pool).header == old(pool).header,
            built(
                old(pool)@,
                final(pool)@,
                self.slot_index as int,
                self.generation,
                RuntimeFilterState::Disabled,
                r,
            ),
    {
        pool.disable_build(self.slot_index, self.generation)
    }

    /// Give the slot up. A second call does nothing.
    pub fn release_owner(&mut self, pool: &mut RuntimeFilterPool)
        requires
            old(pool).wf(),
            old(self).fits(*old(pool)),
        ensures
            final(pool).wf(),
            final(pool).config == old(pool).config,
            final(pool).header == old(pool).header,
            *final(self) == (RuntimeFilterBuildHandle { released: true, ..*old(self) }),
            old(self).released ==> final(pool)@ == old(pool)@,
            !old(self).released ==> final(pool)@ == old(pool)@.update(
                old(self).slot_index as int,
                old(pool)@[old(self).slot_index as int].disowned(),
            ),
    {
        if !self.released {
            self.released = true;
            pool.release_owner(self.slot_index);
        }
    }
}

/// A probe's handle of a slot.
#[derive(Debug, PartialEq, Eq)]
pub struct RuntimeFilterProbeHandle {
    pub slot_index: u32,
    pub generation: u64,
    pub output_column: u32,
    pub key_type: RuntimeFilterKeyType,
    pub released: bool,
}

impl RuntimeFilterProbeHandle {
    /// The handle is of this pool.
    pub open spec fn fits(self, pool: RuntimeFilterPool) -> bool {
        self.slot_index < pool.slots@.len()
    }

    pub fn output_column(&self) -> (r: u32)
        ensures
            r == self.output_column,
    {
        self.output_column
    }

    pub fn key_type(&self) -> (r: RuntimeFilterKeyType)
        ensures
            r == self.key_type,
    {
        self.key_type
    }

    /// Probe an already-hashed key.
    pub fn decision_for_hash(&self, pool: &RuntimeFilterPool, hash: u64) -> (r: ProbeDecision)
        requires
            pool.wf(),
            self.fits(*pool),
        ensures
            ({
                let filter = pool@[self.slot_index as int].filter;
                r == decision(
                    filter.lifecycle,
                    self.generation,
                    positions(pool.config.params, hash).subset_of(filter.bits),
                )
            }),
    {
        let index: usize = self.slot_index as usize;
        proof {
            assert(pool.slot_wf(self.slot_index as int));
        }
        let slot: &RuntimeFilterSlot = &pool.slots[index].filter;
        slot.probe(self.generation).decision_for_hash(slot, hash)
    }

    /// Probe a null key.
    pub fn decision_for_null(&self, pool: &RuntimeFilterPool) -> (r: ProbeDecision)
        requires
            pool.wf(),
            self.fits(*pool),
        ensures
            r == decision(
                pool@[self.slot_index as int].filter.lifecycle,
                self.generation,
                false,
            ),
    {
        let slot: &RuntimeFilterSlot = &pool.slots[self.slot_index as usize].filter;
        slot.probe(self.generation).decision_for_null(slot)
    }

    /// Give the reference back. A second call does nothing.
    pub fn release(&mut self, pool: &mut RuntimeFilterPool)
        requires
            old(pool).wf(),
            old(self).fits(*old(pool)),
        ensures
            final(pool).wf(),
            final(pool).config == old(pool).config,
            final(pool).header == old(pool).header,
            *final(self) == (RuntimeFilterProbeHandle { released: true, ..*old(self) }),
            old(self).released ==> final(pool)@ == old(pool)@,
            !old(self).released ==> final(pool)@ == old(pool)@.update(
                old(self).slot_index as int,
                old(pool)@[old(self).slot_index as int].released(),
            ),
    {
        if !self.released {
            self.released = true;
            pool.release_ref(self.slot_index);
        }
    }
}

} // verus!

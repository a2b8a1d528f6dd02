//! Sizes and offsets of a transport region in shared memory.
//!
//! A region is a header, four global cells, the free stack, and the slots. Each
//! slot is its generation, its slot word, the backend's process id, two ready
//! flags and two rings.

use super::error::{AttachError, ConfigError, InitError};
use super::meta::{CONTROL_TRANSPORT_MAGIC, CONTROL_TRANSPORT_VERSION};
use super::ring::{framed_ring_layout, ring_size, FramedRingLayout, MIN_RING_CAPACITY};
use vstd::prelude::*;

verus! {

/// Bytes of the region header.
pub const REGION_HEADER_BYTES: usize = 32;

/// Alignment of a region.
pub const REGION_ALIGN: usize = 8;

/// Bytes of a slot in front of its two rings.
pub const SLOT_CELL_BYTES: usize = 24;

/// Offset of the free stack: the header and four cells lie in front of it.
pub const FREELIST_OFFSET: usize = 64;

/// Shared-memory size and alignment requirements for one transport region.
#[derive(Clone, Copy, Debug, PartialEq, Eq, Structural)]
pub struct TransportRegionLayout {
    /// Total region size in bytes.
    pub size: usize,
    /// Required base alignment for the region.
    pub align: usize,
    pub slot_count: u32,
    pub backend_to_worker_cap: usize,
    pub worker_to_backend_cap: usize,
}

/// Rounds up to a multiple of eight.
pub open spec fn round_up_8(bytes: int) -> int {
    (bytes + 7) / 8 * 8
}

/// Offset of the first slot: the free stack is one head word and one link per
/// slot.
pub open spec fn slots_offset_of(slot_count: int) -> int {
    round_up_8(FREELIST_OFFSET + 8 + 4 * slot_count)
}

/// Distance from one slot to the next.
pub open spec fn slot_stride_of(backend_to_worker_cap: int, worker_to_backend_cap: int) -> int {
    round_up_8(
        SLOT_CELL_BYTES + ring_size(backend_to_worker_cap) + ring_size(worker_to_backend_cap),
    )
}

/// Bytes of a whole region.
pub open spec fn region_size_of(
    slot_count: int,
    backend_to_worker_cap: int,
    worker_to_backend_cap: int,
) -> int {
    slots_offset_of(slot_count) + slot_count * slot_stride_of(
        backend_to_worker_cap,
        worker_to_backend_cap,
    )
}

/// Why a ring of `capacity` bytes cannot be laid out, if so.
pub open spec fn ring_config_error(capacity: usize) -> Option<ConfigError> {
    if capacity < MIN_RING_CAPACITY {
        Some(ConfigError::RingTooSmall { minimum: MIN_RING_CAPACITY, actual: capacity })
    } else if capacity > u32::MAX {
        Some(ConfigError::RingTooLarge { maximum: u32::MAX as usize, actual: capacity })
    } else if ring_size(capacity as int) > isize::MAX {
        Some(ConfigError::LayoutOverflow)
    } else {
        None
    }
}

/// Why a region cannot be laid out, if so.
pub open spec fn config_error(
    slot_count: u32,
    backend_to_worker_cap: usize,
    worker_to_backend_cap: usize,
) -> Option<ConfigError> {
    if ring_config_error(backend_to_worker_cap) is Some {
        ring_config_error(backend_to_worker_cap)
    } else if ring_config_error(worker_to_backend_cap) is Some {
        ring_config_error(worker_to_backend_cap)
    } else if region_size_of(
        slot_count as int,
        backend_to_worker_cap as int,
        worker_to_backend_cap as int,
    ) > isize::MAX {
        Some(ConfigError::LayoutOverflow)
    } else {
        None
    }
}

/// The layout that a region of this shape has.
pub open spec fn layout_of(
    slot_count: u32,
    backend_to_worker_cap: usize,
    worker_to_backend_cap: usize,
) -> TransportRegionLayout {
    TransportRegionLayout {
        size: region_size_of(
            slot_count as int,
            backend_to_worker_cap as int,
            worker_to_backend_cap as int,
        ) as usize,
        align: REGION_ALIGN,
        slot_count,
        backend_to_worker_cap,
        worker_to_backend_cap,
    }
}

/// Offsets inside a region.
#[derive(Clone, Copy, Debug, PartialEq, Eq, Structural)]
pub struct ComputedLayout {
    pub size: usize,
    pub freelist_offset: usize,
    pub slots_offset: usize,
    pub slot_stride: usize,
    pub backend_to_worker_layout: FramedRingLayout,
    pub worker_to_backend_layout: FramedRingLayout,
}

/// Computes the offsets of a region with checked arithmetic.
pub fn compute_layout(
    slot_count: u32,
    backend_to_worker_cap: usize,
    worker_to_backend_cap: usize,
) -> (r: Result<ComputedLayout, ConfigError>)
    requires
        slot_count != 0,
    ensures
        r matches Err(e) ==> config_error(slot_count, backend_to_worker_cap, worker_to_backend_cap)
            == Some(e),
        r matches Ok(l) ==> {
            &&& config_error(slot_count, backend_to_worker_cap, worker_to_backend_cap) is None
            &&& l.size == region_size_of(
                slot_count as int,
                backend_to_worker_cap as int,
                worker_to_backend_cap as int,
            )
            &&& l.freelist_offset == FREELIST_OFFSET
            &&& l.slots_offset == slots_offset_of(slot_count as int)
            &&& l.slot_stride == slot_stride_of(
                backend_to_worker_cap as int,
                worker_to_backend_cap as int,
            )
            &&& l.backend_to_worker_layout.data_len == backend_to_worker_cap
            &&& l.worker_to_backend_layout.data_len == worker_to_backend_cap
        },
{
    let backend_to_worker_layout: FramedRingLayout = match framed_ring_layout(
        backend_to_worker_cap,
    ) {
        Ok(l) => l,
        Err(e) => {
            return Err(e);
        },
    };
    let worker_to_backend_layout: FramedRingLayout = match framed_ring_layout(
        worker_to_backend_cap,
    ) {
        Ok(l) => l,
        Err(e) => {
            return Err(e);
        },
    };
    let slots_offset: u128 = (FREELIST_OFFSET as u128 + 8 + 4 * slot_count as u128 + 7) / 8 * 8;
    let slot_stride: u128 = (SLOT_CELL_BYTES as u128 + backend_to_worker_layout.size as u128
        + worker_to_backend_layout.size as u128 + 7) / 8 * 8;
    proof {
        assert(slot_count * slot_stride <= 0x1_0000_0000 * 0x4_0000_0000) by (nonlinear_arith)
            requires
                0 <= slot_count <= 0xFFFF_FFFF,
                0 <= slot_stride <= 0x4_0000_0000,
        ;
        assert(slot_stride <= slot_count * slot_stride) by (nonlinear_arith)
            requires
                1 <= slot_count,
                0 <= slot_stride,
        ;
    }
    let size: u128 = slots_offset + slot_count as u128 * slot_stride;
    if size > isize::MAX as u128 {
        return Err(ConfigError::LayoutOverflow);
    }
    Ok(
        ComputedLayout {
            size: size as usize,
            freelist_offset: FREELIST_OFFSET,
            slots_offset: slots_offset as usize,
            slot_stride: slot_stride as usize,
            backend_to_worker_layout,
            worker_to_backend_layout,
        },
    )
}

impl TransportRegionLayout {
    /// The layout is one that [`TransportRegionLayout::new`] gives.
    pub open spec fn valid(self) -> bool {
        &&& self.slot_count != 0
        &&& config_error(
            self.slot_count,
            self.backend_to_worker_cap,
            self.worker_to_backend_cap,
        ) is None
        &&& self == layout_of(
            self.slot_count,
            self.backend_to_worker_cap,
            self.worker_to_backend_cap,
        )
    }

    /// Computes the full shared-memory layout for one transport region.
    pub fn new(
        slot_count: u32,
        backend_to_worker_cap: usize,
        worker_to_backend_cap: usize,
    ) -> (r: Result<Self, ConfigError>)
        ensures
            slot_count == 0 ==> r == Err::<Self, ConfigError>(ConfigError::ZeroSlotCount),
            slot_count != 0 ==> r == match config_error(
                slot_count,
                backend_to_worker_cap,
                worker_to_backend_cap,
            ) {
                Some(e) => Err::<Self, ConfigError>(e),
                None => Ok(layout_of(slot_count, backend_to_worker_cap, worker_to_backend_cap)),
            },
    {
        if slot_count == 0 {
            return Err(ConfigError::ZeroSlotCount);
        }
        match compute_layout(slot_count, backend_to_worker_cap, worker_to_backend_cap) {
            Ok(computed) => Ok(
                TransportRegionLayout {
                    size: computed.size,
                    align: REGION_ALIGN,
                    slot_count,
                    backend_to_worker_cap,
                    worker_to_backend_cap,
                },
            ),
            Err(e) => Err(e),
        }
    }

    pub fn slot_count(self) -> (r: u32)
        ensures
            r == self.slot_count,
    {
        self.slot_count
    }

    pub fn backend_to_worker_capacity(self) -> (r: usize)
        ensures
            r == self.backend_to_worker_cap,
    {
        self.backend_to_worker_cap
    }

    pub fn worker_to_backend_capacity(self) -> (r: usize)
        ensures
            r == self.worker_to_backend_cap,
    {
        self.worker_to_backend_cap
    }
}

/// First bytes of an initialized region.
#[derive(Clone, Copy, Debug, PartialEq, Eq, Structural)]
pub struct RegionHeader {
    pub magic: u64,
    pub version: u32,
    pub slot_count: u32,
    pub backend_to_worker_cap: u32,
    pub worker_to_backend_cap: u32,
    pub region_size: u64,
}

/// The header that a region of this layout has.
pub open spec fn header_of(layout: TransportRegionLayout) -> RegionHeader {
    RegionHeader {
        magic: CONTROL_TRANSPORT_MAGIC,
        version: CONTROL_TRANSPORT_VERSION,
        slot_count: layout.slot_count,
        backend_to_worker_cap: layout.backend_to_worker_cap as u32,
        worker_to_backend_cap: layout.worker_to_backend_cap as u32,
        region_size: layout.size as u64,
    }
}

/// A mapping at address `base` is aligned for a region.
pub open spec fn region_aligned(base: usize) -> bool {
    base % REGION_ALIGN == 0
}

/// Why a fresh region of this layout cannot be set up in a mapping of `len`
/// bytes at `base` whose first word is `existing_magic`, if so.
pub open spec fn init_error(
    base: usize,
    len: usize,
    existing_magic: u64,
    layout: TransportRegionLayout,
) -> Option<InitError> {
    let config = config_error(
        layout.slot_count,
        layout.backend_to_worker_cap,
        layout.worker_to_backend_cap,
    );
    let size = region_size_of(
        layout.slot_count as int,
        layout.backend_to_worker_cap as int,
        layout.worker_to_backend_cap as int,
    );
    if config is Some {
        Some(InitError::InvalidConfig(config->0))
    } else if !region_aligned(base) {
        Some(InitError::BadAlignment { expected: REGION_ALIGN, actual: base })
    } else if len < size {
        Some(InitError::RegionTooSmall { expected: size as usize, actual: len })
    } else if existing_magic == CONTROL_TRANSPORT_MAGIC {
        Some(InitError::AlreadyInitialized)
    } else {
        None
    }
}

/// Decides whether a fresh region can be set up, and gives its header.
pub fn plan_init(base: usize, len: usize, existing_magic: u64, layout: TransportRegionLayout) -> (r:
    Result<RegionHeader, InitError>)
    requires
        layout.slot_count != 0,
    ensures
        r is Err <==> init_error(base, len, existing_magic, layout) is Some,
        r matches Err(e) ==> init_error(base, len, existing_magic, layout) == Some(e),
        r matches Ok(h) ==> h == (RegionHeader {
            region_size: region_size_of(
                layout.slot_count as int,
                layout.backend_to_worker_cap as int,
                layout.worker_to_backend_cap as int,
            ) as u64,
            ..header_of(layout)
        }),
{
    let computed: ComputedLayout = match compute_layout(
        layout.slot_count,
        layout.backend_to_worker_cap,
        layout.worker_to_backend_cap,
    ) {
        Ok(c) => c,
        Err(e) => {
            return Err(InitError::InvalidConfig(e));
        },
    };
    if base % REGION_ALIGN != 0 {
        return Err(InitError::BadAlignment { expected: REGION_ALIGN, actual: base });
    }
    if len < computed.size {
        return Err(InitError::RegionTooSmall { expected: computed.size, actual: len });
    }
    if existing_magic == CONTROL_TRANSPORT_MAGIC {
        return Err(InitError::AlreadyInitialized);
    }
    Ok(
        RegionHeader {
            magic: CONTROL_TRANSPORT_MAGIC,
            version: CONTROL_TRANSPORT_VERSION,
            slot_count: layout.slot_count,
            backend_to_worker_cap: layout.backend_to_worker_cap as u32,
            worker_to_backend_cap: layout.worker_to_backend_cap as u32,
            region_size: computed.size as u64,
        },
    )
}

/// Why a mapping of `len` bytes at `base` that starts with `header` cannot be
/// attached to, if so.
pub open spec fn attach_error(base: usize, len: usize, header: RegionHeader) -> Option<
    AttachError,
> {
    let config = config_error(
        header.slot_count,
        header.backend_to_worker_cap as usize,
        header.worker_to_backend_cap as usize,
    );
    let size = region_size_of(
        header.slot_count as int,
        header.backend_to_worker_cap as int,
        header.worker_to_backend_cap as int,
    );
    if !region_aligned(base) {
        Some(AttachError::BadAlignment { expected: REGION_ALIGN, actual: base })
    } else if len < REGION_HEADER_BYTES {
        Some(AttachError::RegionTooSmall { expected: REGION_HEADER_BYTES, actual: len })
    } else if header.magic != CONTROL_TRANSPORT_MAGIC {
        Some(AttachError::BadMagic { expected: CONTROL_TRANSPORT_MAGIC, actual: header.magic })
    } else if header.version != CONTROL_TRANSPORT_VERSION {
        Some(
            AttachError::UnsupportedVersion {
                expected: CONTROL_TRANSPORT_VERSION,
                actual: header.version,
            },
        )
    } else if header.slot_count == 0 {
        Some(AttachError::InvalidConfig(ConfigError::ZeroSlotCount))
    } else if config is Some {
        Some(AttachError::InvalidConfig(config->0))
    } else if header.region_size != size {
        Some(
            AttachError::LayoutMismatch {
                expected: size as usize,
                actual: header.region_size as usize,
            },
        )
    } else if len < size {
        Some(AttachError::RegionTooSmall { expected: size as usize, actual: len })
    } else {
        None
    }
}

/// Reads the layout of an initialized region from its header.
pub fn validate_attached_header(base: usize, len: usize, header: RegionHeader) -> (r: Result<
    TransportRegionLayout,
    AttachError,
>)
    ensures
        r is Err <==> attach_error(base, len, header) is Some,
        r matches Err(e) ==> attach_error(base, len, header) == Some(e),
        r matches Ok(l) ==> l.valid() && l == layout_of(
            header.slot_count,
            header.backend_to_worker_cap as usize,
            header.worker_to_backend_cap as usize,
        ),
{
    if base % REGION_ALIGN != 0 {
        return Err(AttachError::BadAlignment { expected: REGION_ALIGN, actual: base });
    }
    if len < REGION_HEADER_BYTES {
        return Err(AttachError::RegionTooSmall { expected: REGION_HEADER_BYTES, actual: len });
    }
    if header.magic != CONTROL_TRANSPORT_MAGIC {
        return Err(
            AttachError::BadMagic { expected: CONTROL_TRANSPORT_MAGIC, actual: header.magic },
        );
    }
    if header.version != CONTROL_TRANSPORT_VERSION {
        return Err(
            AttachError::UnsupportedVersion {
                expected: CONTROL_TRANSPORT_VERSION,
                actual: header.version,
            },
        );
    }
    let layout: TransportRegionLayout = match TransportRegionLayout::new(
        header.slot_count,
        header.backend_to_worker_cap as usize,
        header.worker_to_backend_cap as usize,
    ) {
        Ok(l) => l,
        Err(e) => {
            return Err(AttachError::InvalidConfig(e));
        },
    };
    if header.region_size != layout.size as u64 {
        return Err(
            AttachError::LayoutMismatch {
                expected: layout.size,
                actual: header.region_size as usize,
            },
        );
    }
    if len < layout.size {
        return Err(AttachError::RegionTooSmall { expected: layout.size, actual: len });
    }
    Ok(layout)
}

/// A region that was set up can be attached to: the header that goes into a
/// fresh mapping gives back the same layout.
pub proof fn law_init_then_attach(base: usize, len: usize, layout: TransportRegionLayout)
    requires
        layout.valid(),
        region_aligned(base),
        len >= layout.size,
    ensures
        attach_error(base, len, header_of(layout)) is None,
        layout_of(
            header_of(layout).slot_count,
            header_of(layout).backend_to_worker_cap as usize,
            header_of(layout).worker_to_backend_cap as usize,
        ) == layout,
{
    let stride = slot_stride_of(
        layout.backend_to_worker_cap as int,
        layout.worker_to_backend_cap as int,
    );
    assert(layout.slot_count * stride >= 0) by (nonlinear_arith)
        requires
            stride >= 0,
            layout.slot_count >= 0,
    ;
}

/// A mapping that holds a region is not set up a second time.
pub proof fn law_no_second_init(base: usize, len: usize, layout: TransportRegionLayout)
    requires
        layout.valid(),
        region_aligned(base),
        len >= layout.size,
    ensures
        init_error(base, len, header_of(layout).magic, layout) == Some(
            InitError::AlreadyInitialized,
        ),
{
}

} // verus!

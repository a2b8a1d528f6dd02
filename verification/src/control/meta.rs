//! The two packed words of the transport: the region word and the slot word.

use vstd::prelude::*;

verus! {

pub const CONTROL_TRANSPORT_MAGIC: u64 = 0x4354_5241_4E53_5031;

pub const CONTROL_TRANSPORT_VERSION: u32 = 10;

pub const LEASE_STATE_FREE_PUBLISHED: u32 = 0;

pub const LEASE_STATE_ACQUIRE_RESERVED: u32 = 1;

pub const LEASE_STATE_LEASED: u32 = 2;

pub const LEASE_STATE_FREE_PENDING: u32 = 3;

pub const LEASE_STATE_FREE_PUSH_CLAIMED: u32 = 4;

pub const LEASE_STATE_FREE_PUSHED: u32 = 5;

pub const LEASE_STATE_FREE_POPPED: u32 = 6;

pub const OWNER_BACKEND: u32 = 1;

pub const OWNER_WORKER: u32 = 2;

pub const OWNER_WORKER_PENDING: u32 = 4;

pub const OWNER_ANY_WORKER: u32 = 6;

/// Owner bits of a slot whose worker claim has not been committed yet.
pub const OWNER_CLAIM_PENDING: u32 = 5;

/// Owner bits of a slot that backend and worker share.
pub const OWNER_BOTH: u32 = 3;

pub const SLOT_META_MAX_LEASE_EPOCH: u64 = 0x03FF_FFFF_FFFF_FFFF;

pub const WORKER_STATE_OFFLINE: u32 = 0;

pub const WORKER_STATE_RESTARTING: u32 = 1;

pub const WORKER_STATE_ONLINE: u32 = 2;

pub const WORKER_STATE_REINITING: u32 = 3;

pub const REGION_META_MAX_GENERATION: u64 = 0x3FFF_FFFF_FFFF_FFFF;

/// What a slot word says: the lease state, an epoch, and the owner bits.
///
/// The epoch of a leased slot is its lease epoch; that of a free slot is the
/// epoch of the free stack that its token belongs to.
pub struct SlotWord {
    pub state: u32,
    pub epoch: u64,
    pub owners: u32,
}

/// What the region word says: the generation and the worker's state.
pub struct RegionWord {
    pub generation: u64,
    pub worker_state: u32,
}

impl SlotWord {
    /// The three parts fit their bit fields.
    pub open spec fn fits(self) -> bool {
        &&& self.state < 8
        &&& self.epoch <= SLOT_META_MAX_LEASE_EPOCH
        &&& self.owners < 8
    }

    /// The number that packs the three parts.
    pub open spec fn packed(self) -> int {
        self.epoch * 64 + self.state * 8 + self.owners
    }
}

impl RegionWord {
    /// The two parts fit their bit fields.
    pub open spec fn fits(self) -> bool {
        &&& self.generation <= REGION_META_MAX_GENERATION
        &&& self.worker_state < 4
    }

    /// The number that packs the two parts.
    pub open spec fn packed(self) -> int {
        self.generation * 4 + self.worker_state
    }

    /// The worker is online in a generation other than zero.
    pub open spec fn online(self) -> bool {
        self.generation != 0 && self.worker_state == WORKER_STATE_ONLINE
    }
}

/// The backend bit of an owner mask.
pub open spec fn backend_bit(owners: u32) -> bool {
    owners % 2 == 1
}

/// The bit of an attached worker in an owner mask.
pub open spec fn worker_bit(owners: u32) -> bool {
    owners / 2 % 2 == 1
}

/// The bit of a worker claim in progress in an owner mask.
pub open spec fn pending_bit(owners: u32) -> bool {
    owners / 4 % 2 == 1
}

/// Every owner mask is the sum of its three bits, and a mask read, cleared or
/// tested bit by bit is what arithmetic says.
pub proof fn lemma_owner_bits(owners: u32)
    requires
        owners < 8,
    ensures
        owners & OWNER_BACKEND == owners % 2,
        owners & OWNER_WORKER == 2 * (owners / 2 % 2),
        owners & OWNER_ANY_WORKER == owners - owners % 2,
        owners & !OWNER_BACKEND == owners - owners % 2,
        owners & !OWNER_WORKER == owners - 2 * (owners / 2 % 2),
        owners & !OWNER_WORKER_PENDING == owners - 4 * (owners / 4 % 2),
        owners & !OWNER_ANY_WORKER == owners % 2,
        owners == owners % 2 + 2 * (owners / 2 % 2) + 4 * (owners / 4 % 2),
{
    assert(owners & 1u32 == owners % 2 && owners & 2u32 == 2 * (owners / 2 % 2) && owners & 6u32
        == owners - owners % 2 && owners & !1u32 == owners - owners % 2 && owners & !2u32 == owners
        - 2 * (owners / 2 % 2) && owners & !4u32 == owners - 4 * (owners / 4 % 2) && owners & !6u32
        == owners % 2 && owners == owners % 2 + 2 * (owners / 2 % 2) + 4 * (owners / 4 % 2))
        by (bit_vector)
        requires
            owners < 8,
    ;
}

/// A slot's lease state, epoch and owner bits in one word.
#[derive(Clone, Copy, Debug, PartialEq, Eq, Structural)]
pub struct SlotMeta {
    pub raw: u64,
}

impl View for SlotMeta {
    type V = SlotWord;

    open spec fn view(&self) -> SlotWord {
        SlotWord {
            state: (self.raw / 8 % 8) as u32,
            epoch: self.raw / 64,
            owners: (self.raw % 8) as u32,
        }
    }
}

/// A slot word unpacks to parts that fit, and packs back to itself.
pub proof fn lemma_slot_meta_unpack(meta: SlotMeta)
    ensures
        meta@.fits(),
        meta@.packed() == meta.raw,
{
}

/// Parts that fit pack into one word, which unpacks to the same parts.
pub proof fn lemma_slot_meta_pack(word: SlotWord)
    requires
        word.fits(),
    ensures
        0 <= word.packed() <= u64::MAX,
        (SlotMeta { raw: word.packed() as u64 })@ == word,
{
    let raw = word.packed() as u64;
    assert(raw / 64 == word.epoch);
    assert(raw / 8 % 8 == word.state);
    assert(raw % 8 == word.owners);
}

/// Two slot words are the same number exactly if they say the same.
pub proof fn law_slot_meta_injective(a: SlotMeta, b: SlotMeta)
    ensures
        a.raw == b.raw <==> a@ == b@,
{
    lemma_slot_meta_unpack(a);
    lemma_slot_meta_unpack(b);
}

impl SlotMeta {
    pub fn new(lease_state: u32, lease_epoch: u64, owner_mask: u32) -> (r: Self)
        requires
            lease_state < 8,
            owner_mask < 8,
            lease_epoch <= SLOT_META_MAX_LEASE_EPOCH,
        ensures
            r@ == (SlotWord { state: lease_state, epoch: lease_epoch, owners: owner_mask }),
    {
        let state: u64 = lease_state as u64;
        let owners: u64 = owner_mask as u64;
        proof {
            assert((lease_epoch << 6) | (state << 3) | owners == lease_epoch * 64 + state * 8
                + owners) by (bit_vector)
                requires
                    lease_epoch <= 0x03FF_FFFF_FFFF_FFFF,
                    state < 8,
                    owners < 8,
            ;
            lemma_slot_meta_pack(
                SlotWord { state: lease_state, epoch: lease_epoch, owners: owner_mask },
            );
        }
        SlotMeta { raw: (lease_epoch << 6) | (state << 3) | owners }
    }

    pub fn from_raw(raw: u64) -> (r: Self)
        ensures
            r.raw == raw,
    {
        SlotMeta { raw }
    }

    pub fn raw(self) -> (r: u64)
        ensures
            r == self.raw,
    {
        self.raw
    }

    pub fn lease_state(self) -> (r: u32)
        ensures
            r == self@.state,
            r < 8,
    {
        let raw = self.raw;
        proof {
            assert((raw & 0x38) >> 3 == raw / 8 % 8) by (bit_vector);
        }
        ((raw & 0x38) >> 3) as u32
    }

    pub fn lease_epoch(self) -> (r: u64)
        ensures
            r == self@.epoch,
            r <= SLOT_META_MAX_LEASE_EPOCH,
    {
        let raw = self.raw;
        proof {
            assert(raw >> 6 == raw / 64) by (bit_vector);
        }
        raw >> 6
    }

    pub fn owner_mask(self) -> (r: u32)
        ensures
            r == self@.owners,
            r < 8,
    {
        let raw = self.raw;
        proof {
            assert(raw & 7 == raw % 8) by (bit_vector);
        }
        (raw & 7) as u32
    }

    pub fn is_leased(self) -> (r: bool)
        ensures
            r == (self@.state == LEASE_STATE_LEASED),
    {
        self.lease_state() == LEASE_STATE_LEASED
    }

    pub fn is_free_published(self) -> (r: bool)
        ensures
            r == (self@.state == LEASE_STATE_FREE_PUBLISHED),
    {
        self.lease_state() == LEASE_STATE_FREE_PUBLISHED
    }

    pub fn is_acquire_reserved(self) -> (r: bool)
        ensures
            r == (self@.state == LEASE_STATE_ACQUIRE_RESERVED),
    {
        self.lease_state() == LEASE_STATE_ACQUIRE_RESERVED
    }

    pub fn is_free_pending(self) -> (r: bool)
        ensures
            r == (self@.state == LEASE_STATE_FREE_PENDING),
    {
        self.lease_state() == LEASE_STATE_FREE_PENDING
    }

    pub fn is_free_popped(self) -> (r: bool)
        ensures
            r == (self@.state == LEASE_STATE_FREE_POPPED),
    {
        self.lease_state() == LEASE_STATE_FREE_POPPED
    }

    pub fn is_free_push_claimed(self) -> (r: bool)
        ensures
            r == (self@.state == LEASE_STATE_FREE_PUSH_CLAIMED),
    {
        self.lease_state() == LEASE_STATE_FREE_PUSH_CLAIMED
    }

    pub fn is_free_pushed(self) -> (r: bool)
        ensures
            r == (self@.state == LEASE_STATE_FREE_PUSHED),
    {
        self.lease_state() == LEASE_STATE_FREE_PUSHED
    }

    pub fn is_current_epoch_published(self, freelist_epoch: u64) -> (r: bool)
        ensures
            r == self@.published_in(freelist_epoch),
    {
        self.is_free_published() && self.lease_epoch() == freelist_epoch
    }

    pub fn is_republishable_after_reinit(self, freelist_epoch: u64) -> (r: bool)
        ensures
            r == self@.republishable(freelist_epoch),
    {
        self.is_free_pending() || (self.is_free_published() && self.lease_epoch() != freelist_epoch)
            || (self.is_free_pushed() && self.lease_epoch() != freelist_epoch)
    }

    pub fn free_published(epoch: u64) -> (r: Self)
        requires
            epoch <= SLOT_META_MAX_LEASE_EPOCH,
        ensures
            r@ == free_word(LEASE_STATE_FREE_PUBLISHED, epoch),
    {
        SlotMeta::new(LEASE_STATE_FREE_PUBLISHED, epoch, 0)
    }

    pub fn free_popped(epoch: u64) -> (r: Self)
        requires
            epoch <= SLOT_META_MAX_LEASE_EPOCH,
        ensures
            r@ == free_word(LEASE_STATE_FREE_POPPED, epoch),
    {
        SlotMeta::new(LEASE_STATE_FREE_POPPED, epoch, 0)
    }

    pub fn free_push_claimed(epoch: u64) -> (r: Self)
        requires
            epoch <= SLOT_META_MAX_LEASE_EPOCH,
        ensures
            r@ == free_word(LEASE_STATE_FREE_PUSH_CLAIMED, epoch),
    {
        SlotMeta::new(LEASE_STATE_FREE_PUSH_CLAIMED, epoch, 0)
    }

    pub fn free_pushed(epoch: u64) -> (r: Self)
        requires
            epoch <= SLOT_META_MAX_LEASE_EPOCH,
        ensures
            r@ == free_word(LEASE_STATE_FREE_PUSHED, epoch),
    {
        SlotMeta::new(LEASE_STATE_FREE_PUSHED, epoch, 0)
    }

    pub fn free_pending() -> (r: Self)
        ensures
            r@ == free_word(LEASE_STATE_FREE_PENDING, 0),
    {
        SlotMeta::new(LEASE_STATE_FREE_PENDING, 0, 0)
    }

    pub fn acquire_reserved() -> (r: Self)
        ensures
            r@ == free_word(LEASE_STATE_ACQUIRE_RESERVED, 0),
    {
        SlotMeta::new(LEASE_STATE_ACQUIRE_RESERVED, 0, 0)
    }

    pub fn is_ownerless(self) -> (r: bool)
        ensures
            r == (self@.owners == 0),
    {
        self.owner_mask() == 0
    }

    pub fn has_backend_owner(self) -> (r: bool)
        ensures
            r == backend_bit(self@.owners),
    {
        let owners: u32 = self.owner_mask();
        proof {
            lemma_owner_bits(owners);
        }
        owners & OWNER_BACKEND != 0
    }

    pub fn has_worker_owner(self) -> (r: bool)
        ensures
            r == worker_bit(self@.owners),
    {
        let owners: u32 = self.owner_mask();
        proof {
            lemma_owner_bits(owners);
        }
        owners & OWNER_WORKER != 0
    }

    pub fn has_any_worker_owner(self) -> (r: bool)
        ensures
            r == (worker_bit(self@.owners) || pending_bit(self@.owners)),
    {
        let owners: u32 = self.owner_mask();
        proof {
            lemma_owner_bits(owners);
        }
        owners & OWNER_ANY_WORKER != 0
    }

    pub fn with_owner_mask(self, owner_mask: u32) -> (r: Self)
        requires
            owner_mask < 8,
        ensures
            r@ == (SlotWord { owners: owner_mask, ..self@ }),
    {
        SlotMeta::new(self.lease_state(), self.lease_epoch(), owner_mask)
    }
}

impl SlotWord {
    /// The slot's token stands on the free stack of `freelist_epoch`.
    pub open spec fn published_in(self, freelist_epoch: u64) -> bool {
        self.state == LEASE_STATE_FREE_PUBLISHED && self.epoch == freelist_epoch
    }

    /// The slot is free and settled, without a token on the free stack of
    /// `freelist_epoch`.
    pub open spec fn republishable(self, freelist_epoch: u64) -> bool {
        ||| self.state == LEASE_STATE_FREE_PENDING
        ||| self.state == LEASE_STATE_FREE_PUBLISHED && self.epoch != freelist_epoch
        ||| self.state == LEASE_STATE_FREE_PUSHED && self.epoch != freelist_epoch
    }
}

/// The word of a slot that nobody owns.
pub open spec fn free_word(state: u32, epoch: u64) -> SlotWord {
    SlotWord { state, epoch, owners: 0 }
}

/// The word of a leased slot.
pub open spec fn leased_word(epoch: u64, owners: u32) -> SlotWord {
    SlotWord { state: LEASE_STATE_LEASED, epoch, owners }
}

/// The region's generation and the worker's state in one word.
#[derive(Clone, Copy, Debug, PartialEq, Eq, Structural)]
pub struct RegionMeta {
    pub raw: u64,
}

impl View for RegionMeta {
    type V = RegionWord;

    open spec fn view(&self) -> RegionWord {
        RegionWord { generation: self.raw / 4, worker_state: (self.raw % 4) as u32 }
    }
}

/// A region word unpacks to parts that fit, and packs back to itself.
pub proof fn lemma_region_meta_unpack(meta: RegionMeta)
    ensures
        meta@.fits(),
        meta@.packed() == meta.raw,
{
}

/// Parts that fit pack into one word, which unpacks to the same parts.
pub proof fn lemma_region_meta_pack(word: RegionWord)
    requires
        word.fits(),
    ensures
        0 <= word.packed() <= u64::MAX,
        (RegionMeta { raw: word.packed() as u64 })@ == word,
{
    let raw = word.packed() as u64;
    assert(raw / 4 == word.generation);
    assert(raw % 4 == word.worker_state);
}

impl RegionMeta {
    pub fn new(generation: u64, worker_state: u32) -> (r: Self)
        requires
            generation <= REGION_META_MAX_GENERATION,
            worker_state < 4,
        ensures
            r@ == (RegionWord { generation, worker_state }),
    {
        let state: u64 = worker_state as u64;
        proof {
            assert((generation << 2) | state == generation * 4 + state) by (bit_vector)
                requires
                    generation <= 0x3FFF_FFFF_FFFF_FFFF,
                    state < 4,
            ;
            lemma_region_meta_pack(RegionWord { generation, worker_state });
        }
        RegionMeta { raw: (generation << 2) | state }
    }

    pub fn from_raw(raw: u64) -> (r: Self)
        ensures
            r.raw == raw,
    {
        RegionMeta { raw }
    }

    pub fn raw(self) -> (r: u64)
        ensures
            r == self.raw,
    {
        self.raw
    }

    pub fn generation(self) -> (r: u64)
        ensures
            r == self@.generation,
            r <= REGION_META_MAX_GENERATION,
    {
        let raw = self.raw;
        proof {
            assert(raw >> 2 == raw / 4) by (bit_vector);
        }
        raw >> 2
    }

    pub fn worker_state(self) -> (r: u32)
        ensures
            r == self@.worker_state,
            r < 4,
    {
        let raw = self.raw;
        proof {
            assert(raw & 3 == raw % 4) by (bit_vector);
        }
        (raw & 3) as u32
    }

    pub fn is_online_generation(self, generation: u64) -> (r: bool)
        ensures
            r == (self@.online() && self@.generation == generation),
    {
        generation != 0 && self.generation() == generation && self.worker_state()
            == WORKER_STATE_ONLINE
    }

    pub fn is_reiniting(self) -> (r: bool)
        ensures
            r == (self@.worker_state == WORKER_STATE_REINITING),
    {
        self.worker_state() == WORKER_STATE_REINITING
    }
}

/// The worker generation and lease epoch that one lease of a slot was given.
#[derive(Clone, Copy, Debug, PartialEq, Eq, Structural)]
pub struct LeaseIncarnation {
    pub generation: u64,
    pub lease_epoch: u64,
}

impl LeaseIncarnation {
    pub fn new(generation: u64, lease_epoch: u64) -> (r: Self)
        ensures
            r.generation == generation,
            r.lease_epoch == lease_epoch,
    {
        LeaseIncarnation { generation, lease_epoch }
    }

    /// The value that stands for no lease.
    pub fn free() -> (r: Self)
        ensures
            r == no_incarnation(),
    {
        LeaseIncarnation { generation: 0, lease_epoch: 0 }
    }

    pub fn is_free(self) -> (r: bool)
        ensures
            r == (self == no_incarnation()),
    {
        self.generation == 0 && self.lease_epoch == 0
    }
}

/// The incarnation that stands for no lease.
pub open spec fn no_incarnation() -> LeaseIncarnation {
    LeaseIncarnation { generation: 0, lease_epoch: 0 }
}

} // verus!

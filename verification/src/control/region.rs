//! The shared state of the transport and its single-cell operations.
//!
//! [`RegionState`] is what the region holds. Every operation of the transport
//! is a function from one such state to the next; the methods of
//! [`TransportRegion`] carry them out.

use super::error::{AttachError, InitError, SlotAccessError};
use super::layout::{
    attach_error, header_of, init_error, layout_of, plan_init, validate_attached_header,
    RegionHeader, TransportRegionLayout,
};
use super::meta::{
    free_word, LeaseIncarnation, RegionMeta, RegionWord, SlotMeta, SlotWord,
    LEASE_STATE_FREE_PUBLISHED, LEASE_STATE_LEASED, REGION_META_MAX_GENERATION,
    SLOT_META_MAX_LEASE_EPOCH, WORKER_STATE_OFFLINE,
};
use super::ring::{FramedRing, RingState};
use vstd::prelude::*;

verus! {

/// What one slot holds.
#[verifier::ext_equal]
pub struct SlotState {
    pub generation: u64,
    pub meta: SlotWord,
    pub backend_pid: i32,
    pub to_worker: RingState,
    pub to_backend: RingState,
    pub to_worker_ready: bool,
    pub to_backend_ready: bool,
}

impl SlotState {
    /// The slot is leased under this incarnation.
    pub open spec fn leased_as(self, incarnation: LeaseIncarnation) -> bool {
        &&& self.meta.state == LEASE_STATE_LEASED
        &&& self.generation == incarnation.generation
        &&& self.meta.epoch == incarnation.lease_epoch
    }

    /// The slot without queued bytes, ready flags or a backend.
    pub open spec fn cleared(self) -> SlotState {
        SlotState {
            backend_pid: 0,
            to_worker: RingState { head: self.to_worker.tail, ..self.to_worker },
            to_backend: RingState { head: self.to_backend.tail, ..self.to_backend },
            to_worker_ready: false,
            to_backend_ready: false,
            ..self
        }
    }

    /// The rings have the capacities of the layout, and the slot word fits.
    pub open spec fn shaped(self, layout: TransportRegionLayout) -> bool {
        &&& self.meta.fits()
        &&& self.to_worker.sized()
        &&& self.to_worker.in_range()
        &&& self.to_worker.capacity() == layout.backend_to_worker_cap
        &&& self.to_backend.sized()
        &&& self.to_backend.in_range()
        &&& self.to_backend.capacity() == layout.worker_to_backend_cap
    }
}

/// What the region holds.
#[verifier::ext_equal]
pub struct RegionState {
    pub header: RegionHeader,
    pub layout: TransportRegionLayout,
    pub key: usize,
    pub meta: RegionWord,
    pub next_lease_epoch: u64,
    pub freelist_epoch: u64,
    pub worker_pid: i32,
    /// Tokens on the free stack; the last one is on top.
    pub freelist: Seq<u32>,
    pub slots: Seq<SlotState>,
}

impl RegionState {
    /// Every part has the size that the layout gives, and every word fits.
    pub open spec fn shaped(self) -> bool {
        &&& self.layout.valid()
        &&& self.header == header_of(self.layout)
        &&& self.meta.fits()
        &&& self.slots.len() == self.layout.slot_count
        &&& 1 <= self.next_lease_epoch <= SLOT_META_MAX_LEASE_EPOCH
        &&& self.freelist_epoch <= SLOT_META_MAX_LEASE_EPOCH
        &&& forall|i: int|
            0 <= i < self.slots.len() ==> (#[trigger] self.slots[i]).shaped(self.layout)
        &&& forall|i: int|
            0 <= i < self.freelist.len() ==> (#[trigger] self.freelist[i]) < self.slots.len()
    }

    /// `id` names a slot.
    pub open spec fn has_slot(self, id: u32) -> bool {
        id < self.slots.len()
    }

    pub open spec fn with_slot(self, id: int, slot: SlotState) -> RegionState {
        RegionState { slots: self.slots.update(id, slot), ..self }
    }

    pub open spec fn with_meta(self, id: int, meta: SlotWord) -> RegionState {
        self.with_slot(id, SlotState { meta, ..self.slots[id] })
    }

    pub open spec fn with_backend_pid(self, id: int, backend_pid: i32) -> RegionState {
        self.with_slot(id, SlotState { backend_pid, ..self.slots[id] })
    }

    pub open spec fn with_generation(self, id: int, generation: u64) -> RegionState {
        self.with_slot(id, SlotState { generation, ..self.slots[id] })
    }

    /// The region after the slot's rings, flags and backend were cleared.
    pub open spec fn with_cleared(self, id: int) -> RegionState {
        self.with_slot(id, self.slots[id].cleared())
    }

    /// The region after a slot was emptied and given the word of a free slot
    /// that has no token yet.
    pub open spec fn with_emptied(self, id: int) -> RegionState {
        self.with_slot(
            id,
            SlotState {
                generation: 0,
                meta: free_word(super::meta::LEASE_STATE_FREE_PENDING, 0),
                ..self.slots[id].cleared()
            },
        )
    }

    /// The region after a token was pushed.
    pub open spec fn with_token(self, id: u32) -> RegionState {
        RegionState { freelist: self.freelist.push(id), ..self }
    }

    /// The region without the token on top.
    pub open spec fn without_top(self) -> RegionState {
        RegionState { freelist: self.freelist.drop_last(), ..self }
    }

    pub open spec fn with_region_meta(self, generation: u64, worker_state: u32) -> RegionState {
        RegionState { meta: RegionWord { generation, worker_state }, ..self }
    }

    pub open spec fn with_worker_pid(self, worker_pid: i32) -> RegionState {
        RegionState { worker_pid, ..self }
    }

    /// The worker is online in `generation`.
    pub open spec fn online_in(self, generation: u64) -> bool {
        self.meta.online() && self.meta.generation == generation
    }
}

/// A slot that was never leased.
pub open spec fn fresh_slot(layout: TransportRegionLayout, freelist_epoch: u64) -> SlotState {
    SlotState {
        generation: 0,
        meta: free_word(LEASE_STATE_FREE_PUBLISHED, freelist_epoch),
        backend_pid: 0,
        to_worker: RingState {
            head: 0,
            tail: 0,
            bytes: Seq::new(layout.backend_to_worker_cap as nat, |i: int| 0u8),
        },
        to_backend: RingState {
            head: 0,
            tail: 0,
            bytes: Seq::new(layout.worker_to_backend_cap as nat, |i: int| 0u8),
        },
        to_worker_ready: false,
        to_backend_ready: false,
    }
}

/// A region right after it was set up: offline, with every slot free.
pub open spec fn fresh_region(layout: TransportRegionLayout, key: usize) -> RegionState {
    RegionState {
        header: header_of(layout),
        layout,
        key,
        meta: RegionWord { generation: 0, worker_state: WORKER_STATE_OFFLINE },
        next_lease_epoch: 1,
        freelist_epoch: 1,
        worker_pid: 0,
        freelist: Seq::new(
            layout.slot_count as nat,
            |i: int| (layout.slot_count - 1 - i) as u32,
        ),
        slots: Seq::new(layout.slot_count as nat, |i: int| fresh_slot(layout, 1)),
    }
}

/// One slot.
#[derive(Debug)]
pub struct RegionSlot {
    generation: u64,
    meta: SlotMeta,
    backend_pid: i32,
    to_worker: FramedRing,
    to_backend: FramedRing,
    to_worker_ready: bool,
    to_backend_ready: bool,
}

impl View for RegionSlot {
    type V = SlotState;

    closed spec fn view(&self) -> SlotState {
        SlotState {
            generation: self.generation,
            meta: self.meta@,
            backend_pid: self.backend_pid,
            to_worker: self.to_worker@,
            to_backend: self.to_backend@,
            to_worker_ready: self.to_worker_ready,
            to_backend_ready: self.to_backend_ready,
        }
    }
}

/// Generation and worker state at one moment.
#[derive(Clone, Copy, Debug, PartialEq, Eq, Structural)]
pub struct RegionSnapshot {
    pub generation: u64,
    pub worker_state: u32,
}

impl RegionSnapshot {
    pub open spec fn word(self) -> RegionWord {
        RegionWord { generation: self.generation, worker_state: self.worker_state }
    }

    pub fn is_online(self) -> (r: bool)
        ensures
            r == self.word().online(),
    {
        self.generation != 0 && self.worker_state == super::meta::WORKER_STATE_ONLINE
    }
}

/// The lease cells of one slot at one moment.
#[derive(Clone, Copy, Debug, PartialEq, Eq, Structural)]
pub struct SlotSnapshot {
    pub slot_generation: u64,
    pub slot_meta: SlotMeta,
    pub backend_pid: i32,
}

impl SlotSnapshot {
    /// The snapshot shows the cells of this slot.
    pub open spec fn shows(self, slot: SlotState) -> bool {
        &&& self.slot_generation == slot.generation
        &&& self.slot_meta@ == slot.meta
        &&& self.backend_pid == slot.backend_pid
    }

    pub fn matches_incarnation(self, incarnation: LeaseIncarnation) -> (r: bool)
        ensures
            r == (self.slot_generation == incarnation.generation && self.slot_meta@.epoch
                == incarnation.lease_epoch),
    {
        self.slot_generation == incarnation.generation && self.slot_meta.lease_epoch()
            == incarnation.lease_epoch
    }
}

/// The transport region.
#[derive(Debug)]
pub struct TransportRegion {
    header: RegionHeader,
    layout: TransportRegionLayout,
    key: usize,
    meta: RegionMeta,
    next_lease_epoch: u64,
    freelist_epoch: u64,
    worker_pid: i32,
    freelist: Vec<u32>,
    slots: Vec<RegionSlot>,
}

impl View for TransportRegion {
    type V = RegionState;

    closed spec fn view(&self) -> RegionState {
        RegionState {
            header: self.header,
            layout: self.layout,
            key: self.key,
            meta: self.meta@,
            next_lease_epoch: self.next_lease_epoch,
            freelist_epoch: self.freelist_epoch,
            worker_pid: self.worker_pid,
            freelist: self.freelist@,
            slots: Seq::new(self.slots@.len(), |i: int| self.slots@[i]@),
        }
    }
}

/// A slot's shape survives every change that keeps its rings.
proof fn lemma_with_slot_shaped(v: RegionState, id: int, slot: SlotState)
    requires
        v.shaped(),
        0 <= id < v.slots.len(),
        slot.shaped(v.layout),
    ensures
        v.with_slot(id, slot).shaped(),
{
    let w = v.with_slot(id, slot);
    assert forall|i: int| 0 <= i < w.slots.len() implies (#[trigger] w.slots[i]).shaped(
        w.layout,
    ) by {
        if i != id {
            assert(w.slots[i] == v.slots[i]);
        }
    }
}

impl TransportRegion {
    /// Sets up a fresh region in a mapping of `len` bytes at `base`.
    /// `existing_magic` is the word that the mapping starts with.
    pub fn init_in_place(
        base: usize,
        len: usize,
        existing_magic: u64,
        layout: TransportRegionLayout,
    ) -> (r: Result<Self, InitError>)
        requires
            layout.valid(),
        ensures
            r is Err <==> init_error(base, len, existing_magic, layout) is Some,
            r matches Err(e) ==> init_error(base, len, existing_magic, layout) == Some(e),
            r matches Ok(region) ==> region@ == fresh_region(layout, base) && region@.shaped(),
    {
        let header: RegionHeader = match plan_init(base, len, existing_magic, layout) {
            Ok(h) => h,
            Err(e) => {
                return Err(e);
            },
        };
        let slot_count: u32 = layout.slot_count;
        let mut freelist: Vec<u32> = Vec::new();
        let mut slots: Vec<RegionSlot> = Vec::new();
        let mut i: u32 = 0;
        while i < slot_count
            invariant
                i <= slot_count,
                slot_count == layout.slot_count,
                freelist@.len() == i,
                slots@.len() == i,
                forall|j: int| 0 <= j < i ==> freelist@[j] == slot_count - 1 - j,
                forall|j: int| 0 <= j < i ==> (#[trigger] slots@[j])@ == fresh_slot(layout, 1),
            decreases slot_count - i,
        {
            freelist.push(slot_count - 1 - i);
            let slot = RegionSlot {
                generation: 0,
                meta: SlotMeta::free_published(1),
                backend_pid: 0,
                to_worker: FramedRing::init_empty(layout.backend_to_worker_cap),
                to_backend: FramedRing::init_empty(layout.worker_to_backend_cap),
                to_worker_ready: false,
                to_backend_ready: false,
            };
            assert(slot@ =~= fresh_slot(layout, 1));
            slots.push(slot);
            i = i + 1;
        }
        let region = TransportRegion {
            header,
            layout,
            key: base,
            meta: RegionMeta::new(0, WORKER_STATE_OFFLINE),
            next_lease_epoch: 1,
            freelist_epoch: 1,
            worker_pid: 0,
            freelist,
            slots,
        };
        assert(region@ =~= fresh_region(layout, base));
        proof {
            lemma_fresh_region_shaped(layout, base);
        }
        Ok(region)
    }

    /// Checks the header of this region's memory, mapped with `len` bytes at
    /// `base`, and gives its layout.
    pub fn attach(&self, base: usize, len: usize) -> (r: Result<
        TransportRegionLayout,
        AttachError,
    >)
        ensures
            r is Err <==> attach_error(base, len, self@.header) is Some,
            r matches Err(e) ==> attach_error(base, len, self@.header) == Some(e),
            r matches Ok(l) ==> l.valid() && l == layout_of(
                self@.header.slot_count,
                self@.header.backend_to_worker_cap as usize,
                self@.header.worker_to_backend_cap as usize,
            ),
    {
        validate_attached_header(base, len, self.header)
    }

    pub fn layout(&self) -> (r: TransportRegionLayout)
        ensures
            r == self@.layout,
    {
        self.layout
    }

    pub fn slot_count(&self) -> (r: u32)
        ensures
            r == self@.layout.slot_count,
    {
        self.layout.slot_count
    }

    pub fn backend_to_worker_capacity(&self) -> (r: usize)
        ensures
            r == self@.layout.backend_to_worker_cap,
    {
        self.layout.backend_to_worker_cap
    }

    pub fn worker_to_backend_capacity(&self) -> (r: usize)
        ensures
            r == self@.layout.worker_to_backend_cap,
    {
        self.layout.worker_to_backend_cap
    }

    pub fn region_generation(&self) -> (r: u64)
        ensures
            r == self@.meta.generation,
    {
        self.load_region_meta().generation()
    }

    /// Address by which this process knows the region.
    pub fn region_key(&self) -> (r: usize)
        ensures
            r == self@.key,
    {
        self.key
    }

    pub fn load_region_meta(&self) -> (r: RegionMeta)
        ensures
            r@ == self@.meta,
    {
        self.meta
    }

    pub fn load_region_snapshot(&self) -> (r: RegionSnapshot)
        ensures
            r.word() == self@.meta,
    {
        RegionSnapshot {
            generation: self.meta.generation(),
            worker_state: self.meta.worker_state(),
        }
    }

    pub fn load_slot_snapshot(&self, slot_id: u32) -> (r: SlotSnapshot)
        requires
            self@.has_slot(slot_id),
        ensures
            r.shows(self@.slots[slot_id as int]),
    {
        let slot: &RegionSlot = &self.slots[slot_id as usize];
        assert(slot@ == self@.slots[slot_id as int]);
        SlotSnapshot {
            slot_generation: slot.generation,
            slot_meta: slot.meta,
            backend_pid: slot.backend_pid,
        }
    }

    pub fn load_freelist_epoch(&self) -> (r: u64)
        ensures
            r == self@.freelist_epoch,
    {
        self.freelist_epoch
    }

    /// The lease epoch that the next lease gets.
    pub fn load_next_lease_epoch(&self) -> (r: u64)
        ensures
            r == self@.next_lease_epoch,
    {
        self.next_lease_epoch
    }

    pub fn load_worker_pid(&self) -> (r: i32)
        ensures
            r == self@.worker_pid,
    {
        self.worker_pid
    }

    /// Gives the slot id back if it names a slot.
    pub fn slot_view(&self, slot_id: u32) -> (r: Result<u32, SlotAccessError>)
        ensures
            r == if slot_id < self@.layout.slot_count {
                Ok::<u32, SlotAccessError>(slot_id)
            } else {
                Err(
                    SlotAccessError::BadSlotId { slot_id, slot_count: self@.layout.slot_count },
                )
            },
    {
        if slot_id >= self.layout.slot_count {
            return Err(
                SlotAccessError::BadSlotId { slot_id, slot_count: self.layout.slot_count },
            );
        }
        Ok(slot_id)
    }

    /// Traffic for the worker is announced or queued in the slot.
    pub fn has_worker_traffic(&self, slot_id: u32) -> (r: bool)
        requires
            self@.shaped(),
            self@.has_slot(slot_id),
        ensures
            r == (self@.slots[slot_id as int].to_worker_ready || super::ring::pending_frame(
                self@.slots[slot_id as int].to_worker,
            )),
    {
        let slot: &RegionSlot = &self.slots[slot_id as usize];
        assert(slot@ == self@.slots[slot_id as int]);
        assert(self@.slots[slot_id as int].shaped(self@.layout));
        slot.to_worker_ready || slot.to_worker.has_pending_frame()
    }

    /// One store to the generation word.
    pub fn store_region_meta(&mut self, meta: RegionMeta)
        requires
            old(self)@.shaped(),
        ensures
            final(self)@ == old(self)@.with_region_meta(meta@.generation, meta@.worker_state),
            final(self)@.shaped(),
    {
        self.meta = meta;
        assert(self@ =~= old(self)@.with_region_meta(meta@.generation, meta@.worker_state));
        assert(self@.slots =~= old(self)@.slots);
        proof {
            super::meta::lemma_region_meta_unpack(meta);
        }
    }

    pub(crate) fn store_worker_pid(&mut self, pid: i32)
        requires
            old(self)@.shaped(),
        ensures
            final(self)@ == old(self)@.with_worker_pid(pid),
            final(self)@.shaped(),
    {
        self.worker_pid = pid;
        assert(self@ =~= old(self)@.with_worker_pid(pid));
        assert(self@.slots =~= old(self)@.slots);
    }

    /// One store to a slot's word.
    pub fn store_slot_meta(&mut self, slot_id: u32, meta: SlotMeta)
        requires
            old(self)@.shaped(),
            old(self)@.has_slot(slot_id),
        ensures
            final(self)@ == old(self)@.with_meta(slot_id as int, meta@),
            final(self)@.shaped(),
    {
        let slot = &mut self.slots[slot_id as usize];
        slot.meta = meta;
        assert(self@ =~= old(self)@.with_meta(slot_id as int, meta@));
        proof {
            super::meta::lemma_slot_meta_unpack(meta);
            assert(old(self)@.slots[slot_id as int].shaped(old(self)@.layout));
            lemma_with_slot_shaped(
                old(self)@,
                slot_id as int,
                SlotState { meta: meta@, ..old(self)@.slots[slot_id as int] },
            );
        }
    }

    /// One store to the process id of a slot's backend.
    pub fn store_backend_pid(&mut self, slot_id: u32, pid: i32)
        requires
            old(self)@.shaped(),
            old(self)@.has_slot(slot_id),
        ensures
            final(self)@ == old(self)@.with_backend_pid(slot_id as int, pid),
            final(self)@.shaped(),
    {
        let slot = &mut self.slots[slot_id as usize];
        slot.backend_pid = pid;
        assert(self@ =~= old(self)@.with_backend_pid(slot_id as int, pid));
        proof {
            assert(old(self)@.slots[slot_id as int].shaped(old(self)@.layout));
            lemma_with_slot_shaped(
                old(self)@,
                slot_id as int,
                SlotState { backend_pid: pid, ..old(self)@.slots[slot_id as int] },
            );
        }
    }

    /// One store to a slot's generation.
    pub fn store_slot_generation(&mut self, slot_id: u32, generation: u64)
        requires
            old(self)@.shaped(),
            old(self)@.has_slot(slot_id),
        ensures
            final(self)@ == old(self)@.with_generation(slot_id as int, generation),
            final(self)@.shaped(),
    {
        let slot = &mut self.slots[slot_id as usize];
        slot.generation = generation;
        assert(self@ =~= old(self)@.with_generation(slot_id as int, generation));
        proof {
            assert(old(self)@.slots[slot_id as int].shaped(old(self)@.layout));
            lemma_with_slot_shaped(
                old(self)@,
                slot_id as int,
                SlotState { generation, ..old(self)@.slots[slot_id as int] },
            );
        }
    }

    /// Drops what the slot's rings hold, lowers its flags and forgets its backend.
    pub fn clear_slot(&mut self, slot_id: u32)
        requires
            old(self)@.shaped(),
            old(self)@.has_slot(slot_id),
        ensures
            final(self)@ == old(self)@.with_cleared(slot_id as int),
            final(self)@.shaped(),
    {
        let slot = &mut self.slots[slot_id as usize];
        slot.to_worker.clear();
        slot.to_backend.clear();
        slot.to_worker_ready = false;
        slot.to_backend_ready = false;
        slot.backend_pid = 0;
        assert(self@ =~= old(self)@.with_cleared(slot_id as int));
        proof {
            assert(old(self)@.slots[slot_id as int].shaped(old(self)@.layout));
            lemma_with_slot_shaped(
                old(self)@,
                slot_id as int,
                old(self)@.slots[slot_id as int].cleared(),
            );
        }
    }

    /// Takes a slot out of use: its word says that it is free and waits for a
    /// token, and nothing is left in it.
    pub(crate) fn empty_slot(&mut self, slot_id: u32)
        requires
            old(self)@.shaped(),
            old(self)@.has_slot(slot_id),
        ensures
            final(self)@ == old(self)@.with_emptied(slot_id as int),
            final(self)@.shaped(),
    {
        self.store_slot_meta(slot_id, SlotMeta::free_pending());
        self.clear_slot(slot_id);
        self.store_slot_generation(slot_id, 0);
        assert(self@ =~= old(self)@.with_emptied(slot_id as int));
    }

    /// Takes the token on top of the free stack.
    pub(crate) fn acquire_slot(&mut self) -> (r: Option<u32>)
        requires
            old(self)@.shaped(),
        ensures
            r is None <==> old(self)@.freelist.len() == 0,
            r is None ==> final(self)@ == old(self)@,
            r matches Some(id) ==> id == old(self)@.freelist.last() && final(self)@ == old(
                self,
            )@.without_top() && old(self)@.has_slot(id),
            final(self)@.shaped(),
    {
        let r: Option<u32> = self.freelist.pop();
        proof {
            assert(self@.slots =~= old(self)@.slots);
            if r is Some {
                assert(self@ =~= old(self)@.without_top());
                assert(old(self)@.freelist[old(self)@.freelist.len() - 1] < old(self)@.slots.len());
            } else {
                assert(self@ =~= old(self)@);
            }
        }
        r
    }

    /// Puts a token on top of the free stack.
    pub(crate) fn release_slot(&mut self, slot_id: u32)
        requires
            old(self)@.shaped(),
            old(self)@.has_slot(slot_id),
        ensures
            final(self)@ == old(self)@.with_token(slot_id),
            final(self)@.shaped(),
    {
        self.freelist.push(slot_id);
        assert(self@ =~= old(self)@.with_token(slot_id));
        assert(self@.slots =~= old(self)@.slots);
    }

    /// Takes every token off the free stack.
    pub(crate) fn reset_freelist_empty(&mut self)
        requires
            old(self)@.shaped(),
        ensures
            final(self)@ == (RegionState { freelist: Seq::empty(), ..old(self)@ }),
            final(self)@.shaped(),
    {
        self.freelist.clear();
        assert(self@ =~= RegionState { freelist: Seq::empty(), ..old(self)@ });
        assert(self@.slots =~= old(self)@.slots);
    }

    /// Hands out the next lease epoch.
    pub(crate) fn allocate_lease_epoch(&mut self) -> (r: u64)
        requires
            old(self)@.shaped(),
            old(self)@.next_lease_epoch < SLOT_META_MAX_LEASE_EPOCH,
        ensures
            r == old(self)@.next_lease_epoch,
            final(self)@ == (RegionState {
                next_lease_epoch: (old(self)@.next_lease_epoch + 1) as u64,
                ..old(self)@
            }),
            final(self)@.shaped(),
    {
        let epoch: u64 = self.next_lease_epoch;
        self.next_lease_epoch = epoch + 1;
        assert(self@ =~= RegionState {
            next_lease_epoch: (old(self)@.next_lease_epoch + 1) as u64,
            ..old(self)@
        });
        assert(self@.slots =~= old(self)@.slots);
        epoch
    }

    /// Moves the free stack on to its next epoch and gives that epoch.
    pub(crate) fn rotate_freelist_epoch_for_reinit(&mut self) -> (r: u64)
        requires
            old(self)@.shaped(),
            old(self)@.freelist_epoch < SLOT_META_MAX_LEASE_EPOCH,
        ensures
            r == old(self)@.freelist_epoch + 1,
            final(self)@ == (RegionState { freelist_epoch: r, ..old(self)@ }),
            final(self)@.shaped(),
    {
        let epoch: u64 = self.freelist_epoch + 1;
        self.freelist_epoch = epoch;
        assert(self@ =~= RegionState { freelist_epoch: epoch, ..old(self)@ });
        assert(self@.slots =~= old(self)@.slots);
        epoch
    }

    /// The generation after the current one.
    pub(crate) fn next_region_generation(&self) -> (r: u64)
        requires
            self@.meta.generation < REGION_META_MAX_GENERATION,
        ensures
            r == self@.meta.generation + 1,
    {
        self.region_generation() + 1
    }

    /// Puts a frame on the ring to the worker.
    pub(crate) fn send_to_worker(
        &mut self,
        slot_id: u32,
        payload: &[u8],
        signal: Result<bool, super::error::NotifyError>,
    ) -> (r: Result<super::ring::CommitOutcome, super::error::TxError>)
        requires
            old(self)@.shaped(),
            old(self)@.has_slot(slot_id),
        ensures
            r == match old(self)@.slots[slot_id as int].to_worker.send_error(
                payload@.len() as int,
            ) {
                Some(e) => Err::<super::ring::CommitOutcome, super::error::TxError>(e),
                None => Ok(super::ring::outcome_of(signal)),
            },
            r is Err ==> final(self)@ == old(self)@,
            r is Ok ==> sent_to_worker(old(self)@, slot_id as int, payload@, final(self)@),
            final(self)@.shaped(),
    {
        let ghost before = self@;
        let slot = &mut self.slots[slot_id as usize];
        let ghost slot_before = slot@;
        assert(slot_before == before.slots[slot_id as int]);
        assert(slot_before.shaped(before.layout));
        let r = slot.to_worker.send_frame(&mut slot.to_worker_ready, payload, signal);
        proof {
            let after = self@.slots[slot_id as int];
            assert(self@.slots =~= before.slots.update(slot_id as int, after));
            assert(self@ =~= before.with_slot(slot_id as int, after));
            if r is Err {
                assert(after =~= slot_before);
                assert(self@ =~= before);
            } else {
                lemma_with_slot_shaped(before, slot_id as int, after);
            }
        }
        r
    }

    /// Puts a frame on the ring to the backend.
    pub(crate) fn send_to_backend(
        &mut self,
        slot_id: u32,
        payload: &[u8],
        signal: Result<bool, super::error::NotifyError>,
    ) -> (r: Result<super::ring::CommitOutcome, super::error::TxError>)
        requires
            old(self)@.shaped(),
            old(self)@.has_slot(slot_id),
        ensures
            r == match old(self)@.slots[slot_id as int].to_backend.send_error(
                payload@.len() as int,
            ) {
                Some(e) => Err::<super::ring::CommitOutcome, super::error::TxError>(e),
                None => Ok(super::ring::outcome_of(signal)),
            },
            r is Err ==> final(self)@ == old(self)@,
            r is Ok ==> sent_to_backend(old(self)@, slot_id as int, payload@, final(self)@),
            final(self)@.shaped(),
    {
        let ghost before = self@;
        let slot = &mut self.slots[slot_id as usize];
        let ghost slot_before = slot@;
        assert(slot_before == before.slots[slot_id as int]);
        assert(slot_before.shaped(before.layout));
        let r = slot.to_backend.send_frame(&mut slot.to_backend_ready, payload, signal);
        proof {
            let after = self@.slots[slot_id as int];
            assert(self@.slots =~= before.slots.update(slot_id as int, after));
            assert(self@ =~= before.with_slot(slot_id as int, after));
            if r is Err {
                assert(after =~= slot_before);
                assert(self@ =~= before);
            } else {
                lemma_with_slot_shaped(before, slot_id as int, after);
            }
        }
        r
    }

    /// Takes the next frame off the ring to the worker.
    pub(crate) fn recv_for_worker(&mut self, slot_id: u32, dst: &mut [u8]) -> (r: Result<
        Option<usize>,
        super::error::RxError,
    >)
        requires
            old(self)@.shaped(),
            old(self)@.has_slot(slot_id),
        ensures
            received(old(self)@.slots[slot_id as int].to_worker, old(dst)@, r, final(dst)@),
            !(r matches Ok(Some(_))) ==> final(self)@ == old(self)@,
            r matches Ok(Some(n)) ==> received_by_worker(
                old(self)@,
                slot_id as int,
                n as int,
                final(self)@,
            ),
            final(self)@.shaped(),
    {
        let ghost before = self@;
        let slot = &mut self.slots[slot_id as usize];
        let ghost slot_before = slot@;
        assert(slot_before == before.slots[slot_id as int]);
        assert(slot_before.shaped(before.layout));
        let r = slot.to_worker.recv_frame_into(&mut slot.to_worker_ready, dst);
        proof {
            let after = self@.slots[slot_id as int];
            assert(self@.slots =~= before.slots.update(slot_id as int, after));
            assert(self@ =~= before.with_slot(slot_id as int, after));
            if r matches Ok(Some(_)) {
                lemma_with_slot_shaped(before, slot_id as int, after);
            } else {
                assert(after =~= slot_before);
                assert(self@ =~= before);
            }
        }
        r
    }

    /// Takes the next frame off the ring to the backend.
    pub(crate) fn recv_for_backend(&mut self, slot_id: u32, dst: &mut [u8]) -> (r: Result<
        Option<usize>,
        super::error::RxError,
    >)
        requires
            old(self)@.shaped(),
            old(self)@.has_slot(slot_id),
        ensures
            received(old(self)@.slots[slot_id as int].to_backend, old(dst)@, r, final(dst)@),
            !(r matches Ok(Some(_))) ==> final(self)@ == old(self)@,
            r matches Ok(Some(n)) ==> received_by_backend(
                old(self)@,
                slot_id as int,
                n as int,
                final(self)@,
            ),
            final(self)@.shaped(),
    {
        let ghost before = self@;
        let slot = &mut self.slots[slot_id as usize];
        let ghost slot_before = slot@;
        assert(slot_before == before.slots[slot_id as int]);
        assert(slot_before.shaped(before.layout));
        let r = slot.to_backend.recv_frame_into(&mut slot.to_backend_ready, dst);
        proof {
            let after = self@.slots[slot_id as int];
            assert(self@.slots =~= before.slots.update(slot_id as int, after));
            assert(self@ =~= before.with_slot(slot_id as int, after));
            if r matches Ok(Some(_)) {
                lemma_with_slot_shaped(before, slot_id as int, after);
            } else {
                assert(after =~= slot_before);
                assert(self@ =~= before);
            }
        }
        r
    }
}

/// `after` is `before` with one more frame on the ring to the worker.
pub open spec fn sent_to_worker(
    before: RegionState,
    id: int,
    payload: Seq<u8>,
    after: RegionState,
) -> bool {
    &&& super::ring::published(before.slots[id].to_worker, payload, after.slots[id].to_worker)
    &&& after == before.with_slot(
        id,
        SlotState {
            to_worker: after.slots[id].to_worker,
            to_worker_ready: true,
            ..before.slots[id]
        },
    )
}

/// `after` is `before` with one more frame on the ring to the backend.
pub open spec fn sent_to_backend(
    before: RegionState,
    id: int,
    payload: Seq<u8>,
    after: RegionState,
) -> bool {
    &&& super::ring::published(before.slots[id].to_backend, payload, after.slots[id].to_backend)
    &&& after == before.with_slot(
        id,
        SlotState {
            to_backend: after.slots[id].to_backend,
            to_backend_ready: true,
            ..before.slots[id]
        },
    )
}

/// What a receive from `ring` into a buffer gives.
pub open spec fn received(
    ring: RingState,
    dst: Seq<u8>,
    r: Result<Option<usize>, super::error::RxError>,
    dst_after: Seq<u8>,
) -> bool {
    match r {
        Err(e) => ring.recv_error(dst.len() as int) == Some(e) && dst_after == dst,
        Ok(None) => ring.recv_error(dst.len() as int) is None && ring.used() == 0 && dst_after
            == dst,
        Ok(Some(n)) => {
            &&& ring.recv_error(dst.len() as int) is None
            &&& ring.used() != 0
            &&& n == ring.next_len()
            &&& dst_after == ring.content().subrange(4, 4 + n) + dst.skip(n as int)
        },
    }
}

/// `after` is `before` without the first frame, of `len` payload bytes, on the
/// ring to the worker.
pub open spec fn received_by_worker(
    before: RegionState,
    id: int,
    len: int,
    after: RegionState,
) -> bool {
    &&& super::ring::consumed(before.slots[id].to_worker, len, after.slots[id].to_worker)
    &&& after == before.with_slot(
        id,
        SlotState {
            to_worker: after.slots[id].to_worker,
            to_worker_ready: before.slots[id].to_worker_ready
                && after.slots[id].to_worker.used() != 0,
            ..before.slots[id]
        },
    )
}

/// `after` is `before` without the first frame, of `len` payload bytes, on the
/// ring to the backend.
pub open spec fn received_by_backend(
    before: RegionState,
    id: int,
    len: int,
    after: RegionState,
) -> bool {
    &&& super::ring::consumed(before.slots[id].to_backend, len, after.slots[id].to_backend)
    &&& after == before.with_slot(
        id,
        SlotState {
            to_backend: after.slots[id].to_backend,
            to_backend_ready: before.slots[id].to_backend_ready
                && after.slots[id].to_backend.used() != 0,
            ..before.slots[id]
        },
    )
}

proof fn lemma_fresh_region_shaped(layout: TransportRegionLayout, key: usize)
    requires
        layout.valid(),
    ensures
        fresh_region(layout, key).shaped(),
{
    let v = fresh_region(layout, key);
    assert forall|i: int| 0 <= i < v.slots.len() implies (#[trigger] v.slots[i]).shaped(
        v.layout,
    ) by {
        assert(v.slots[i] == fresh_slot(layout, 1));
    }
}

} // verus!

//! Process-local record of the slots that this process holds as a worker.
//!
//! A registry belongs to one process id, one region and one slot count. A child
//! process that inherits the list finds no registry of its own in it. The
//! newest registry of a kind counts.

use super::error::WorkerAttachError;
use super::meta::{no_incarnation, LeaseIncarnation};
use vstd::prelude::*;

verus! {

/// One lease incarnation as a number: zero stands for none.
pub open spec fn packed_owner(incarnation: LeaseIncarnation) -> int {
    incarnation.generation * 0x1_0000_0000_0000_0000 + incarnation.lease_epoch
}

/// Packs an incarnation into one word.
pub fn pack_local_owner(incarnation: LeaseIncarnation) -> (r: u128)
    ensures
        r == packed_owner(incarnation),
{
    let generation: u128 = incarnation.generation as u128;
    let lease_epoch: u128 = incarnation.lease_epoch as u128;
    proof {
        assert((generation << 64) | lease_epoch == generation * 0x1_0000_0000_0000_0000
            + lease_epoch) by (bit_vector)
            requires
                generation <= 0xFFFF_FFFF_FFFF_FFFF,
                lease_epoch <= 0xFFFF_FFFF_FFFF_FFFF,
        ;
    }
    (generation << 64) | lease_epoch
}

/// Unpacks an incarnation.
pub fn unpack_local_owner(raw: u128) -> (r: LeaseIncarnation)
    ensures
        packed_owner(r) == raw,
{
    if raw == 0 {
        return LeaseIncarnation::free();
    }
    proof {
        assert((raw >> 64) as u64 == raw / 0x1_0000_0000_0000_0000 && raw as u64 == raw
            % 0x1_0000_0000_0000_0000) by (bit_vector);
    }
    LeaseIncarnation::new((raw >> 64) as u64, raw as u64)
}

/// Packing loses nothing.
pub proof fn lemma_packed_owner_injective(a: LeaseIncarnation, b: LeaseIncarnation)
    ensures
        packed_owner(a) == packed_owner(b) <==> a == b,
        packed_owner(a) == 0 <==> a == no_incarnation(),
{
}

/// What a registry says.
#[verifier::ext_equal]
pub struct RegistryState {
    pub owner_pid: i32,
    pub region_key: usize,
    /// The incarnation under which this process holds each slot.
    pub owners: Seq<LeaseIncarnation>,
}

impl RegistryState {
    pub open spec fn matches(self, owner_pid: i32, region_key: usize, slot_count: u32) -> bool {
        self.owner_pid == owner_pid && self.region_key == region_key && self.owners.len()
            == slot_count
    }
}

/// A registry in which no slot is held.
pub open spec fn fresh_registry(owner_pid: i32, region_key: usize, slot_count: u32) -> RegistryState {
    RegistryState {
        owner_pid,
        region_key,
        owners: Seq::new(slot_count as nat, |i: int| no_incarnation()),
    }
}

/// The newest registry of a kind in a list.
pub open spec fn find_registry(
    registries: Seq<RegistryState>,
    owner_pid: i32,
    region_key: usize,
    slot_count: u32,
) -> Option<int>
    decreases registries.len(),
{
    if registries.len() == 0 {
        None
    } else if registries.last().matches(owner_pid, region_key, slot_count) {
        Some(registries.len() - 1)
    } else {
        find_registry(registries.drop_last(), owner_pid, region_key, slot_count)
    }
}

/// A registry that is found is in the list and of the right kind.
pub proof fn lemma_found_registry(
    registries: Seq<RegistryState>,
    owner_pid: i32,
    region_key: usize,
    slot_count: u32,
)
    ensures
        find_registry(registries, owner_pid, region_key, slot_count) matches Some(i) ==> 0 <= i
            < registries.len() && registries[i].matches(owner_pid, region_key, slot_count),
    decreases registries.len(),
{
    if registries.len() > 0 && !registries.last().matches(owner_pid, region_key, slot_count) {
        lemma_found_registry(registries.drop_last(), owner_pid, region_key, slot_count);
    }
}

/// Changing the slots that one registry holds does not change which registry is found.
pub proof fn lemma_update_keeps_found(
    registries: Seq<RegistryState>,
    at: int,
    owners: Seq<LeaseIncarnation>,
    owner_pid: i32,
    region_key: usize,
    slot_count: u32,
)
    requires
        0 <= at < registries.len(),
        owners.len() == registries[at].owners.len(),
    ensures
        find_registry(
            registries.update(at, RegistryState { owners, ..registries[at] }),
            owner_pid,
            region_key,
            slot_count,
        ) == find_registry(registries, owner_pid, region_key, slot_count),
    decreases registries.len(),
{
    let updated = registries.update(at, RegistryState { owners, ..registries[at] });
    if at < registries.len() - 1 {
        assert(updated.drop_last() =~= registries.drop_last().update(
            at,
            RegistryState { owners, ..registries[at] },
        ));
        lemma_update_keeps_found(
            registries.drop_last(),
            at,
            owners,
            owner_pid,
            region_key,
            slot_count,
        );
    } else {
        assert(updated.drop_last() =~= registries.drop_last());
    }
}

/// One registry.
#[derive(Debug)]
pub struct ProcessWorkerRegistry {
    owner_pid: i32,
    region_key: usize,
    entries: Vec<u128>,
}

impl View for ProcessWorkerRegistry {
    type V = RegistryState;

    closed spec fn view(&self) -> RegistryState {
        RegistryState {
            owner_pid: self.owner_pid,
            region_key: self.region_key,
            owners: Seq::new(self.entries@.len(), |i: int| unpacked(self.entries@[i])),
        }
    }
}

/// The incarnation that a word packs.
spec fn unpacked(raw: u128) -> LeaseIncarnation {
    LeaseIncarnation {
        generation: (raw / 0x1_0000_0000_0000_0000) as u64,
        lease_epoch: (raw % 0x1_0000_0000_0000_0000) as u64,
    }
}

proof fn lemma_unpacked(raw: u128)
    ensures
        packed_owner(unpacked(raw)) == raw,
{
}

impl ProcessWorkerRegistry {
    pub fn new(owner_pid: i32, region_key: usize, slot_count: u32) -> (r: Self)
        ensures
            r@ == fresh_registry(owner_pid, region_key, slot_count),
    {
        let entries: Vec<u128> = vec![0u128; slot_count as usize];
        let r = ProcessWorkerRegistry { owner_pid, region_key, entries };
        assert(r@ =~= fresh_registry(owner_pid, region_key, slot_count));
        r
    }

    fn matches(&self, owner_pid: i32, region_key: usize, slot_count: u32) -> (r: bool)
        ensures
            r == self@.matches(owner_pid, region_key, slot_count),
    {
        self.owner_pid == owner_pid && self.region_key == region_key && self.entries.len() as u64
            == slot_count as u64
    }

    fn entry(&self, slot_id: u32) -> (r: u128)
        requires
            slot_id < self@.owners.len(),
        ensures
            r == packed_owner(self@.owners[slot_id as int]),
    {
        proof {
            lemma_unpacked(self.entries@[slot_id as int]);
        }
        self.entries[slot_id as usize]
    }

    fn set_entry(&mut self, slot_id: u32, incarnation: LeaseIncarnation)
        requires
            slot_id < old(self)@.owners.len(),
        ensures
            final(self)@ == (RegistryState {
                owners: old(self)@.owners.update(slot_id as int, incarnation),
                ..old(self)@
            }),
    {
        let raw: u128 = pack_local_owner(incarnation);
        self.entries.set(slot_id as usize, raw);
        proof {
            lemma_unpacked(raw);
            lemma_packed_owner_injective(unpacked(raw), incarnation);
            assert(self@.owners =~= old(self)@.owners.update(slot_id as int, incarnation));
        }
    }
}

/// The number of slots that a registry holds.
pub open spec fn held_count(owners: Seq<LeaseIncarnation>) -> nat
    decreases owners.len(),
{
    if owners.len() == 0 {
        0
    } else {
        held_count(owners.drop_last()) + if owners.last() == no_incarnation() {
            0nat
        } else {
            1nat
        }
    }
}

/// The slots that a registry holds with their incarnations, in slot order.
pub open spec fn held_slots(owners: Seq<LeaseIncarnation>) -> Seq<(u32, LeaseIncarnation)>
    decreases owners.len(),
{
    if owners.len() == 0 {
        Seq::empty()
    } else if owners.last() == no_incarnation() {
        held_slots(owners.drop_last())
    } else {
        held_slots(owners.drop_last()).push(((owners.len() - 1) as u32, owners.last()))
    }
}

/// No slot is held exactly if the count is zero.
pub proof fn lemma_held_count_zero(owners: Seq<LeaseIncarnation>)
    ensures
        held_count(owners) <= owners.len(),
        held_count(owners) == 0 <==> forall|i: int|
            0 <= i < owners.len() ==> owners[i] == no_incarnation(),
    decreases owners.len(),
{
    if owners.len() > 0 {
        lemma_held_count_zero(owners.drop_last());
        assert forall|i: int| 0 <= i < owners.len() - 1 implies owners.drop_last()[i]
            == owners[i] by {}
        if held_count(owners) == 0 {
            assert forall|i: int| 0 <= i < owners.len() implies owners[i] == no_incarnation() by {
                if i < owners.len() - 1 {
                    assert(owners.drop_last()[i] == owners[i]);
                }
            }
        }
    }
}

/// What one process knows about its worker registries.
#[verifier::ext_equal]
pub struct ProcessState {
    pub pid: i32,
    pub registries: Seq<RegistryState>,
}

impl ProcessState {
    /// Index of the registry for a region, if this process has one.
    pub open spec fn attached(self, region_key: usize, slot_count: u32) -> Option<int> {
        find_registry(self.registries, self.pid, region_key, slot_count)
    }

    /// The incarnations held in a region; nothing without a registry.
    pub open spec fn owners(self, region_key: usize, slot_count: u32) -> Seq<LeaseIncarnation> {
        match self.attached(region_key, slot_count) {
            Some(i) => self.registries[i].owners,
            None => Seq::empty(),
        }
    }

    /// The state after the registry at `at` holds `owners`.
    pub open spec fn with_owners(self, at: int, owners: Seq<LeaseIncarnation>) -> ProcessState {
        ProcessState {
            registries: self.registries.update(
                at,
                RegistryState { owners, ..self.registries[at] },
            ),
            ..self
        }
    }

    /// The state after the process attached to a region as its worker.
    pub open spec fn after_attach(self, region_key: usize, slot_count: u32) -> ProcessState {
        if self.attached(region_key, slot_count) is Some {
            self
        } else {
            self.after_reset(region_key, slot_count)
        }
    }

    /// The state after a fresh registry was put on the list.
    pub open spec fn after_reset(self, region_key: usize, slot_count: u32) -> ProcessState {
        ProcessState {
            registries: self.registries.push(fresh_registry(self.pid, region_key, slot_count)),
            ..self
        }
    }

    /// The state after a slot was entered, which fails where one is entered already.
    pub open spec fn after_insert(
        self,
        region_key: usize,
        slot_count: u32,
        slot_id: int,
        incarnation: LeaseIncarnation,
    ) -> (ProcessState, bool) {
        let at = self.attached(region_key, slot_count)->0;
        let owners = self.registries[at].owners;
        if owners[slot_id] == no_incarnation() {
            (self.with_owners(at, owners.update(slot_id, incarnation)), true)
        } else {
            (self, false)
        }
    }

    /// The state after a slot was removed, which succeeds only for the
    /// incarnation that is entered.
    pub open spec fn after_remove(
        self,
        region_key: usize,
        slot_count: u32,
        slot_id: int,
        incarnation: LeaseIncarnation,
    ) -> (ProcessState, bool) {
        match self.attached(region_key, slot_count) {
            None => (self, false),
            Some(at) => {
                let owners = self.registries[at].owners;
                if owners[slot_id] == incarnation {
                    (self.with_owners(at, owners.update(slot_id, no_incarnation())), true)
                } else {
                    (self, false)
                }
            },
        }
    }

    /// The state after everything that is held in a region was taken out.
    pub open spec fn after_take(self, region_key: usize, slot_count: u32) -> ProcessState {
        match self.attached(region_key, slot_count) {
            None => self,
            Some(at) => self.with_owners(
                at,
                Seq::new(slot_count as nat, |i: int| no_incarnation()),
            ),
        }
    }
}

/// The process id and the worker registries of one process.
#[derive(Debug)]
pub struct ProcessContext {
    pid: i32,
    registries: Vec<ProcessWorkerRegistry>,
}

impl View for ProcessContext {
    type V = ProcessState;

    closed spec fn view(&self) -> ProcessState {
        ProcessState {
            pid: self.pid,
            registries: Seq::new(self.registries@.len(), |i: int| self.registries@[i]@),
        }
    }
}

impl ProcessContext {
    /// A process without any worker registry.
    pub fn new(pid: i32) -> (r: Self)
        ensures
            r@ == (ProcessState { pid, registries: Seq::empty() }),
    {
        let r = ProcessContext { pid, registries: Vec::new() };
        assert(r@ =~= ProcessState { pid, registries: Seq::empty() });
        r
    }

    pub fn current_process_pid(&self) -> (r: i32)
        ensures
            r == self@.pid,
    {
        self.pid
    }

    /// What a child process sees after a fork: the same list under its own id.
    pub fn set_pid(&mut self, pid: i32)
        ensures
            final(self)@ == (ProcessState { pid, ..old(self)@ }),
    {
        self.pid = pid;
        assert(self@ =~= ProcessState { pid, ..old(self)@ });
    }

    /// The place of this process's latest registry for the region, if there is
    /// one.
    pub fn find_worker_owner_registry(&self, region_key: usize, slot_count: u32) -> (r: Option<
        usize,
    >)
        ensures
            r is Some <==> self@.attached(region_key, slot_count) is Some,
            r matches Some(i) ==> self@.attached(region_key, slot_count) == Some(i as int) && i
                < self@.registries.len() && self@.registries[i as int].matches(
                self@.pid,
                region_key,
                slot_count,
            ),
    {
        let mut i: usize = self.registries.len();
        assert(self@.registries.take(i as int) =~= self@.registries);
        while i > 0
            invariant
                i <= self.registries@.len(),
                self@.registries.len() == self.registries@.len(),
                self@.attached(region_key, slot_count) == find_registry(
                    self@.registries.take(i as int),
                    self@.pid,
                    region_key,
                    slot_count,
                ),
            decreases i,
        {
            i = i - 1;
            assert(self@.registries.take(i + 1).last() == self@.registries[i as int]);
            assert(self@.registries.take(i + 1).drop_last() =~= self@.registries.take(i as int));
            if self.registries[i].matches(self.pid, region_key, slot_count) {
                return Some(i);
            }
        }
        None
    }

    /// Makes sure that this process has a registry for the region.
    pub fn install_or_get_worker_owner_registry(&mut self, region_key: usize, slot_count: u32) -> (r:
        Result<(), WorkerAttachError>)
        ensures
            r is Ok,
            final(self)@ == old(self)@.after_attach(region_key, slot_count),
            final(self)@.attached(region_key, slot_count) is Some,
    {
        if self.find_worker_owner_registry(region_key, slot_count).is_some() {
            return Ok(());
        }
        self.reset_worker_owner_registry(region_key, slot_count);
        Ok(())
    }

    /// Puts a fresh registry for the region on the list.
    pub fn reset_worker_owner_registry(&mut self, region_key: usize, slot_count: u32)
        ensures
            final(self)@ == old(self)@.after_reset(region_key, slot_count),
            final(self)@.attached(region_key, slot_count) is Some,
    {
        let pid: i32 = self.pid;
        self.registries.push(ProcessWorkerRegistry::new(pid, region_key, slot_count));
        assert(self@ =~= old(self)@.after_reset(region_key, slot_count));
        assert(self@.registries.last() == fresh_registry(pid, region_key, slot_count));
    }

    /// Number of slots that this process holds in the region.
    pub fn local_worker_owner_count(&self, region_key: usize, slot_count: u32) -> (r: usize)
        ensures
            r == held_count(self@.owners(region_key, slot_count)),
    {
        let at: usize = match self.find_worker_owner_registry(region_key, slot_count) {
            Some(i) => i,
            None => {
                return 0;
            },
        };
        let ghost owners = self@.registries[at as int].owners;
        let mut count: usize = 0;
        let mut i: u32 = 0;
        assert(owners.take(0) =~= Seq::<LeaseIncarnation>::empty());
        while i < slot_count
            invariant
                i <= slot_count,
                slot_count == owners.len(),
                at < self.registries@.len(),
                owners == self.registries@[at as int]@.owners,
                count == held_count(owners.take(i as int)),
                count <= i,
            decreases slot_count - i,
        {
            assert(owners.take(i + 1).drop_last() =~= owners.take(i as int));
            let raw: u128 = self.registries[at].entry(i);
            proof {
                lemma_packed_owner_injective(owners[i as int], no_incarnation());
            }
            if raw != 0 {
                count = count + 1;
            }
            i = i + 1;
        }
        assert(owners.take(slot_count as int) =~= owners);
        count
    }

    fn set_owner(&mut self, at: usize, slot_id: u32, incarnation: LeaseIncarnation)
        requires
            at < old(self)@.registries.len(),
            slot_id < old(self)@.registries[at as int].owners.len(),
        ensures
            final(self)@ == old(self)@.with_owners(
                at as int,
                old(self)@.registries[at as int].owners.update(slot_id as int, incarnation),
            ),
    {
        let registry = &mut self.registries[at];
        registry.set_entry(slot_id, incarnation);
        assert(self@ =~= old(self)@.with_owners(
            at as int,
            old(self)@.registries[at as int].owners.update(slot_id as int, incarnation),
        ));
    }

    /// Enters a slot that this process is about to hold. Fails where the slot
    /// is entered already.
    pub fn insert_local_worker_owner(
        &mut self,
        region_key: usize,
        slot_count: u32,
        slot_id: u32,
        incarnation: LeaseIncarnation,
    ) -> (r: bool)
        requires
            old(self)@.attached(region_key, slot_count) is Some,
            slot_id < slot_count,
        ensures
            (final(self)@, r) == old(self)@.after_insert(
                region_key,
                slot_count,
                slot_id as int,
                incarnation,
            ),
    {
        let at: usize = self.find_worker_owner_registry(region_key, slot_count).unwrap();
        let raw: u128 = self.registries[at].entry(slot_id);
        proof {
            lemma_packed_owner_injective(
                self@.registries[at as int].owners[slot_id as int],
                no_incarnation(),
            );
        }
        if raw != 0 {
            return false;
        }
        self.set_owner(at, slot_id, incarnation);
        true
    }

    /// Removes a slot that this process holds under `incarnation`.
    pub fn remove_local_worker_owner(
        &mut self,
        region_key: usize,
        slot_count: u32,
        slot_id: u32,
        incarnation: LeaseIncarnation,
    ) -> (r: bool)
        requires
            slot_id < slot_count,
        ensures
            (final(self)@, r) == old(self)@.after_remove(
                region_key,
                slot_count,
                slot_id as int,
                incarnation,
            ),
    {
        let at: usize = match self.find_worker_owner_registry(region_key, slot_count) {
            Some(i) => i,
            None => {
                return false;
            },
        };
        let raw: u128 = self.registries[at].entry(slot_id);
        proof {
            lemma_packed_owner_injective(
                self@.registries[at as int].owners[slot_id as int],
                incarnation,
            );
        }
        if raw != pack_local_owner(incarnation) {
            return false;
        }
        self.set_owner(at, slot_id, LeaseIncarnation::free());
        true
    }

    /// Takes out every slot that this process holds in the region.
    pub fn take_local_worker_owners(&mut self, region_key: usize, slot_count: u32) -> (r: Vec<
        (u32, LeaseIncarnation),
    >)
        ensures
            r@ == held_slots(old(self)@.owners(region_key, slot_count)),
            final(self)@ == old(self)@.after_take(region_key, slot_count),
    {
        let mut owned: Vec<(u32, LeaseIncarnation)> = Vec::new();
        let at: usize = match self.find_worker_owner_registry(region_key, slot_count) {
            Some(i) => i,
            None => {
                return owned;
            },
        };
        let ghost before = self@;
        let ghost owners = self@.registries[at as int].owners;
        let ghost cleared = |n: int|
            Seq::new(
                slot_count as nat,
                |i: int|
                    if i < n {
                        no_incarnation()
                    } else {
                        owners[i]
                    },
            );
        let mut i: u32 = 0;
        proof {
            assert(owners.take(0) =~= Seq::<LeaseIncarnation>::empty());
            assert(cleared(0) =~= owners);
            assert(self@ =~= before.with_owners(at as int, cleared(0)));
        }
        while i < slot_count
            invariant
                i <= slot_count,
                slot_count == owners.len(),
                at < before.registries.len(),
                owners == before.registries[at as int].owners,
                self@ == before.with_owners(at as int, cleared(i as int)),
                cleared == (|n: int|
                    Seq::new(
                        slot_count as nat,
                        |i: int|
                            if i < n {
                                no_incarnation()
                            } else {
                                owners[i]
                            },
                    )),
                owned@ == held_slots(owners.take(i as int)),
            decreases slot_count - i,
        {
            assert(owners.take(i + 1).drop_last() =~= owners.take(i as int));
            assert(self@.registries[at as int].owners == cleared(i as int));
            assert(self.registries@.len() == self@.registries.len());
            assert(self.registries@[at as int]@ == self@.registries[at as int]);
            let raw: u128 = self.registries[at].entry(i);
            let incarnation: LeaseIncarnation = unpack_local_owner(raw);
            proof {
                lemma_packed_owner_injective(incarnation, owners[i as int]);
            }
            self.set_owner(at, i, LeaseIncarnation::free());
            proof {
                assert(cleared(i as int).update(i as int, no_incarnation()) =~= cleared(i + 1));
                assert(self@ =~= before.with_owners(at as int, cleared(i + 1)));
            }
            if !incarnation.is_free() {
                owned.push((i, incarnation));
            }
            i = i + 1;
        }
        proof {
            assert(owners.take(slot_count as int) =~= owners);
            assert(cleared(slot_count as int) =~= Seq::new(
                slot_count as nat,
                |i: int| no_incarnation(),
            ));
        }
        owned
    }
}

} // verus!

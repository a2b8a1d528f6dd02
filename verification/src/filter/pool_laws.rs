//! What every operation of the pool keeps.

use super::bloom::{filled, law_no_false_negatives, positions, BloomParams};
use super::lifecycle::{
    acquire_outcome, change_outcome, decision, LifecycleError, LifecycleSnapshot, ProbeDecision,
    RuntimeFilterState, SlotContent,
};
use super::pool::{
    built, first_free, header_error, header_for, key_type_number, key_type_of, layout_error,
    looked_up, unused_slot, with_hash, PoolSlotContent, RuntimeFilterKeyType,
    RuntimeFilterPoolAttachError, RuntimeFilterPoolConfig, RuntimeFilterTarget, SLOT_ALLOCATED,
    SLOT_FREE, SLOT_RETIRING,
};
use vstd::prelude::*;

verus! {

/// A slot to which `probes` probes refer. An allocated slot has its owner's
/// reference besides, a retiring one only those of probes, a free one none.
pub open spec fn slot_sound(slot: PoolSlotContent, probes: nat) -> bool {
    let state = slot.filter.lifecycle.state;
    if slot.state == SLOT_FREE {
        &&& slot.refs == 0
        &&& probes == 0
        &&& state == RuntimeFilterState::Free || state == RuntimeFilterState::Disabled
    } else {
        &&& slot.state == SLOT_ALLOCATED && slot.refs == 1 + probes || slot.state == SLOT_RETIRING
            && slot.refs == probes && probes > 0
        &&& state != RuntimeFilterState::Free
        &&& slot.generation == slot.filter.lifecycle.generation
        &&& key_type_of(slot.key_type) is Some
    }
}

/// Every slot of a pool is sound with its number of probes.
pub open spec fn pool_sound(slots: Seq<PoolSlotContent>, probes: Seq<nat>) -> bool {
    &&& probes.len() == slots.len()
    &&& forall|i: int| 0 <= i < slots.len() ==> slot_sound(#[trigger] slots[i], probes[i])
}

/// Numbers stand for key types one to one.
pub proof fn law_key_type_numbers(key_type: RuntimeFilterKeyType)
    ensures
        key_type_of(key_type_number(key_type)) == Some(key_type),
{
}

/// A new pool is sound: nobody refers to its slots.
pub proof fn law_fresh_pool_is_sound(slot_count: nat)
    ensures
        pool_sound(
            Seq::new(slot_count, |i: int| unused_slot()),
            Seq::new(slot_count, |i: int| 0nat),
        ),
{
}

/// Allocating a free slot, whether it succeeds or not, leaves a sound slot
/// without probes.
pub proof fn law_allocation_keeps_sound(slot: PoolSlotContent, target: RuntimeFilterTarget)
    requires
        slot.state == SLOT_FREE,
        slot_sound(slot, 0),
    ensures
        slot_sound(slot.allocated(target), 0),
        slot.allocated(target).state == if acquire_outcome(slot.filter.lifecycle) is Ok {
            SLOT_ALLOCATED
        } else {
            SLOT_FREE
        },
{
    law_key_type_numbers(target.key_type);
}

/// A free slot of a sound pool can always be allocated, until its generations
/// are used up.
pub proof fn law_free_slot_can_be_built(slot: PoolSlotContent)
    requires
        slot.state == SLOT_FREE,
        slot_sound(slot, 0),
    ensures
        acquire_outcome(slot.filter.lifecycle) is Ok || acquire_outcome(slot.filter.lifecycle)
            == Err::<LifecycleSnapshot, LifecycleError>(
            LifecycleError::GenerationExhausted { generation: slot.filter.lifecycle.generation },
        ),
{
}

/// A probe that refers to an allocated slot is counted.
pub proof fn law_probe_is_counted(slot: PoolSlotContent, probes: nat)
    requires
        slot_sound(slot, probes),
        slot.state == SLOT_ALLOCATED,
        slot.refs < u32::MAX,
    ensures
        slot_sound(slot.referenced(), probes + 1),
{
}

/// A probe that lets go is no longer counted; the last one that lets go of a
/// retiring slot frees it.
pub proof fn law_probe_release(slot: PoolSlotContent, probes: nat)
    requires
        slot_sound(slot, probes),
        probes > 0,
    ensures
        slot_sound(slot.released(), (probes - 1) as nat),
        slot.state == SLOT_RETIRING && probes == 1 ==> slot.released().state == SLOT_FREE,
        !(slot.state == SLOT_RETIRING && probes == 1) ==> slot.released().filter == slot.filter,
{
}

/// An owner that lets go frees a slot without probes; otherwise the slot stays
/// as it is for its probes, and retires.
pub proof fn law_owner_release(slot: PoolSlotContent, probes: nat)
    requires
        slot_sound(slot, probes),
        slot.state == SLOT_ALLOCATED,
    ensures
        slot_sound(slot.disowned(), probes),
        probes == 0 ==> slot.disowned().state == SLOT_FREE,
        probes > 0 ==> slot.disowned().state == SLOT_RETIRING && slot.disowned().filter
            == slot.filter,
{
}

/// Inserting and ending a build keep a slot sound.
pub proof fn law_build_keeps_sound(
    slots: Seq<PoolSlotContent>,
    after: Seq<PoolSlotContent>,
    i: int,
    probes: nat,
    params: BloomParams,
    generation: u64,
    hash: u64,
    to: RuntimeFilterState,
    r: Result<(), RuntimeFilterPoolAttachError>,
)
    requires
        0 <= i < slots.len(),
        slot_sound(slots[i], probes),
        to == RuntimeFilterState::Ready || to == RuntimeFilterState::Disabled,
        built(slots, after, i, generation, to, r),
    ensures
        slot_sound(with_hash(slots[i], params, generation, hash), probes),
        slot_sound(after[i], probes),
{
}

/// A free slot that is found is one of the slots, and free.
pub proof fn lemma_first_free_is_free(slots: Seq<PoolSlotContent>, i: int)
    requires
        0 <= i,
    ensures
        first_free(slots, i) matches Some(j) ==> i <= j < slots.len() && slots[j].state
            == SLOT_FREE,
    decreases slots.len() - i,
{
    if i < slots.len() {
        lemma_first_free_is_free(slots, i + 1);
    }
}

/// Storage is not reused while a probe refers to it: no allocation takes the
/// slot, so that its bits and its generation stay.
pub proof fn law_no_reuse_under_probes(
    slots: Seq<PoolSlotContent>,
    probes: Seq<nat>,
    i: int,
    target: RuntimeFilterTarget,
)
    requires
        pool_sound(slots, probes),
        0 <= i < slots.len(),
        probes[i] > 0,
    ensures
        first_free(slots, 0) != Some(i),
        first_free(slots, 0) matches Some(j) ==> slots.update(j, slots[j].allocated(target))[i]
            == slots[i],
{
    lemma_first_free_is_free(slots, 0);
    assert(slot_sound(slots[i], probes[i]));
}

/// When a slot is freed, its filter is no longer ready: probes of the old
/// generation pass rows.
pub proof fn law_freed_slot_does_not_reject(
    slot: PoolSlotContent,
    probes: nat,
    generation: u64,
    may_contain: bool,
)
    requires
        slot_sound(slot, probes),
        slot.state == SLOT_FREE,
    ensures
        decision(slot.filter.lifecycle, generation, may_contain) == ProbeDecision::PassUnfiltered,
{
}

/// A slot after the insertion of several hashes.
pub open spec fn with_hashes(
    slot: PoolSlotContent,
    params: BloomParams,
    generation: u64,
    hashes: Seq<u64>,
) -> PoolSlotContent
    decreases hashes.len(),
{
    if hashes.len() == 0 {
        slot
    } else {
        with_hash(
            with_hashes(slot, params, generation, hashes.drop_last()),
            params,
            generation,
            hashes.last(),
        )
    }
}

proof fn lemma_with_hashes(
    slot: PoolSlotContent,
    params: BloomParams,
    generation: u64,
    hashes: Seq<u64>,
)
    requires
        slot.filter.lifecycle == (LifecycleSnapshot {
            generation,
            state: RuntimeFilterState::Building,
        }),
    ensures
        with_hashes(slot, params, generation, hashes) == (PoolSlotContent {
            filter: SlotContent {
                bits: filled(params, slot.filter.bits, hashes),
                ..slot.filter
            },
            ..slot
        }),
    decreases hashes.len(),
{
    if hashes.len() > 0 {
        lemma_with_hashes(slot, params, generation, hashes.drop_last());
    }
}

/// What a worker inserts into an allocated slot before it publishes, the probes
/// of that slot never reject.
pub proof fn law_published_keys_are_kept(
    slot: PoolSlotContent,
    target: RuntimeFilterTarget,
    params: BloomParams,
    hashes: Seq<u64>,
    i: int,
)
    requires
        slot.state == SLOT_FREE,
        acquire_outcome(slot.filter.lifecycle) is Ok,
        0 <= i < hashes.len(),
    ensures
        ({
            let allocated = slot.allocated(target);
            let generation = allocated.generation;
            let full = with_hashes(allocated, params, generation, hashes);
            let outcome = change_outcome(
                full.filter.lifecycle,
                generation,
                RuntimeFilterState::Building,
                RuntimeFilterState::Ready,
            );
            &&& outcome is Ok
            &&& decision(
                outcome->Ok_0,
                generation,
                positions(params, hashes[i]).subset_of(full.filter.bits),
            ) == ProbeDecision::MaybePresent
        }),
{
    let allocated = slot.allocated(target);
    lemma_with_hashes(allocated, params, allocated.generation, hashes);
    law_no_false_negatives(params, Set::empty(), hashes, i);
}

/// A pool can be attached with the configuration that it was made with, and with
/// no other whose hash counts fit the header.
pub proof fn law_attach_needs_same_config(
    config: RuntimeFilterPoolConfig,
    other: RuntimeFilterPoolConfig,
)
    requires
        layout_error(config) is None,
        layout_error(other) is None,
    ensures
        header_error(header_for(config), config) is None,
        config != other && config.params.hash_count <= u32::MAX && other.params.hash_count
            <= u32::MAX ==> header_error(header_for(config), other) == Some(
            RuntimeFilterPoolAttachError::ConfigMismatch,
        ),
{
}

/// A lookup keeps a pool sound: each slot that serves the scan has one probe
/// more, and no other slot has changed.
pub proof fn law_lookup_keeps_sound(
    slots: Seq<PoolSlotContent>,
    probes: Seq<nat>,
    session_epoch: u64,
    scan_id: u64,
)
    requires
        pool_sound(slots, probes),
        forall|i: int| 0 <= i < slots.len() ==> (#[trigger] slots[i]).refs < u32::MAX,
    ensures
        ({
            let after = looked_up(slots, session_epoch, scan_id, slots.len() as int);
            &&& pool_sound(
                after,
                Seq::new(
                    slots.len(),
                    |i: int|
                        if slots[i].serves(session_epoch, scan_id) {
                            probes[i] + 1
                        } else {
                            probes[i]
                        },
                ),
            )
            &&& forall|i: int|
                0 <= i < slots.len() && !(#[trigger] slots[i]).serves(session_epoch, scan_id)
                    ==> after[i] == slots[i]
        }),
{
    let after = looked_up(slots, session_epoch, scan_id, slots.len() as int);
    assert forall|i: int| 0 <= i < slots.len() implies slot_sound(
        #[trigger] after[i],
        if slots[i].serves(session_epoch, scan_id) {
            probes[i] + 1
        } else {
            probes[i]
        },
    ) && (!slots[i].serves(session_epoch, scan_id) ==> after[i] == slots[i]) by {
        assert(slot_sound(slots[i], probes[i]));
    }
}

} // verus!

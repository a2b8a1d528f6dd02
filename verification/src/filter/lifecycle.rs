//! Generations of a filter, from free storage to a ready filter and back.

use super::bloom::{
    filled, law_no_false_negatives, positions, AtomicBloomRef, BloomAttachError, BloomParams,
};
use vstd::prelude::*;

verus! {

/// Bits of the state in a lifecycle word.
pub const STATE_BITS: u64 = 2;

/// The state in a lifecycle word.
pub const STATE_MASK: u64 = 3;

/// The last generation of a slot: `u64::MAX >> 2`.
pub const MAX_GENERATION: u64 = 0x3fff_ffff_ffff_ffff;

/// Lifecycle state for one generation.
#[derive(Clone, Copy, Debug, PartialEq, Eq, Structural)]
pub enum RuntimeFilterState {
    /// No active owner; storage may be claimed by a new builder.
    Free,
    /// A builder is populating the filter; probes must pass rows.
    Building,
    /// The filter is complete and can reject absent probe keys.
    Ready,
    /// This generation has no usable filter; probes must pass rows.
    Disabled,
}

/// The number that stands for a state.
pub open spec fn state_number(state: RuntimeFilterState) -> int {
    match state {
        RuntimeFilterState::Free => 0,
        RuntimeFilterState::Building => 1,
        RuntimeFilterState::Ready => 2,
        RuntimeFilterState::Disabled => 3,
    }
}

impl RuntimeFilterState {
    fn from_bits(bits: u64) -> (r: Self)
        requires
            bits < 4,
        ensures
            state_number(r) == bits,
    {
        match bits {
            0 => RuntimeFilterState::Free,
            1 => RuntimeFilterState::Building,
            2 => RuntimeFilterState::Ready,
            _ => RuntimeFilterState::Disabled,
        }
    }

    fn to_bits(self) -> (r: u64)
        ensures
            r == state_number(self),
    {
        match self {
            RuntimeFilterState::Free => 0,
            RuntimeFilterState::Building => 1,
            RuntimeFilterState::Ready => 2,
            RuntimeFilterState::Disabled => 3,
        }
    }
}

/// Generation and state of a slot.
#[derive(Clone, Copy, Debug, PartialEq, Eq, Structural)]
pub struct LifecycleSnapshot {
    /// Monotonically increasing slot generation.
    pub generation: u64,
    /// Current state for `generation`.
    pub state: RuntimeFilterState,
}

/// Decision returned by a probe.
#[derive(Clone, Copy, Debug, PartialEq, Eq, Structural)]
pub enum ProbeDecision {
    /// Filtering is unavailable or unsafe; the row must be kept.
    PassUnfiltered,
    /// The key may be present; the row must be kept.
    MaybePresent,
    /// The key is definitely absent from a ready filter; the row may be skipped.
    DefinitelyAbsent,
}

/// Lifecycle transition error.
#[derive(Clone, Copy, Debug, PartialEq, Eq, Structural)]
pub enum LifecycleError {
    GenerationExhausted { generation: u64 },
    Busy { snapshot: LifecycleSnapshot },
    InvalidTransition { expected: LifecycleSnapshot, actual: LifecycleSnapshot },
}

/// The word of a generation and a state.
pub open spec fn word_of(snapshot: LifecycleSnapshot) -> int {
    4 * snapshot.generation + state_number(snapshot.state)
}

/// The state that a word holds in its low bits.
pub open spec fn state_in(word: u64) -> RuntimeFilterState {
    if word % 4 == 0 {
        RuntimeFilterState::Free
    } else if word % 4 == 1 {
        RuntimeFilterState::Building
    } else if word % 4 == 2 {
        RuntimeFilterState::Ready
    } else {
        RuntimeFilterState::Disabled
    }
}

/// What a word says.
pub open spec fn snapshot_of(word: u64) -> LifecycleSnapshot {
    LifecycleSnapshot { generation: (word as int / 4) as u64, state: state_in(word) }
}

/// Pack a generation and state into a lifecycle word.
pub fn pack_lifecycle_word(generation: u64, state: RuntimeFilterState) -> (r: Result<
    u64,
    LifecycleError,
>)
    ensures
        generation > MAX_GENERATION ==> r == Err::<u64, LifecycleError>(
            LifecycleError::GenerationExhausted { generation },
        ),
        generation <= MAX_GENERATION ==> (r matches Ok(word) && word == word_of(
            (LifecycleSnapshot { generation, state }),
        )),
{
    if generation > MAX_GENERATION {
        return Err(LifecycleError::GenerationExhausted { generation });
    }
    let bits: u64 = state.to_bits();
    assert((generation << 2) | bits == 4 * generation + bits) by (bit_vector)
        requires
            generation <= 0x3fff_ffff_ffff_ffff,
            bits < 4,
    ;
    Ok((generation << STATE_BITS) | bits)
}

/// Decode a lifecycle word.
pub fn unpack_lifecycle_word(word: u64) -> (r: LifecycleSnapshot)
    ensures
        r == snapshot_of(word),
        r.generation <= MAX_GENERATION,
{
    assert(word >> 2 == word / 4 && word & 3 == word % 4) by (bit_vector);
    LifecycleSnapshot {
        generation: word >> STATE_BITS,
        state: RuntimeFilterState::from_bits(word & STATE_MASK),
    }
}

/// Packing and unpacking undo each other.
pub proof fn law_lifecycle_word_round_trip(snapshot: LifecycleSnapshot, word: u64)
    requires
        snapshot.generation <= MAX_GENERATION,
    ensures
        word_of(snapshot) <= u64::MAX,
        snapshot_of(word_of(snapshot) as u64) == snapshot,
        word_of(snapshot_of(word)) == word,
        snapshot_of(word).generation <= MAX_GENERATION,
{
}

/// The word of a new generation, or why there is none.
pub open spec fn acquire_outcome(current: LifecycleSnapshot) -> Result<
    LifecycleSnapshot,
    LifecycleError,
> {
    if current.state == RuntimeFilterState::Building || current.state
        == RuntimeFilterState::Ready {
        Err(LifecycleError::Busy { snapshot: current })
    } else if current.generation + 1 > MAX_GENERATION {
        Err(LifecycleError::GenerationExhausted { generation: current.generation })
    } else {
        Ok(
            LifecycleSnapshot {
                generation: (current.generation + 1) as u64,
                state: RuntimeFilterState::Building,
            },
        )
    }
}

/// What a change from one state of a generation to another gives.
pub open spec fn change_outcome(
    current: LifecycleSnapshot,
    generation: u64,
    from: RuntimeFilterState,
    to: RuntimeFilterState,
) -> Result<LifecycleSnapshot, LifecycleError> {
    let expected = LifecycleSnapshot { generation, state: from };
    if current == expected {
        Ok(LifecycleSnapshot { generation, state: to })
    } else {
        Err(LifecycleError::InvalidTransition { expected, actual: current })
    }
}

/// Decides on an observed word what the word of a new builder is. The word may
/// replace the observed one only if that has not changed.
pub fn next_build_word(current_word: u64) -> (r: Result<u64, LifecycleError>)
    ensures
        match acquire_outcome(snapshot_of(current_word)) {
            Ok(next) => r == Ok::<u64, LifecycleError>(word_of(next) as u64),
            Err(e) => r == Err::<u64, LifecycleError>(e),
        },
{
    let current: LifecycleSnapshot = unpack_lifecycle_word(current_word);
    match current.state {
        RuntimeFilterState::Free => {},
        RuntimeFilterState::Disabled => {},
        _ => {
            return Err(LifecycleError::Busy { snapshot: current });
        },
    }
    let next_generation: u64 = current.generation + 1;
    if next_generation > MAX_GENERATION {
        return Err(LifecycleError::GenerationExhausted { generation: current.generation });
    }
    pack_lifecycle_word(next_generation, RuntimeFilterState::Building)
}

/// Decides on an observed word what it becomes when a generation changes from
/// one state to another.
pub fn changed_word(
    current_word: u64,
    generation: u64,
    from: RuntimeFilterState,
    to: RuntimeFilterState,
) -> (r: Result<u64, LifecycleError>)
    requires
        generation <= MAX_GENERATION,
    ensures
        match change_outcome(snapshot_of(current_word), generation, from, to) {
            Ok(next) => r == Ok::<u64, LifecycleError>(word_of(next) as u64),
            Err(e) => r == Err::<u64, LifecycleError>(e),
        },
{
    let current: LifecycleSnapshot = unpack_lifecycle_word(current_word);
    let expected = LifecycleSnapshot { generation, state: from };
    if current == expected {
        pack_lifecycle_word(generation, to)
    } else {
        Err(LifecycleError::InvalidTransition { expected, actual: current })
    }
}

/// What a probe decides on what it sees.
pub open spec fn decision(
    current: LifecycleSnapshot,
    generation: u64,
    may_contain: bool,
) -> ProbeDecision {
    if current.generation != generation || current.state != RuntimeFilterState::Ready {
        ProbeDecision::PassUnfiltered
    } else if may_contain {
        ProbeDecision::MaybePresent
    } else {
        ProbeDecision::DefinitelyAbsent
    }
}

/// Header with one packed lifecycle word.
#[derive(Clone, Copy, Debug, PartialEq, Eq)]
pub struct RuntimeFilterHeader {
    pub lifecycle: u64,
}

impl RuntimeFilterHeader {
    /// Create a free lifecycle header.
    pub fn free() -> (r: Self)
        ensures
            snapshot_of(r.lifecycle) == (LifecycleSnapshot {
                generation: 0,
                state: RuntimeFilterState::Free,
            }),
    {
        RuntimeFilterHeader { lifecycle: 0 }
    }

    /// Alias for [`RuntimeFilterHeader::free`].
    pub fn empty() -> (r: Self)
        ensures
            snapshot_of(r.lifecycle) == (LifecycleSnapshot {
                generation: 0,
                state: RuntimeFilterState::Free,
            }),
    {
        RuntimeFilterHeader::free()
    }

    /// Load and decode the lifecycle word.
    pub fn load(&self) -> (r: LifecycleSnapshot)
        ensures
            r == snapshot_of(self.lifecycle),
    {
        unpack_lifecycle_word(self.lifecycle)
    }
}

impl Default for RuntimeFilterHeader {
    fn default() -> (r: Self)
        ensures
            snapshot_of(r.lifecycle) == (LifecycleSnapshot {
                generation: 0,
                state: RuntimeFilterState::Free,
            }),
    {
        RuntimeFilterHeader::free()
    }
}

/// What a slot is: what its lifecycle word says, and which bits are set.
#[verifier::ext_equal]
pub struct SlotContent {
    pub lifecycle: LifecycleSnapshot,
    pub bits: Set<int>,
}

/// A filter slot: a lifecycle header and Bloom bits.
///
/// Prefer the pool for storage that is reused: here nothing counts the probes
/// of a generation.
#[derive(Debug)]
pub struct RuntimeFilterSlot {
    pub header: RuntimeFilterHeader,
    pub bloom: AtomicBloomRef,
}

impl View for RuntimeFilterSlot {
    type V = SlotContent;

    open spec fn view(&self) -> SlotContent {
        SlotContent { lifecycle: snapshot_of(self.header.lifecycle), bits: self.bloom@ }
    }
}

/// What changing the lifecycle alone gives.
pub open spec fn changed(
    before: SlotContent,
    after: SlotContent,
    outcome: Result<LifecycleSnapshot, LifecycleError>,
) -> bool {
    after == match outcome {
        Ok(lifecycle) => (SlotContent { lifecycle, ..before }),
        Err(_) => before,
    }
}

impl RuntimeFilterSlot {
    /// The bits fit the parameters.
    pub open spec fn wf(&self) -> bool {
        self.bloom.wf()
    }

    /// Attach a slot to a header and words.
    pub fn new(header: RuntimeFilterHeader, bits: Vec<u64>, params: BloomParams) -> (r: Result<
        Self,
        BloomAttachError,
    >)
        requires
            params.wf(),
        ensures
            bits@.len() < params.word_count ==> r == Err::<Self, BloomAttachError>(
                BloomAttachError::InsufficientWords {
                    required: params.word_count,
                    actual: bits@.len() as usize,
                },
            ),
            bits@.len() >= params.word_count ==> (r matches Ok(slot) && slot.wf() && slot.header
                == header && slot.bloom.params == params && slot.bloom.bits@ == bits@),
    {
        match AtomicBloomRef::new(bits, params) {
            Ok(bloom) => Ok(RuntimeFilterSlot { header, bloom }),
            Err(e) => Err(e),
        }
    }

    /// Return the current lifecycle snapshot.
    pub fn snapshot(&self) -> (r: LifecycleSnapshot)
        ensures
            r == self@.lifecycle,
    {
        self.header.load()
    }

    /// Acquire an exclusive build lease and clear the Bloom payload.
    pub fn try_acquire_builder(&mut self) -> (r: Result<RuntimeFilterBuilder, LifecycleError>)
        requires
            old(self).wf(),
        ensures
            final(self).wf(),
            final(self).bloom.params == old(self).bloom.params,
            final(self).bloom.beyond() == old(self).bloom.beyond(),
            match acquire_outcome(old(self)@.lifecycle) {
                Ok(next) => r == Ok::<RuntimeFilterBuilder, LifecycleError>(
                    RuntimeFilterBuilder { generation: next.generation, active: true },
                ) && final(self)@ == (SlotContent { lifecycle: next, bits: Set::empty() }),
                Err(e) => r == Err::<RuntimeFilterBuilder, LifecycleError>(e) && final(self)@
                    == old(self)@,
            },
    {
        match next_build_word(self.header.lifecycle) {
            Ok(word) => {
                proof {
                    let next = acquire_outcome(self@.lifecycle)->Ok_0;
                    law_lifecycle_word_round_trip(next, word);
                }
                self.header.lifecycle = word;
                self.bloom.clear();
                let generation: u64 = unpack_lifecycle_word(word).generation;
                Ok(RuntimeFilterBuilder { generation, active: true })
            },
            Err(e) => Err(e),
        }
    }

    /// Publish a currently building generation as ready.
    pub fn publish_build(&mut self, generation: u64) -> (r: Result<
        RuntimeFilterProbe,
        LifecycleError,
    >)
        requires
            old(self).wf(),
            generation <= MAX_GENERATION,
        ensures
            final(self).wf(),
            final(self).bloom == old(self).bloom,
            ({
                let outcome = change_outcome(
                    old(self)@.lifecycle,
                    generation,
                    RuntimeFilterState::Building,
                    RuntimeFilterState::Ready,
                );
                &&& changed(old(self)@, final(self)@, outcome)
                &&& r == match outcome {
                    Ok(_) => Ok::<RuntimeFilterProbe, LifecycleError>(
                        RuntimeFilterProbe { generation },
                    ),
                    Err(e) => Err(e),
                }
            }),
    {
        match self.change(generation, RuntimeFilterState::Building, RuntimeFilterState::Ready) {
            Ok(()) => Ok(RuntimeFilterProbe { generation }),
            Err(e) => Err(e),
        }
    }

    /// Disable a currently building generation.
    pub fn disable_build(&mut self, generation: u64) -> (r: Result<(), LifecycleError>)
        requires
            old(self).wf(),
            generation <= MAX_GENERATION,
        ensures
            final(self).wf(),
            final(self).bloom == old(self).bloom,
            ({
                let outcome = change_outcome(
                    old(self)@.lifecycle,
                    generation,
                    RuntimeFilterState::Building,
                    RuntimeFilterState::Disabled,
                );
                &&& changed(old(self)@, final(self)@, outcome)
                &&& r == match outcome {
                    Ok(_) => Ok::<(), LifecycleError>(()),
                    Err(e) => Err(e),
                }
            }),
    {
        self.change(generation, RuntimeFilterState::Building, RuntimeFilterState::Disabled)
    }

    /// Create a probe handle for a generation.
    pub fn probe(&self, generation: u64) -> (r: RuntimeFilterProbe)
        ensures
            r == (RuntimeFilterProbe { generation }),
    {
        RuntimeFilterProbe { generation }
    }

    /// Retire a published filter so that the storage can be reused by a later
    /// generation.
    ///
    /// No probe of `generation` may still be reading bits: a probe that has seen
    /// the filter ready would read what a later builder clears.
    pub fn retire_ready_after_quiescence(&mut self, generation: u64) -> (r: Result<
        (),
        LifecycleError,
    >)
        requires
            old(self).wf(),
        ensures
            final(self).wf(),
            final(self).bloom == old(self).bloom,
            generation > MAX_GENERATION ==> final(self)@ == old(self)@ && r == Err::<
                (),
                LifecycleError,
            >(LifecycleError::GenerationExhausted { generation }),
            generation <= MAX_GENERATION ==> {
                let outcome = change_outcome(
                    old(self)@.lifecycle,
                    generation,
                    RuntimeFilterState::Ready,
                    RuntimeFilterState::Disabled,
                );
                &&& changed(old(self)@, final(self)@, outcome)
                &&& r == match outcome {
                    Ok(_) => Ok::<(), LifecycleError>(()),
                    Err(e) => Err(e),
                }
            },
    {
        if generation > MAX_GENERATION {
            return Err(LifecycleError::GenerationExhausted { generation });
        }
        self.change(generation, RuntimeFilterState::Ready, RuntimeFilterState::Disabled)
    }

    fn change(&mut self, generation: u64, from: RuntimeFilterState, to: RuntimeFilterState) -> (r:
        Result<(), LifecycleError>)
        requires
            generation <= MAX_GENERATION,
        ensures
            final(self).bloom == old(self).bloom,
            changed(
                old(self)@,
                final(self)@,
                change_outcome(old(self)@.lifecycle, generation, from, to),
            ),
            r == match change_outcome(old(self)@.lifecycle, generation, from, to) {
                Ok(_) => Ok::<(), LifecycleError>(()),
                Err(e) => Err(e),
            },
    {
        match changed_word(self.header.lifecycle, generation, from, to) {
            Ok(word) => {
                proof {
                    law_lifecycle_word_round_trip(LifecycleSnapshot { generation, state: to }, word);
                }
                self.header.lifecycle = word;
                Ok(())
            },
            Err(e) => Err(e),
        }
    }
}

/// Exclusive build lease for one generation.
///
/// A builder that is given up disables its generation, which keeps probes
/// conservative if a build ends early.
#[derive(Debug, PartialEq, Eq)]
pub struct RuntimeFilterBuilder {
    pub generation: u64,
    pub active: bool,
}

impl RuntimeFilterBuilder {
    /// The generation can be packed.
    pub open spec fn wf(&self) -> bool {
        self.generation <= MAX_GENERATION
    }

    /// Generation owned by this builder.
    pub fn generation(&self) -> (r: u64)
        ensures
            r == self.generation,
    {
        self.generation
    }

    /// Give up lifecycle ownership without publishing or disabling.
    pub fn detach(self) -> (r: u64)
        ensures
            r == self.generation,
    {
        self.generation
    }

    /// Insert an integer value as an already-normalized key.
    pub fn insert_u64(&self, slot: &mut RuntimeFilterSlot, value: u64)
        requires
            old(slot).wf(),
        ensures
            final(slot).wf(),
            final(slot).bloom.params == old(slot).bloom.params,
            final(slot).bloom.beyond() == old(slot).bloom.beyond(),
            final(slot)@ == (SlotContent {
                bits: old(slot)@.bits.union(positions(old(slot).bloom.params, value)),
                ..old(slot)@
            }),
    {
        slot.bloom.insert_u64(value);
    }

    /// Insert an already-hashed key.
    pub fn insert_hash(&self, slot: &mut RuntimeFilterSlot, hash: u64)
        requires
            old(slot).wf(),
        ensures
            final(slot).wf(),
            final(slot).bloom.params == old(slot).bloom.params,
            final(slot).bloom.beyond() == old(slot).bloom.beyond(),
            final(slot)@ == (SlotContent {
                bits: old(slot)@.bits.union(positions(old(slot).bloom.params, hash)),
                ..old(slot)@
            }),
    {
        slot.bloom.insert_hash(hash);
    }

    /// Publish this builder's generation as ready and return a matching probe.
    pub fn publish_ready(self, slot: &mut RuntimeFilterSlot) -> (r: Result<
        RuntimeFilterProbe,
        LifecycleError,
    >)
        requires
            self.wf(),
            old(slot).wf(),
        ensures
            final(slot).wf(),
            final(slot).bloom == old(slot).bloom,
            ({
                let outcome = change_outcome(
                    old(slot)@.lifecycle,
                    self.generation,
                    RuntimeFilterState::Building,
                    RuntimeFilterState::Ready,
                );
                &&& changed(old(slot)@, final(slot)@, outcome)
                &&& r == match outcome {
                    Ok(_) => Ok::<RuntimeFilterProbe, LifecycleError>(
                        RuntimeFilterProbe { generation: self.generation },
                    ),
                    Err(e) => Err(e),
                }
            }),
    {
        slot.publish_build(self.generation)
    }

    /// Disable this builder's generation.
    pub fn disable(self, slot: &mut RuntimeFilterSlot) -> (r: Result<(), LifecycleError>)
        requires
            self.wf(),
            old(slot).wf(),
        ensures
            final(slot).wf(),
            final(slot).bloom == old(slot).bloom,
            ({
                let outcome = change_outcome(
                    old(slot)@.lifecycle,
                    self.generation,
                    RuntimeFilterState::Building,
                    RuntimeFilterState::Disabled,
                );
                &&& changed(old(slot)@, final(slot)@, outcome)
                &&& r == match outcome {
                    Ok(_) => Ok::<(), LifecycleError>(()),
                    Err(e) => Err(e),
                }
            }),
    {
        slot.disable_build(self.generation)
    }

    /// Give the builder up: an active one disables its generation if that is
    /// still building. A second call does nothing.
    pub fn release(&mut self, slot: &mut RuntimeFilterSlot)
        requires
            old(self).wf(),
            old(slot).wf(),
        ensures
            *final(self) == (RuntimeFilterBuilder { active: false, ..*old(self) }),
            final(slot).wf(),
            final(slot).bloom == old(slot).bloom,
            !old(self).active ==> final(slot)@ == old(slot)@,
            old(self).active ==> changed(
                old(slot)@,
                final(slot)@,
                change_outcome(
                    old(slot)@.lifecycle,
                    old(self).generation,
                    RuntimeFilterState::Building,
                    RuntimeFilterState::Disabled,
                ),
            ),
    {
        if self.active {
            let _ = slot.disable_build(self.generation);
        }
        self.active = false;
    }
}

/// Probe handle for one generation.
#[derive(Clone, Copy, Debug, PartialEq, Eq)]
pub struct RuntimeFilterProbe {
    pub generation: u64,
}

impl RuntimeFilterProbe {
    /// Generation expected by this probe.
    pub fn generation(&self) -> (r: u64)
        ensures
            r == self.generation,
    {
        self.generation
    }

    /// Probe an integer value as an already-normalized key.
    pub fn decision_for_u64(&self, slot: &RuntimeFilterSlot, value: u64) -> (r: ProbeDecision)
        requires
            slot.wf(),
        ensures
            r == decision(
                slot@.lifecycle,
                self.generation,
                positions(slot.bloom.params, value).subset_of(slot@.bits),
            ),
    {
        self.decision_for_hash(slot, value)
    }

    /// Probe an already-hashed key.
    pub fn decision_for_hash(&self, slot: &RuntimeFilterSlot, hash: u64) -> (r: ProbeDecision)
        requires
            slot.wf(),
        ensures
            r == decision(
                slot@.lifecycle,
                self.generation,
                positions(slot.bloom.params, hash).subset_of(slot@.bits),
            ),
    {
        let snapshot: LifecycleSnapshot = slot.header.load();
        if snapshot.generation != self.generation || snapshot.state != RuntimeFilterState::Ready {
            return ProbeDecision::PassUnfiltered;
        }
        if slot.bloom.might_contain_hash(hash) {
            ProbeDecision::MaybePresent
        } else {
            ProbeDecision::DefinitelyAbsent
        }
    }

    /// Probe a null key. Nulls are never inserted, so that a ready filter of the
    /// right generation may reject them.
    pub fn decision_for_null(&self, slot: &RuntimeFilterSlot) -> (r: ProbeDecision)
        ensures
            r == decision(slot@.lifecycle, self.generation, false),
    {
        let snapshot: LifecycleSnapshot = slot.header.load();
        if snapshot.generation == self.generation && snapshot.state == RuntimeFilterState::Ready {
            ProbeDecision::DefinitelyAbsent
        } else {
            ProbeDecision::PassUnfiltered
        }
    }
}

/// A row may be skipped only while the probe's own generation is ready: free,
/// building, disabled and stale generations never reject.
pub proof fn law_only_ready_generation_rejects(
    current: LifecycleSnapshot,
    generation: u64,
    may_contain: bool,
)
    ensures
        decision(current, generation, may_contain) == ProbeDecision::DefinitelyAbsent <==> {
            &&& current == (LifecycleSnapshot { generation, state: RuntimeFilterState::Ready })
            &&& !may_contain
        },
{
}

/// A key that was inserted between acquisition and publication is never
/// rejected by the generation's probes.
pub proof fn law_inserted_key_is_kept(
    params: BloomParams,
    current: LifecycleSnapshot,
    generation: u64,
    hashes: Seq<u64>,
    i: int,
)
    requires
        0 <= i < hashes.len(),
    ensures
        decision(
            current,
            generation,
            positions(params, hashes[i]).subset_of(filled(params, Set::empty(), hashes)),
        ) != ProbeDecision::DefinitelyAbsent,
{
    law_no_false_negatives(params, Set::empty(), hashes, i);
}

/// A lifecycle never goes back: acquiring a builder raises the generation, no
/// other change alters it, so that a probe of an older generation passes rows
/// from then on.
pub proof fn law_generation_grows(
    current: LifecycleSnapshot,
    generation: u64,
    from: RuntimeFilterState,
    to: RuntimeFilterState,
)
    ensures
        acquire_outcome(current) matches Ok(next) ==> next.generation == current.generation + 1,
        change_outcome(current, generation, from, to) matches Ok(next) ==> next.generation
            == current.generation,
        forall|probe: u64, may_contain: bool|
            probe < current.generation ==> #[trigger] decision(current, probe, may_contain)
                == ProbeDecision::PassUnfiltered,
{
}

/// While a generation is building or ready no second builder gets the storage,
/// and a stale builder cannot change the state.
pub proof fn law_one_builder(
    current: LifecycleSnapshot,
    stale: u64,
    from: RuntimeFilterState,
    to: RuntimeFilterState,
)
    requires
        current.state == RuntimeFilterState::Building || current.state
            == RuntimeFilterState::Ready,
        stale != current.generation,
    ensures
        acquire_outcome(current) == Err::<LifecycleSnapshot, LifecycleError>(
            LifecycleError::Busy { snapshot: current },
        ),
        change_outcome(current, stale, from, to) is Err,
{
}

} // verus!

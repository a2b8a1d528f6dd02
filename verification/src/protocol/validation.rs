//! When producers and scan channels form a set.

use super::scan::{
    ProducerDescriptorWire, ProducerRole, ProducerSetError, ScanChannelDescriptorWire,
    ScanChannelSetError,
};
use vstd::prelude::*;

verus! {

/// Words of a bitmap with one bit per producer id.
pub const PRODUCER_ID_BITMAP_WORDS: usize = 1024;

/// What is wrong with the producer at `i`, given those in front of it: a second
/// leader counts before a repeated id.
pub open spec fn producer_fault_at(
    producers: Seq<ProducerDescriptorWire>,
    i: int,
) -> Option<ProducerSetError> {
    if producers[i].role == ProducerRole::Leader && (exists|j: int|
        0 <= j < i && (#[trigger] producers[j]).role == ProducerRole::Leader) {
        Some(ProducerSetError::MultipleLeaders)
    } else if exists|j: int|
        0 <= j < i && (#[trigger] producers[j]).producer_id == producers[i].producer_id {
        Some(ProducerSetError::DuplicateProducerId { producer_id: producers[i].producer_id })
    } else {
        None
    }
}

/// What is wrong with the first producer, from `i` on, with which something is.
pub open spec fn producer_fault_from(
    producers: Seq<ProducerDescriptorWire>,
    i: int,
) -> Option<ProducerSetError>
    decreases producers.len() - i,
{
    if i >= producers.len() {
        None
    } else if producer_fault_at(producers, i) is Some {
        producer_fault_at(producers, i)
    } else {
        producer_fault_from(producers, i + 1)
    }
}

/// Why a list of producers is not a set, if so.
pub open spec fn producer_set_fault(producers: Seq<ProducerDescriptorWire>) -> Option<
    ProducerSetError,
> {
    if producers.len() == 0 {
        Some(ProducerSetError::EmptyProducerSet)
    } else {
        producer_fault_from(producers, 0)
    }
}

/// A list of producers is a set exactly if it is not empty, no id occurs twice,
/// and at most one of them leads.
pub proof fn law_producer_set(producers: Seq<ProducerDescriptorWire>)
    ensures
        producer_set_fault(producers) is None <==> {
            &&& producers.len() > 0
            &&& forall|i: int, j: int|
                0 <= i < j < producers.len() ==> (#[trigger] producers[i]).producer_id != (
                #[trigger] producers[j]).producer_id
            &&& forall|i: int, j: int|
                0 <= i < j < producers.len() ==> !((#[trigger] producers[i]).role
                    == ProducerRole::Leader && (#[trigger] producers[j]).role
                    == ProducerRole::Leader)
        },
{
    lemma_producer_fault_from(producers, 0);
    if producer_set_fault(producers) is None {
        assert forall|i: int, j: int| 0 <= i < j < producers.len() implies (
        #[trigger] producers[i]).producer_id != (#[trigger] producers[j]).producer_id && !(
        producers[i].role == ProducerRole::Leader && producers[j].role == ProducerRole::Leader) by {
            assert(producer_fault_at(producers, j) is None);
        }
    } else if producers.len() > 0 {
        let j = choose|j: int|
            0 <= j < producers.len() && #[trigger] producer_fault_at(producers, j) is Some;
        let lead = producers[j].role == ProducerRole::Leader && (exists|i: int|
            0 <= i < j && (#[trigger] producers[i]).role == ProducerRole::Leader);
        if lead {
            let i = choose|i: int|
                0 <= i < j && (#[trigger] producers[i]).role == ProducerRole::Leader;
            assert(producers[i].role == ProducerRole::Leader);
        } else {
            let i = choose|i: int|
                0 <= i < j && (#[trigger] producers[i]).producer_id == producers[j].producer_id;
            assert(producers[i].producer_id == producers[j].producer_id);
        }
    }
}

proof fn lemma_producer_fault_from(producers: Seq<ProducerDescriptorWire>, from: int)
    requires
        0 <= from <= producers.len(),
    ensures
        producer_fault_from(producers, from) is None <==> forall|i: int|
            from <= i < producers.len() ==> #[trigger] producer_fault_at(producers, i) is None,
        producer_fault_from(producers, from) is Some ==> exists|i: int|
            from <= i < producers.len() && #[trigger] producer_fault_at(producers, i) is Some,
    decreases producers.len() - from,
{
    if from < producers.len() {
        lemma_producer_fault_from(producers, from + 1);
        assert(producer_fault_at(producers, from) is None || producer_fault_at(
            producers,
            from,
        ) is Some);
    }
}

/// A set of producer ids, one bit each.
pub struct ProducerIdBitmap {
    words: Vec<u64>,
}

impl View for ProducerIdBitmap {
    type V = Set<u16>;

    closed spec fn view(&self) -> Set<u16> {
        Set::new(|id: u16| bit_of(self.words@[id as int / 64], (id as int % 64) as u64))
    }
}

spec fn bit_of(word: u64, bit: u64) -> bool {
    word & (1u64 << bit) != 0
}

impl ProducerIdBitmap {
    pub closed spec fn wf(&self) -> bool {
        self.words@.len() == PRODUCER_ID_BITMAP_WORDS
    }

    pub fn new() -> (r: Self)
        ensures
            r.wf(),
            r@ == Set::<u16>::empty(),
    {
        let words: Vec<u64> = vec![0u64; PRODUCER_ID_BITMAP_WORDS];
        let r = ProducerIdBitmap { words };
        assert forall|id: u16| !r@.contains(id) by {
            let bit = (id as int % 64) as u64;
            assert(0u64 & (1u64 << bit) == 0) by (bit_vector);
        }
        assert(r@ =~= Set::<u16>::empty());
        r
    }

    /// Puts an id into the set; says whether it was not there.
    pub fn insert(&mut self, producer_id: u16) -> (r: bool)
        requires
            old(self).wf(),
        ensures
            final(self).wf(),
            r == !old(self)@.contains(producer_id),
            final(self)@ == old(self)@.insert(producer_id),
    {
        let word_index: usize = producer_id as usize / 64;
        let bit_index: u64 = (producer_id % 64) as u64;
        let bit: u64 = 1u64 << bit_index;
        let word: u64 = self.words[word_index];
        let was_absent: bool = (word & bit) == 0;
        self.words.set(word_index, word | bit);
        proof {
            assert forall|id: u16| self@.contains(id) == old(self)@.insert(producer_id).contains(
                id,
            ) by {
                let other = (id as int % 64) as u64;
                if id as int / 64 == word_index {
                    assert((word | (1u64 << bit_index)) & (1u64 << other) != 0 <==> (other
                        == bit_index || word & (1u64 << other) != 0)) by (bit_vector)
                        requires
                            bit_index < 64,
                            other < 64,
                    ;
                    assert(other == bit_index ==> id == producer_id);
                }
            }
            assert(self@ =~= old(self)@.insert(producer_id));
        }
        was_absent
    }
}

/// The ids of the first `n` producers.
pub open spec fn ids_before(producers: Seq<ProducerDescriptorWire>, n: int) -> Set<u16> {
    Set::new(|id: u16| exists|j: int|
        0 <= j < n && (#[trigger] producers[j]).producer_id == id)
}

/// One of the first `n` producers leads.
pub open spec fn leader_before(producers: Seq<ProducerDescriptorWire>, n: int) -> bool {
    exists|j: int| 0 <= j < n && (#[trigger] producers[j]).role == ProducerRole::Leader
}

/// Looks at one more producer of a list whose first `i` are in `seen_ids`.
pub(crate) fn observe_producer(
    seen_ids: &mut ProducerIdBitmap,
    leader_seen: &mut bool,
    producer: ProducerDescriptorWire,
    Ghost(producers): Ghost<Seq<ProducerDescriptorWire>>,
    Ghost(i): Ghost<int>,
) -> (r: Option<ProducerSetError>)
    requires
        old(seen_ids).wf(),
        0 <= i < producers.len(),
        producers[i] == producer,
        old(seen_ids)@ == ids_before(producers, i),
        *old(leader_seen) == leader_before(producers, i),
    ensures
        final(seen_ids).wf(),
        r == producer_fault_at(producers, i),
        r is None ==> final(seen_ids)@ == ids_before(producers, i + 1) && *final(leader_seen)
            == leader_before(producers, i + 1),
{
    if producer.role == ProducerRole::Leader {
        if *leader_seen {
            return Some(ProducerSetError::MultipleLeaders);
        }
        *leader_seen = true;
    }
    if !seen_ids.insert(producer.producer_id) {
        return Some(ProducerSetError::DuplicateProducerId { producer_id: producer.producer_id });
    }
    proof {
        assert(producers[i].producer_id == producer.producer_id);
        assert(seen_ids@ =~= ids_before(producers, i + 1)) by {
            assert forall|id: u16| seen_ids@.contains(id) == ids_before(
                producers,
                i + 1,
            ).contains(id) by {
                if ids_before(producers, i + 1).contains(id) {
                    let j = choose|j: int|
                        0 <= j < i + 1 && (#[trigger] producers[j]).producer_id == id;
                    assert(producers[j].producer_id == id);
                }
                if ids_before(producers, i).contains(id) {
                    let j = choose|j: int|
                        0 <= j < i && (#[trigger] producers[j]).producer_id == id;
                    assert(producers[j].producer_id == id);
                }
            }
        }
        assert(leader_before(producers, i + 1) == (leader_before(producers, i) || producer.role
            == ProducerRole::Leader)) by {
            if leader_before(producers, i + 1) {
                let j = choose|j: int|
                    0 <= j < i + 1 && (#[trigger] producers[j]).role == ProducerRole::Leader;
                assert(producers[j].role == ProducerRole::Leader);
            }
            if leader_before(producers, i) {
                let j = choose|j: int|
                    0 <= j < i && (#[trigger] producers[j]).role == ProducerRole::Leader;
                assert(producers[j].role == ProducerRole::Leader);
            }
            assert(producers[i].role == producer.role);
        }
    }
    None
}

/// Checks that a list of producers is a set.
pub fn validate_encode_producer_slice(producers: &[ProducerDescriptorWire]) -> (r: Result<
    (),
    ProducerSetError,
>)
    ensures
        r == match producer_set_fault(producers@) {
            Some(e) => Err::<(), ProducerSetError>(e),
            None => Ok(()),
        },
{
    if producers.len() == 0 {
        return Err(ProducerSetError::EmptyProducerSet);
    }
    let mut leader_seen: bool = false;
    let mut seen_ids: ProducerIdBitmap = ProducerIdBitmap::new();
    let mut i: usize = 0;
    assert(seen_ids@ =~= ids_before(producers@, 0));
    while i < producers.len()
        invariant
            i <= producers@.len(),
            seen_ids.wf(),
            seen_ids@ == ids_before(producers@, i as int),
            leader_seen == leader_before(producers@, i as int),
            producer_fault_from(producers@, 0) == producer_fault_from(producers@, i as int),
        decreases producers.len() - i,
    {
        match observe_producer(
            &mut seen_ids,
            &mut leader_seen,
            producers[i],
            Ghost(producers@),
            Ghost(i as int),
        ) {
            Some(error) => {
                return Err(error);
            },
            None => {},
        }
        i = i + 1;
    }
    Ok(())
}

/// What is known after some scan channels of a list.
#[derive(Clone, Copy, Debug)]
pub struct ScanChannelValidationState {
    pub previous: Option<(u64, u16)>,
    pub current_scan_id: Option<u64>,
    pub leader_seen: bool,
}

/// Nothing is known before the first channel.
pub open spec fn no_channel() -> ScanChannelValidationState {
    ScanChannelValidationState { previous: None, current_scan_id: None, leader_seen: false }
}

/// Why the scan that ended has no leader, if so.
pub open spec fn finish_fault(state: ScanChannelValidationState) -> Option<ScanChannelSetError> {
    match state.current_scan_id {
        Some(scan_id) => if state.leader_seen {
            None
        } else {
            Some(ScanChannelSetError::MissingLeader { scan_id })
        },
        None => None,
    }
}

/// The order of channels.
pub open spec fn channel_less(a: (u64, u16), b: (u64, u16)) -> bool {
    a.0 < b.0 || a.0 == b.0 && a.1 < b.1
}

/// What one more channel makes of the state, or what is wrong with it.
pub open spec fn observe_step(
    state: ScanChannelValidationState,
    current: ScanChannelDescriptorWire,
) -> Result<ScanChannelValidationState, ScanChannelSetError> {
    let key = (current.scan_id, current.producer_id);
    let fresh = state.current_scan_id != Some(current.scan_id);
    let leader_seen = !fresh && state.leader_seen;
    let previous = state.previous->0;
    if state.previous == Some(key) {
        Err(
            ScanChannelSetError::DuplicateProducer {
                scan_id: current.scan_id,
                producer_id: current.producer_id,
            },
        )
    } else if state.previous is Some && channel_less(key, previous) {
        Err(
            ScanChannelSetError::ChannelOutOfOrder {
                previous_scan_id: previous.0,
                previous_producer_id: previous.1,
                current_scan_id: current.scan_id,
                current_producer_id: current.producer_id,
            },
        )
    } else if fresh && finish_fault(state) is Some {
        Err(finish_fault(state)->0)
    } else if current.role == ProducerRole::Leader && leader_seen {
        Err(ScanChannelSetError::MultipleLeaders { scan_id: current.scan_id })
    } else {
        Ok(
            ScanChannelValidationState {
                previous: Some(key),
                current_scan_id: Some(current.scan_id),
                leader_seen: leader_seen || current.role == ProducerRole::Leader,
            },
        )
    }
}

/// The state after the first `n` channels, or what is wrong with the first of
/// them with which something is.
pub open spec fn observed(channels: Seq<ScanChannelDescriptorWire>, n: int) -> Result<
    ScanChannelValidationState,
    ScanChannelSetError,
>
    decreases n,
{
    if n <= 0 {
        Ok(no_channel())
    } else {
        match observed(channels, n - 1) {
            Err(e) => Err(e),
            Ok(state) => observe_step(state, channels[n - 1]),
        }
    }
}

/// Why a list of channels is not a set, if so.
pub open spec fn channel_set_fault(channels: Seq<ScanChannelDescriptorWire>) -> Option<
    ScanChannelSetError,
> {
    match observed(channels, channels.len() as int) {
        Err(e) => Some(e),
        Ok(state) => finish_fault(state),
    }
}

/// Looks at one more channel of a list.
pub fn observe_scan_channel(
    state: &mut ScanChannelValidationState,
    current: ScanChannelDescriptorWire,
) -> (r: Result<(), ScanChannelSetError>)
    ensures
        match observe_step(*old(state), current) {
            Ok(next) => r is Ok && *final(state) == next,
            Err(e) => r == Err::<(), ScanChannelSetError>(e),
        },
{
    if let Some((previous_scan_id, previous_producer_id)) = state.previous {
        if current.scan_id == previous_scan_id && current.producer_id == previous_producer_id {
            return Err(
                ScanChannelSetError::DuplicateProducer {
                    scan_id: current.scan_id,
                    producer_id: current.producer_id,
                },
            );
        }
        if current.scan_id < previous_scan_id || (current.scan_id == previous_scan_id
            && current.producer_id < previous_producer_id) {
            return Err(
                ScanChannelSetError::ChannelOutOfOrder {
                    previous_scan_id,
                    previous_producer_id,
                    current_scan_id: current.scan_id,
                    current_producer_id: current.producer_id,
                },
            );
        }
    }
    let fresh: bool = match state.current_scan_id {
        Some(scan_id) => scan_id != current.scan_id,
        None => true,
    };
    if fresh {
        match finish_scan_channel_validation(state) {
            Ok(()) => {},
            Err(e) => {
                return Err(e);
            },
        }
        state.current_scan_id = Some(current.scan_id);
        state.leader_seen = false;
    }
    if current.role == ProducerRole::Leader {
        if state.leader_seen {
            return Err(ScanChannelSetError::MultipleLeaders { scan_id: current.scan_id });
        }
        state.leader_seen = true;
    }
    state.previous = Some((current.scan_id, current.producer_id));
    Ok(())
}

/// Makes sure that the scan that ended has a leader.
pub fn finish_scan_channel_validation(state: &ScanChannelValidationState) -> (r: Result<
    (),
    ScanChannelSetError,
>)
    ensures
        r == match finish_fault(*state) {
            Some(e) => Err::<(), ScanChannelSetError>(e),
            None => Ok(()),
        },
{
    if let Some(scan_id) = state.current_scan_id {
        if !state.leader_seen {
            return Err(ScanChannelSetError::MissingLeader { scan_id });
        }
    }
    Ok(())
}

/// Checks that a list of channels is a set.
pub fn validate_scan_channel_slice(channels: &[ScanChannelDescriptorWire]) -> (r: Result<
    (),
    ScanChannelSetError,
>)
    ensures
        r == match channel_set_fault(channels@) {
            Some(e) => Err::<(), ScanChannelSetError>(e),
            None => Ok(()),
        },
{
    let mut state: ScanChannelValidationState = ScanChannelValidationState {
        previous: None,
        current_scan_id: None,
        leader_seen: false,
    };
    let mut i: usize = 0;
    while i < channels.len()
        invariant
            i <= channels@.len(),
            observed(channels@, i as int) == Ok::<ScanChannelValidationState, ScanChannelSetError>(
                state,
            ),
        decreases channels.len() - i,
    {
        match observe_scan_channel(&mut state, channels[i]) {
            Ok(()) => {},
            Err(e) => {
                proof {
                    lemma_observed_error_stays(channels@, i as int + 1);
                }
                return Err(e);
            },
        }
        i = i + 1;
    }
    finish_scan_channel_validation(&state)
}

/// An error in front of the list's end is the list's error.
pub proof fn lemma_observed_error_stays(channels: Seq<ScanChannelDescriptorWire>, n: int)
    requires
        0 <= n <= channels.len(),
        observed(channels, n) is Err,
    ensures
        observed(channels, channels.len() as int) == observed(channels, n),
    decreases channels.len() - n,
{
    if n < channels.len() {
        lemma_observed_error_stays(channels, n + 1);
    }
}

/// The channels of each scan stand together in a set of channels: keys strictly
/// increase.
pub open spec fn strictly_increasing(channels: Seq<ScanChannelDescriptorWire>, n: int) -> bool {
    forall|i: int, j: int|
        0 <= i < j < n ==> channel_less(
            ((#[trigger] channels[i]).scan_id, channels[i].producer_id),
            ((#[trigger] channels[j]).scan_id, channels[j].producer_id),
        )
}

/// Channel `i` leads its scan.
pub open spec fn leads(channels: Seq<ScanChannelDescriptorWire>, i: int, scan_id: u64) -> bool {
    channels[i].scan_id == scan_id && channels[i].role == ProducerRole::Leader
}

/// Exactly one of the first `n` channels leads the scan.
pub open spec fn has_one_leader(
    channels: Seq<ScanChannelDescriptorWire>,
    n: int,
    scan_id: u64,
) -> bool {
    &&& exists|i: int| 0 <= i < n && #[trigger] leads(channels, i, scan_id)
    &&& forall|i: int, j: int|
        0 <= i < j < n ==> !(#[trigger] leads(channels, i, scan_id) && #[trigger] leads(
            channels,
            j,
            scan_id,
        ))
}

proof fn lemma_observed(channels: Seq<ScanChannelDescriptorWire>, n: int)
    requires
        0 <= n <= channels.len(),
        observed(channels, n) is Ok,
    ensures
        ({
            let state = observed(channels, n)->Ok_0;
            &&& strictly_increasing(channels, n)
            &&& n == 0 ==> state == no_channel()
            &&& n > 0 ==> {
                let last = channels[n - 1];
                &&& state.previous == Some((last.scan_id, last.producer_id))
                &&& state.current_scan_id == Some(last.scan_id)
                &&& state.leader_seen == exists|i: int|
                    0 <= i < n && #[trigger] leads(channels, i, last.scan_id)
                &&& forall|i: int, j: int|
                    0 <= i < j < n ==> !(#[trigger] leads(channels, i, last.scan_id)
                        && #[trigger] leads(channels, j, last.scan_id))
                &&& forall|k: int|
                    0 <= k < n && (#[trigger] channels[k]).scan_id != last.scan_id
                        ==> has_one_leader(channels, n, channels[k].scan_id)
            }
        }),
    decreases n,
{
    if n > 0 {
        lemma_observed(channels, n - 1);
        let before = observed(channels, n - 1)->Ok_0;
        let after = observed(channels, n)->Ok_0;
        let last = channels[n - 1];
        if n == 1 {
            assert(leads(channels, 0, last.scan_id) == (last.role == ProducerRole::Leader));
        } else {
            let prev = channels[n - 2];
            assert forall|i: int, j: int| 0 <= i < j < n implies channel_less(
                ((#[trigger] channels[i]).scan_id, channels[i].producer_id),
                ((#[trigger] channels[j]).scan_id, channels[j].producer_id),
            ) by {
                if j == n - 1 && i < n - 2 {
                    assert(channel_less(
                        (channels[i].scan_id, channels[i].producer_id),
                        (channels[n - 2].scan_id, channels[n - 2].producer_id),
                    ));
                }
            }
            let fresh = last.scan_id != prev.scan_id;
            if fresh {
                assert forall|i: int| 0 <= i < n - 1 implies !#[trigger] leads(
                    channels,
                    i,
                    last.scan_id,
                ) by {
                    assert(channel_less(
                        (channels[i].scan_id, channels[i].producer_id),
                        (channels[n - 1].scan_id, channels[n - 1].producer_id),
                    ));
                    if i < n - 2 {
                        assert(channel_less(
                            (channels[i].scan_id, channels[i].producer_id),
                            (channels[n - 2].scan_id, channels[n - 2].producer_id),
                        ));
                    }
                }
                assert(leads(channels, n - 1, last.scan_id) == (last.role
                    == ProducerRole::Leader));
            } else {
                assert(leads(channels, n - 1, last.scan_id) == (last.role
                    == ProducerRole::Leader));
                if before.leader_seen {
                    let w = choose|i: int|
                        0 <= i < n - 1 && #[trigger] leads(channels, i, last.scan_id);
                    assert(leads(channels, w, last.scan_id));
                }
            }
            assert forall|k: int|
                0 <= k < n && (#[trigger] channels[k]).scan_id
                    != last.scan_id implies has_one_leader(channels, n, channels[k].scan_id) by {
                let id = channels[k].scan_id;
                assert(!leads(channels, n - 1, id));
                if id == prev.scan_id {
                    assert(finish_fault(before) is None);
                    let w = choose|i: int|
                        0 <= i < n - 1 && #[trigger] leads(channels, i, prev.scan_id);
                    assert(leads(channels, w, id));
                } else {
                    assert(has_one_leader(channels, n - 1, id));
                    let w = choose|i: int| 0 <= i < n - 1 && #[trigger] leads(channels, i, id);
                    assert(leads(channels, w, id));
                }
            }
        }
    }
}

/// A list of channels that is a set is strictly increasing, and each of its
/// scans has exactly one leader.
pub proof fn law_channel_set(channels: Seq<ScanChannelDescriptorWire>)
    requires
        channel_set_fault(channels) is None,
    ensures
        strictly_increasing(channels, channels.len() as int),
        forall|k: int|
            0 <= k < channels.len() ==> has_one_leader(
                channels,
                channels.len() as int,
                (#[trigger] channels[k]).scan_id,
            ),
{
    let n = channels.len() as int;
    lemma_observed(channels, n);
    assert forall|k: int| 0 <= k < n implies has_one_leader(
        channels,
        n,
        (#[trigger] channels[k]).scan_id,
    ) by {
        let last = channels[n - 1];
        if channels[k].scan_id == last.scan_id {
            let w = choose|i: int| 0 <= i < n && #[trigger] leads(channels, i, last.scan_id);
            assert(leads(channels, w, channels[k].scan_id));
        }
    }
}

/// A list of channels that is strictly increasing and in which each scan has
/// exactly one leader is a set.
pub proof fn law_channel_set_converse(channels: Seq<ScanChannelDescriptorWire>)
    requires
        strictly_increasing(channels, channels.len() as int),
        forall|k: int|
            0 <= k < channels.len() ==> has_one_leader(
                channels,
                channels.len() as int,
                (#[trigger] channels[k]).scan_id,
            ),
    ensures
        channel_set_fault(channels) is None,
{
    let n = channels.len() as int;
    lemma_observed_total(channels, n);
    if n > 0 {
        lemma_observed(channels, n);
        let last = channels[n - 1];
        assert(has_one_leader(channels, n, last.scan_id));
        let w = choose|i: int| 0 <= i < n && #[trigger] leads(channels, i, last.scan_id);
        assert(leads(channels, w, last.scan_id));
    }
}

proof fn lemma_observed_total(channels: Seq<ScanChannelDescriptorWire>, n: int)
    requires
        0 <= n <= channels.len(),
        strictly_increasing(channels, channels.len() as int),
        forall|k: int|
            0 <= k < channels.len() ==> has_one_leader(
                channels,
                channels.len() as int,
                (#[trigger] channels[k]).scan_id,
            ),
    ensures
        observed(channels, n) is Ok,
    decreases n,
{
    if n > 0 {
        lemma_observed_total(channels, n - 1);
        lemma_observed(channels, n - 1);
        let before = observed(channels, n - 1)->Ok_0;
        let last = channels[n - 1];
        if n > 1 {
            let prev = channels[n - 2];
            assert(channel_less(
                (channels[n - 2].scan_id, channels[n - 2].producer_id),
                (channels[n - 1].scan_id, channels[n - 1].producer_id),
            ));
            if last.scan_id != prev.scan_id {
                assert(has_one_leader(channels, channels.len() as int, prev.scan_id));
                let w = choose|i: int|
                    0 <= i < channels.len() && #[trigger] leads(channels, i, prev.scan_id);
                if w >= n - 1 {
                    if w > n - 1 {
                        assert(channel_less(
                            (channels[n - 1].scan_id, channels[n - 1].producer_id),
                            (channels[w].scan_id, channels[w].producer_id),
                        ));
                    }
                }
                assert(leads(channels, w, prev.scan_id));
            } else if last.role == ProducerRole::Leader && before.leader_seen {
                let w = choose|i: int|
                    0 <= i < n - 1 && #[trigger] leads(channels, i, last.scan_id);
                assert(has_one_leader(channels, channels.len() as int, last.scan_id));
                assert(leads(channels, w, last.scan_id) && leads(channels, n - 1, last.scan_id));
            }
        }
    }
}

} // verus!

//! The texts of errors tell the numbers that the errors hold.

use crate::control::error::{
    AttachError, ConfigError, InitError, LeaseError, RxError, SlotAccessError, TxError,
    WorkerLifecycleError,
};
use crate::filter::bloom::BloomAttachError;
use crate::filter::lifecycle::LifecycleError;
use crate::filter::pool::RuntimeFilterPoolAttachError;
use crate::metrics::region::MetricsError;
use crate::protocol::error::{DecodeError, EncodeError};
use crate::protocol::scan::{ProducerSetError, ScanChannelSetError};
use crate::text::decimal;
use crate::worker::error::missing_peer_text;
use crate::worker::scan_exec::partition_text;
use crate::worker::transport_scan_source::{
    no_producers_text, stream_count_text, wrong_terminal_text,
};
use vstd::prelude::*;

verus! {

/// The words hold no digit.
pub open spec fn no_digits(words: Seq<char>) -> bool {
    forall|i: int| 0 <= i < words.len() ==> !('0' <= #[trigger] words[i] <= '9')
}

/// Words with numbers in decimal between them.
pub open spec fn woven(words: Seq<Seq<char>>, numbers: Seq<nat>) -> Seq<char>
    decreases numbers.len(),
{
    if numbers.len() == 0 {
        words[0]
    } else {
        woven(words.drop_last(), numbers.drop_last()) + decimal(numbers.last()) + words.last()
    }
}

/// The text is these words with the numbers between them.
pub open spec fn spelled(text: Seq<char>, words: Seq<Seq<char>>, numbers: Seq<nat>) -> bool {
    &&& words.len() == numbers.len() + 1
    &&& forall|i: int| 0 <= i < words.len() ==> no_digits(#[trigger] words[i])
    &&& text == woven(words, numbers)
}

/// The text tells these numbers, in this order, and no others.
pub open spec fn tells(text: Seq<char>, numbers: Seq<nat>) -> bool {
    exists|words: Seq<Seq<char>>| #[trigger] spelled(text, words, numbers)
}

proof fn lemma_tells_one(p: Seq<char>, a: nat, q: Seq<char>)
    requires
        no_digits(p),
        no_digits(q),
    ensures
        tells(p + decimal(a) + q, seq![a]),
{
    reveal_with_fuel(woven, 2);
    let words = seq![p, q];
    assert(words.drop_last() =~= seq![p]);
    assert(seq![a].drop_last() =~= Seq::<nat>::empty());
    assert(spelled(p + decimal(a) + q, words, seq![a]));
}

proof fn lemma_woven_longer(words: Seq<Seq<char>>, numbers: Seq<nat>, n: nat, word: Seq<char>)
    ensures
        woven(words.push(word), numbers.push(n)) == woven(words, numbers) + decimal(n) + word,
{
    assert(words.push(word).drop_last() =~= words);
    assert(numbers.push(n).drop_last() =~= numbers);
}

proof fn lemma_tells_two(p: Seq<char>, a: nat, q: Seq<char>, b: nat, r: Seq<char>)
    requires
        no_digits(p),
        no_digits(q),
        no_digits(r),
    ensures
        tells(p + decimal(a) + q + decimal(b) + r, seq![a, b]),
{
    reveal_with_fuel(woven, 2);
    let words = seq![p, q];
    assert(words.drop_last() =~= seq![p]);
    assert(seq![a].drop_last() =~= Seq::<nat>::empty());
    lemma_woven_longer(words, seq![a], b, r);
    assert(seq![a].push(b) =~= seq![a, b]);
    assert(spelled(p + decimal(a) + q + decimal(b) + r, words.push(r), seq![a, b]));
}

proof fn lemma_tells_three(
    p: Seq<char>,
    a: nat,
    q: Seq<char>,
    b: nat,
    r: Seq<char>,
    c: nat,
    s: Seq<char>,
)
    requires
        no_digits(p),
        no_digits(q),
        no_digits(r),
        no_digits(s),
    ensures
        tells(p + decimal(a) + q + decimal(b) + r + decimal(c) + s, seq![a, b, c]),
{
    reveal_with_fuel(woven, 2);
    let words = seq![p, q];
    assert(words.drop_last() =~= seq![p]);
    assert(seq![a].drop_last() =~= Seq::<nat>::empty());
    lemma_woven_longer(words, seq![a], b, r);
    lemma_woven_longer(words.push(r), seq![a].push(b), c, s);
    assert(seq![a].push(b).push(c) =~= seq![a, b, c]);
    assert(spelled(
        p + decimal(a) + q + decimal(b) + r + decimal(c) + s,
        words.push(r).push(s),
        seq![a, b, c],
    ));
}

proof fn lemma_tells_four(
    p: Seq<char>,
    a: nat,
    q: Seq<char>,
    b: nat,
    r: Seq<char>,
    c: nat,
    s: Seq<char>,
    d: nat,
    t: Seq<char>,
)
    requires
        no_digits(p),
        no_digits(q),
        no_digits(r),
        no_digits(s),
        no_digits(t),
    ensures
        tells(p + decimal(a) + q + decimal(b) + r + decimal(c) + s + decimal(d) + t, seq![
            a,
            b,
            c,
            d,
        ]),
{
    reveal_with_fuel(woven, 2);
    let words = seq![p, q];
    assert(words.drop_last() =~= seq![p]);
    assert(seq![a].drop_last() =~= Seq::<nat>::empty());
    lemma_woven_longer(words, seq![a], b, r);
    lemma_woven_longer(words.push(r), seq![a].push(b), c, s);
    lemma_woven_longer(words.push(r).push(s), seq![a].push(b).push(c), d, t);
    assert(seq![a].push(b).push(c).push(d) =~= seq![a, b, c, d]);
    assert(spelled(
        p + decimal(a) + q + decimal(b) + r + decimal(c) + s + decimal(d) + t,
        words.push(r).push(s).push(t),
        seq![a, b, c, d],
    ));
}

/// The text of the error tells its numbers, each once and in this order.
pub proof fn law_config_error_tells_its_numbers(error: ConfigError)
    ensures
        error matches ConfigError::RingTooSmall { minimum, actual } ==> tells(
            error.text(),
            seq![actual as nat, minimum as nat],
        ),
        error matches ConfigError::RingTooLarge { maximum, actual } ==> tells(
            error.text(),
            seq![actual as nat, maximum as nat],
        ),
{
    match error {
        ConfigError::RingTooSmall { minimum, actual } => {
            reveal_strlit("ring capacity ");
            reveal_strlit(" is smaller than minimum ");
            lemma_tells_two(
                "ring capacity "@,
                actual as nat,
                " is smaller than minimum "@,
                minimum as nat,
                Seq::empty(),
            );
            assert(error.text() =~= error.text() + Seq::empty());
        },
        ConfigError::RingTooLarge { maximum, actual } => {
            reveal_strlit("ring capacity ");
            reveal_strlit(" exceeds maximum encodable size ");
            lemma_tells_two(
                "ring capacity "@,
                actual as nat,
                " exceeds maximum encodable size "@,
                maximum as nat,
                Seq::empty(),
            );
            assert(error.text() =~= error.text() + Seq::empty());
        },
        _ => {},
    }
}

/// The text of the error tells its numbers, each once and in this order.
pub proof fn law_init_error_tells_its_numbers(error: InitError)
    ensures
        error matches InitError::RegionTooSmall { expected, actual } ==> tells(
            error.text(),
            seq![expected as nat, actual as nat],
        ),
{
    match error {
        InitError::RegionTooSmall { expected, actual } => {
            reveal_strlit("control_transport region too small: expected at least ");
            reveal_strlit(" bytes, got ");
            lemma_tells_two(
                "control_transport region too small: expected at least "@,
                expected as nat,
                " bytes, got "@,
                actual as nat,
                Seq::empty(),
            );
            assert(error.text() =~= error.text() + Seq::empty());
        },
        _ => {},
    }
}

/// The text of the error tells its numbers, each once and in this order.
pub proof fn law_attach_error_tells_its_numbers(error: AttachError)
    ensures
        error matches AttachError::RegionTooSmall { expected, actual } ==> tells(
            error.text(),
            seq![expected as nat, actual as nat],
        ),
        error matches AttachError::UnsupportedVersion { expected, actual } ==> tells(
            error.text(),
            seq![actual as nat, expected as nat],
        ),
        error matches AttachError::LayoutMismatch { expected, actual } ==> tells(
            error.text(),
            seq![expected as nat, actual as nat],
        ),
{
    match error {
        AttachError::RegionTooSmall { expected, actual } => {
            reveal_strlit("control_transport region too small: expected at least ");
            reveal_strlit(" bytes, got ");
            lemma_tells_two(
                "control_transport region too small: expected at least "@,
                expected as nat,
                " bytes, got "@,
                actual as nat,
                Seq::empty(),
            );
            assert(error.text() =~= error.text() + Seq::empty());
        },
        AttachError::UnsupportedVersion { expected, actual } => {
            reveal_strlit("unsupported control_transport version ");
            reveal_strlit(", expected ");
            lemma_tells_two(
                "unsupported control_transport version "@,
                actual as nat,
                ", expected "@,
                expected as nat,
                Seq::empty(),
            );
            assert(error.text() =~= error.text() + Seq::empty());
        },
        AttachError::LayoutMismatch { expected, actual } => {
            reveal_strlit("control_transport region layout mismatch: expected ");
            reveal_strlit(" bytes, got ");
            lemma_tells_two(
                "control_transport region layout mismatch: expected "@,
                expected as nat,
                " bytes, got "@,
                actual as nat,
                Seq::empty(),
            );
            assert(error.text() =~= error.text() + Seq::empty());
        },
        _ => {},
    }
}

/// The text of the error tells its numbers, each once and in this order.
pub proof fn law_worker_lifecycle_error_tells_its_numbers(error: WorkerLifecycleError)
    ensures
        error matches WorkerLifecycleError::HandlesAlive { live_slots } ==> tells(
            error.text(),
            seq![live_slots as nat],
        ),
{
    match error {
        WorkerLifecycleError::HandlesAlive { live_slots } => {
            reveal_strlit("worker generation switch requires all local worker slots to be detached, but ");
            reveal_strlit(" are still alive");
            lemma_tells_one(
                "worker generation switch requires all local worker slots to be detached, but "@,
                live_slots as nat,
                " are still alive"@,
            );
        },
        _ => {},
    }
}

/// The text of the error tells its numbers, each once and in this order.
pub proof fn law_lease_error_tells_its_numbers(error: LeaseError)
    ensures
        error matches LeaseError::StaleGeneration {
            slot_id,
            claimed_generation,
            current_generation,
        } ==> tells(
            error.text(),
            seq![slot_id as nat, claimed_generation as nat, current_generation as nat],
        ),
        error matches LeaseError::StaleLeaseEpoch {
            slot_id,
            claimed_generation,
            claimed_lease_epoch,
            current_lease_epoch,
        } ==> tells(
            error.text(),
            seq![
                slot_id as nat,
                claimed_generation as nat,
                claimed_lease_epoch as nat,
                current_lease_epoch as nat,
            ],
        ),
        error matches LeaseError::Released { slot_id, claimed_generation } ==> tells(
            error.text(),
            seq![slot_id as nat, claimed_generation as nat],
        ),
{
    match error {
        LeaseError::StaleGeneration { slot_id, claimed_generation, current_generation } => {
            reveal_strlit("slot ");
            reveal_strlit(" belongs to generation ");
            reveal_strlit(", but current generation is ");
            lemma_tells_three(
                "slot "@,
                slot_id as nat,
                " belongs to generation "@,
                claimed_generation as nat,
                ", but current generation is "@,
                current_generation as nat,
                Seq::empty(),
            );
            assert(error.text() =~= error.text() + Seq::empty());
        },
        LeaseError::StaleLeaseEpoch {
            slot_id,
            claimed_generation,
            claimed_lease_epoch,
            current_lease_epoch,
        } => {
            reveal_strlit("slot ");
            reveal_strlit(" from generation ");
            reveal_strlit(" belongs to lease epoch ");
            reveal_strlit(", but current lease epoch is ");
            lemma_tells_four(
                "slot "@,
                slot_id as nat,
                " from generation "@,
                claimed_generation as nat,
                " belongs to lease epoch "@,
                claimed_lease_epoch as nat,
                ", but current lease epoch is "@,
                current_lease_epoch as nat,
                Seq::empty(),
            );
            assert(error.text() =~= error.text() + Seq::empty());
        },
        LeaseError::Released { slot_id, claimed_generation } => {
            reveal_strlit("slot ");
            reveal_strlit(" from generation ");
            reveal_strlit(" is no longer leased");
            lemma_tells_two(
                "slot "@,
                slot_id as nat,
                " from generation "@,
                claimed_generation as nat,
                " is no longer leased"@,
            );
        },
        _ => {},
    }
}

/// The text of the error tells its numbers, each once and in this order.
pub proof fn law_slot_access_error_tells_its_numbers(error: SlotAccessError)
    ensures
        error matches SlotAccessError::BadSlotId { slot_id, slot_count } ==> tells(
            error.text(),
            seq![slot_id as nat, slot_count as nat],
        ),
        error matches SlotAccessError::Busy { slot_id, claimed_generation } ==> tells(
            error.text(),
            seq![slot_id as nat, claimed_generation as nat],
        ),
        error matches SlotAccessError::StaleGeneration {
            slot_id,
            claimed_generation,
            current_generation,
        } ==> tells(
            error.text(),
            seq![slot_id as nat, claimed_generation as nat, current_generation as nat],
        ),
        error matches SlotAccessError::StaleLeaseEpoch {
            slot_id,
            claimed_generation,
            claimed_lease_epoch,
            current_lease_epoch,
        } ==> tells(
            error.text(),
            seq![
                slot_id as nat,
                claimed_generation as nat,
                claimed_lease_epoch as nat,
                current_lease_epoch as nat,
            ],
        ),
        error matches SlotAccessError::Released { slot_id, claimed_generation } ==> tells(
            error.text(),
            seq![slot_id as nat, claimed_generation as nat],
        ),
{
    match error {
        SlotAccessError::BadSlotId { slot_id, slot_count } => {
            reveal_strlit("slot id ");
            reveal_strlit(" is out of range for slot_count ");
            lemma_tells_two(
                "slot id "@,
                slot_id as nat,
                " is out of range for slot_count "@,
                slot_count as nat,
                Seq::empty(),
            );
            assert(error.text() =~= error.text() + Seq::empty());
        },
        SlotAccessError::Busy { slot_id, claimed_generation } => {
            reveal_strlit("slot ");
            reveal_strlit(" from generation ");
            reveal_strlit(" is already claimed by a worker");
            lemma_tells_two(
                "slot "@,
                slot_id as nat,
                " from generation "@,
                claimed_generation as nat,
                " is already claimed by a worker"@,
            );
        },
        SlotAccessError::StaleGeneration {
            slot_id,
            claimed_generation,
            current_generation,
        } => {
            reveal_strlit("slot ");
            reveal_strlit(" handle claimed generation ");
            reveal_strlit(", but current generation is ");
            lemma_tells_three(
                "slot "@,
                slot_id as nat,
                " handle claimed generation "@,
                claimed_generation as nat,
                ", but current generation is "@,
                current_generation as nat,
                Seq::empty(),
            );
            assert(error.text() =~= error.text() + Seq::empty());
        },
        SlotAccessError::StaleLeaseEpoch {
            slot_id,
            claimed_generation,
            claimed_lease_epoch,
            current_lease_epoch,
        } => {
            reveal_strlit("slot ");
            reveal_strlit(" handle from generation ");
            reveal_strlit(" claimed lease epoch ");
            reveal_strlit(", but current lease epoch is ");
            lemma_tells_four(
                "slot "@,
                slot_id as nat,
                " handle from generation "@,
                claimed_generation as nat,
                " claimed lease epoch "@,
                claimed_lease_epoch as nat,
                ", but current lease epoch is "@,
                current_lease_epoch as nat,
                Seq::empty(),
            );
            assert(error.text() =~= error.text() + Seq::empty());
        },
        SlotAccessError::Released { slot_id, claimed_generation } => {
            reveal_strlit("slot ");
            reveal_strlit(" from generation ");
            reveal_strlit(" is no longer leased");
            lemma_tells_two(
                "slot "@,
                slot_id as nat,
                " from generation "@,
                claimed_generation as nat,
                " is no longer leased"@,
            );
        },
        _ => {},
    }
}

/// The text of the error tells its numbers, each once and in this order.
pub proof fn law_tx_error_tells_its_numbers(error: TxError)
    ensures
        error matches TxError::PayloadTooLarge { actual, maximum } ==> tells(
            error.text(),
            seq![actual as nat, maximum as nat],
        ),
        error matches TxError::Full { required, available } ==> tells(
            error.text(),
            seq![required as nat, available as nat],
        ),
        error matches TxError::CorruptState { head, tail, capacity } ==> tells(
            error.text(),
            seq![head as nat, tail as nat, capacity as nat],
        ),
{
    match error {
        TxError::PayloadTooLarge { actual, maximum } => {
            reveal_strlit("frame payload length ");
            reveal_strlit(" exceeds maximum encodable size ");
            lemma_tells_two(
                "frame payload length "@,
                actual as nat,
                " exceeds maximum encodable size "@,
                maximum as nat,
                Seq::empty(),
            );
            assert(error.text() =~= error.text() + Seq::empty());
        },
        TxError::Full { required, available } => {
            reveal_strlit("control ring is full: need ");
            reveal_strlit(" bytes, only ");
            reveal_strlit(" available");
            lemma_tells_two(
                "control ring is full: need "@,
                required as nat,
                " bytes, only "@,
                available as nat,
                " available"@,
            );
        },
        TxError::CorruptState { head, tail, capacity } => {
            reveal_strlit("control ring has corrupt state head=");
            reveal_strlit(" tail=");
            reveal_strlit(" capacity=");
            lemma_tells_three(
                "control ring has corrupt state head="@,
                head as nat,
                " tail="@,
                tail as nat,
                " capacity="@,
                capacity as nat,
                Seq::empty(),
            );
            assert(error.text() =~= error.text() + Seq::empty());
        },
        _ => {},
    }
}

/// The text of the error tells its numbers, each once and in this order.
pub proof fn law_rx_error_tells_its_numbers(error: RxError)
    ensures
        error matches RxError::BufferTooSmall { required, available } ==> tells(
            error.text(),
            seq![required as nat, available as nat],
        ),
        error matches RxError::CorruptState { head, tail, capacity } ==> tells(
            error.text(),
            seq![head as nat, tail as nat, capacity as nat],
        ),
        error matches RxError::CorruptFrameLen { len, available, capacity } ==> tells(
            error.text(),
            seq![len as nat, available as nat, capacity as nat],
        ),
{
    match error {
        RxError::BufferTooSmall { required, available } => {
            reveal_strlit("destination buffer is too small for next frame: need ");
            reveal_strlit(" bytes, only ");
            reveal_strlit(" available");
            lemma_tells_two(
                "destination buffer is too small for next frame: need "@,
                required as nat,
                " bytes, only "@,
                available as nat,
                " available"@,
            );
        },
        RxError::CorruptState { head, tail, capacity } => {
            reveal_strlit("control ring has corrupt state head=");
            reveal_strlit(" tail=");
            reveal_strlit(" capacity=");
            lemma_tells_three(
                "control ring has corrupt state head="@,
                head as nat,
                " tail="@,
                tail as nat,
                " capacity="@,
                capacity as nat,
                Seq::empty(),
            );
            assert(error.text() =~= error.text() + Seq::empty());
        },
        RxError::CorruptFrameLen { len, available, capacity } => {
            reveal_strlit("control ring has corrupt frame length ");
            reveal_strlit(" with ");
            reveal_strlit(" available bytes and capacity ");
            lemma_tells_three(
                "control ring has corrupt frame length "@,
                len as nat,
                " with "@,
                available as nat,
                " available bytes and capacity "@,
                capacity as nat,
                Seq::empty(),
            );
            assert(error.text() =~= error.text() + Seq::empty());
        },
        _ => {},
    }
}

/// The text of the error tells its numbers, each once and in this order.
pub proof fn law_bloom_attach_error_tells_its_numbers(error: BloomAttachError)
    ensures
        error matches BloomAttachError::InsufficientWords { required, actual } ==> tells(
            error.text(),
            seq![actual as nat, required as nat],
        ),
{
    match error {
        BloomAttachError::InsufficientWords { required, actual } => {
            reveal_strlit("bloom filter storage has ");
            reveal_strlit(" words, but ");
            reveal_strlit(" are required");
            lemma_tells_two(
                "bloom filter storage has "@,
                actual as nat,
                " words, but "@,
                required as nat,
                " are required"@,
            );
        },
        _ => {},
    }
}

/// The text of the error tells its numbers, each once and in this order.
pub proof fn law_lifecycle_error_tells_its_numbers(error: LifecycleError)
    ensures
        error matches LifecycleError::GenerationExhausted { generation } ==> tells(
            error.text(),
            seq![generation as nat],
        ),
{
    match error {
        LifecycleError::GenerationExhausted { generation } => {
            reveal_strlit("runtime filter generation ");
            reveal_strlit(" cannot advance without overflowing");
            lemma_tells_one(
                "runtime filter generation "@,
                generation as nat,
                " cannot advance without overflowing"@,
            );
        },
        _ => {},
    }
}

/// The text of the error tells its numbers, each once and in this order.
pub proof fn law_runtime_filter_pool_attach_error_tells_its_numbers(error: RuntimeFilterPoolAttachError)
    ensures
        error matches RuntimeFilterPoolAttachError::Misaligned { required, actual } ==> tells(
            error.text(),
            seq![actual as nat, required as nat],
        ),
        error matches RuntimeFilterPoolAttachError::TooSmall { required, actual } ==> tells(
            error.text(),
            seq![actual as nat, required as nat],
        ),
        error matches RuntimeFilterPoolAttachError::InvalidVersion { expected, actual } ==> tells(
            error.text(),
            seq![expected as nat, actual as nat],
        ),
{
    match error {
        RuntimeFilterPoolAttachError::Misaligned { required, actual } => {
            reveal_strlit("runtime filter pool base alignment ");
            reveal_strlit(" does not satisfy ");
            lemma_tells_two(
                "runtime filter pool base alignment "@,
                actual as nat,
                " does not satisfy "@,
                required as nat,
                Seq::empty(),
            );
            assert(error.text() =~= error.text() + Seq::empty());
        },
        RuntimeFilterPoolAttachError::TooSmall { required, actual } => {
            reveal_strlit("runtime filter pool region has ");
            reveal_strlit(" bytes, but ");
            reveal_strlit(" are required");
            lemma_tells_two(
                "runtime filter pool region has "@,
                actual as nat,
                " bytes, but "@,
                required as nat,
                " are required"@,
            );
        },
        RuntimeFilterPoolAttachError::InvalidVersion { expected, actual } => {
            reveal_strlit("runtime filter pool version mismatch: expected ");
            reveal_strlit(", got ");
            lemma_tells_two(
                "runtime filter pool version mismatch: expected "@,
                expected as nat,
                ", got "@,
                actual as nat,
                Seq::empty(),
            );
            assert(error.text() =~= error.text() + Seq::empty());
        },
        _ => {},
    }
}

/// The text of the error tells its numbers, each once and in this order.
pub proof fn law_metrics_error_tells_its_numbers(error: MetricsError)
    ensures
        error matches MetricsError::RegionTooSmall { expected, actual } ==> tells(
            error.text(),
            seq![expected as nat, actual as nat],
        ),
        error matches MetricsError::BadAlignment { expected, actual } ==> tells(
            error.text(),
            seq![expected as nat, actual as nat],
        ),
        error matches MetricsError::UnsupportedVersion { expected, actual } ==> tells(
            error.text(),
            seq![expected as nat, actual as nat],
        ),
        error matches MetricsError::MetricCountMismatch { expected, actual } ==> tells(
            error.text(),
            seq![expected as nat, actual as nat],
        ),
        error matches MetricsError::LayoutMismatch { expected, actual } ==> tells(
            error.text(),
            seq![expected as nat, actual as nat],
        ),
{
    match error {
        MetricsError::RegionTooSmall { expected, actual } => {
            reveal_strlit("runtime metrics region too small: expected ");
            reveal_strlit(", got ");
            lemma_tells_two(
                "runtime metrics region too small: expected "@,
                expected as nat,
                ", got "@,
                actual as nat,
                Seq::empty(),
            );
            assert(error.text() =~= error.text() + Seq::empty());
        },
        MetricsError::BadAlignment { expected, actual } => {
            reveal_strlit("runtime metrics region has bad alignment: expected ");
            reveal_strlit(", got ");
            lemma_tells_two(
                "runtime metrics region has bad alignment: expected "@,
                expected as nat,
                ", got "@,
                actual as nat,
                Seq::empty(),
            );
            assert(error.text() =~= error.text() + Seq::empty());
        },
        MetricsError::UnsupportedVersion { expected, actual } => {
            reveal_strlit("runtime metrics unsupported version: expected ");
            reveal_strlit(", got ");
            lemma_tells_two(
                "runtime metrics unsupported version: expected "@,
                expected as nat,
                ", got "@,
                actual as nat,
                Seq::empty(),
            );
            assert(error.text() =~= error.text() + Seq::empty());
        },
        MetricsError::MetricCountMismatch { expected, actual } => {
            reveal_strlit("runtime metrics metric count mismatch: expected ");
            reveal_strlit(", got ");
            lemma_tells_two(
                "runtime metrics metric count mismatch: expected "@,
                expected as nat,
                ", got "@,
                actual as nat,
                Seq::empty(),
            );
            assert(error.text() =~= error.text() + Seq::empty());
        },
        MetricsError::LayoutMismatch { expected, actual } => {
            reveal_strlit("runtime metrics layout mismatch: expected ");
            reveal_strlit(", got ");
            lemma_tells_two(
                "runtime metrics layout mismatch: expected "@,
                expected as nat,
                ", got "@,
                actual as nat,
                Seq::empty(),
            );
            assert(error.text() =~= error.text() + Seq::empty());
        },
        _ => {},
    }
}

/// The text of the error tells its numbers, each once and in this order.
pub proof fn law_scan_channel_set_error_tells_its_numbers(error: ScanChannelSetError)
    ensures
        error matches ScanChannelSetError::DuplicateProducer { scan_id, producer_id } ==> tells(
            error.text(),
            seq![scan_id as nat, producer_id as nat],
        ),
        error matches ScanChannelSetError::ChannelOutOfOrder {
            previous_scan_id,
            previous_producer_id,
            current_scan_id,
            current_producer_id,
        } ==> tells(
            error.text(),
            seq![
                previous_scan_id as nat,
                previous_producer_id as nat,
                current_scan_id as nat,
                current_producer_id as nat,
            ],
        ),
        error matches ScanChannelSetError::MultipleLeaders { scan_id } ==> tells(
            error.text(),
            seq![scan_id as nat],
        ),
        error matches ScanChannelSetError::MissingLeader { scan_id } ==> tells(
            error.text(),
            seq![scan_id as nat],
        ),
{
    match error {
        ScanChannelSetError::DuplicateProducer { scan_id, producer_id } => {
            reveal_strlit("duplicate scan channel for scan_id ");
            reveal_strlit(", producer_id ");
            lemma_tells_two(
                "duplicate scan channel for scan_id "@,
                scan_id as nat,
                ", producer_id "@,
                producer_id as nat,
                Seq::empty(),
            );
            assert(error.text() =~= error.text() + Seq::empty());
        },
        ScanChannelSetError::ChannelOutOfOrder {
            previous_scan_id,
            previous_producer_id,
            current_scan_id,
            current_producer_id,
        } => {
            reveal_strlit("scan channel set is not sorted by scan_id/producer_id: previous=(");
            reveal_strlit(", ");
            reveal_strlit("), current=(");
            reveal_strlit(", ");
            reveal_strlit(")");
            lemma_tells_four(
                "scan channel set is not sorted by scan_id/producer_id: previous=("@,
                previous_scan_id as nat,
                ", "@,
                previous_producer_id as nat,
                "), current=("@,
                current_scan_id as nat,
                ", "@,
                current_producer_id as nat,
                ")"@,
            );
        },
        ScanChannelSetError::MultipleLeaders { scan_id } => {
            reveal_strlit("scan channel set declares multiple leader producers for scan_id ");
            lemma_tells_one(
                "scan channel set declares multiple leader producers for scan_id "@,
                scan_id as nat,
                Seq::empty(),
            );
            assert(error.text() =~= error.text() + Seq::empty());
        },
        ScanChannelSetError::MissingLeader { scan_id } => {
            reveal_strlit("scan channel set declares no leader producer for scan_id ");
            lemma_tells_one(
                "scan channel set declares no leader producer for scan_id "@,
                scan_id as nat,
                Seq::empty(),
            );
            assert(error.text() =~= error.text() + Seq::empty());
        },
        _ => {},
    }
}

/// The text of the error tells its numbers, each once and in this order.
pub proof fn law_producer_set_error_tells_its_numbers(error: ProducerSetError)
    ensures
        error matches ProducerSetError::DuplicateProducerId { producer_id } ==> tells(
            error.text(),
            seq![producer_id as nat],
        ),
{
    match error {
        ProducerSetError::DuplicateProducerId { producer_id } => {
            reveal_strlit("duplicate producer id ");
            reveal_strlit(" in scan open");
            lemma_tells_one(
                "duplicate producer id "@,
                producer_id as nat,
                " in scan open"@,
            );
        },
        _ => {},
    }
}

/// The text of the error tells its numbers, each once and in this order.
pub proof fn law_encode_error_tells_its_numbers(error: EncodeError)
    ensures
        error matches EncodeError::BufferTooSmall { expected, actual } ==> tells(
            error.text(),
            seq![expected as nat, actual as nat],
        ),
        error matches EncodeError::TooManyProducers { count } ==> tells(
            error.text(),
            seq![count as nat],
        ),
        error matches EncodeError::TooManyScanChannels { count } ==> tells(
            error.text(),
            seq![count as nat],
        ),
        error matches EncodeError::ScanFailureMessageTooLong { actual, maximum } ==> tells(
            error.text(),
            seq![actual as nat, maximum as nat],
        ),
{
    match error {
        EncodeError::BufferTooSmall { expected, actual } => {
            reveal_strlit("output buffer too small: expected at least ");
            reveal_strlit(" bytes, got ");
            lemma_tells_two(
                "output buffer too small: expected at least "@,
                expected as nat,
                " bytes, got "@,
                actual as nat,
                Seq::empty(),
            );
            assert(error.text() =~= error.text() + Seq::empty());
        },
        EncodeError::TooManyProducers { count } => {
            reveal_strlit("too many scan producers to encode: ");
            lemma_tells_one(
                "too many scan producers to encode: "@,
                count as nat,
                Seq::empty(),
            );
            assert(error.text() =~= error.text() + Seq::empty());
        },
        EncodeError::TooManyScanChannels { count } => {
            reveal_strlit("too many scan channels to encode: ");
            lemma_tells_one(
                "too many scan channels to encode: "@,
                count as nat,
                Seq::empty(),
            );
            assert(error.text() =~= error.text() + Seq::empty());
        },
        EncodeError::ScanFailureMessageTooLong { actual, maximum } => {
            reveal_strlit("scan failure message is too long: ");
            reveal_strlit(" bytes exceeds maximum ");
            lemma_tells_two(
                "scan failure message is too long: "@,
                actual as nat,
                " bytes exceeds maximum "@,
                maximum as nat,
                Seq::empty(),
            );
            assert(error.text() =~= error.text() + Seq::empty());
        },
        _ => {},
    }
}

/// The text of the error tells its numbers, each once and in this order.
pub proof fn law_decode_error_tells_its_numbers(error: DecodeError)
    ensures
        error matches DecodeError::InvalidArrayLen { expected, actual } ==> tells(
            error.text(),
            seq![expected as nat, actual as nat],
        ),
        error matches DecodeError::TruncatedEnvelope { expected, actual } ==> tells(
            error.text(),
            seq![expected as nat, actual as nat],
        ),
        error matches DecodeError::UnsupportedVersion { expected, actual } ==> tells(
            error.text(),
            seq![expected as nat, actual as nat],
        ),
        error matches DecodeError::UnexpectedMessageFamily { actual } ==> tells(
            error.text(),
            seq![actual as nat],
        ),
        error matches DecodeError::UnexpectedTag { actual } ==> tells(
            error.text(),
            seq![actual as nat],
        ),
        error matches DecodeError::InvalidFailureCode { actual } ==> tells(
            error.text(),
            seq![actual as nat],
        ),
        error matches DecodeError::InvalidProducerRole { actual } ==> tells(
            error.text(),
            seq![actual as nat],
        ),
        error matches DecodeError::DuplicateScanProducer { scan_id, producer_id } ==> tells(
            error.text(),
            seq![scan_id as nat, producer_id as nat],
        ),
        error matches DecodeError::ScanChannelOutOfOrder {
            previous_scan_id,
            previous_producer_id,
            current_scan_id,
            current_producer_id,
        } ==> tells(
            error.text(),
            seq![
                previous_scan_id as nat,
                previous_producer_id as nat,
                current_scan_id as nat,
                current_producer_id as nat,
            ],
        ),
        error matches DecodeError::MultipleScanChannelLeaders { scan_id } ==> tells(
            error.text(),
            seq![scan_id as nat],
        ),
        error matches DecodeError::MissingScanChannelLeader { scan_id } ==> tells(
            error.text(),
            seq![scan_id as nat],
        ),
        error matches DecodeError::DuplicateProducerId { producer_id } ==> tells(
            error.text(),
            seq![producer_id as nat],
        ),
        error matches DecodeError::TrailingBytes { remaining } ==> tells(
            error.text(),
            seq![remaining as nat],
        ),
{
    match error {
        DecodeError::InvalidArrayLen { expected, actual } => {
            reveal_strlit("protocol array expected length ");
            reveal_strlit(", got ");
            lemma_tells_two(
                "protocol array expected length "@,
                expected as nat,
                ", got "@,
                actual as nat,
                Seq::empty(),
            );
            assert(error.text() =~= error.text() + Seq::empty());
        },
        DecodeError::TruncatedEnvelope { expected, actual } => {
            reveal_strlit("runtime envelope is truncated: expected at least ");
            reveal_strlit(" bytes, got ");
            lemma_tells_two(
                "runtime envelope is truncated: expected at least "@,
                expected as nat,
                " bytes, got "@,
                actual as nat,
                Seq::empty(),
            );
            assert(error.text() =~= error.text() + Seq::empty());
        },
        DecodeError::UnsupportedVersion { expected, actual } => {
            reveal_strlit("unsupported runtime protocol version: expected ");
            reveal_strlit(", got ");
            lemma_tells_two(
                "unsupported runtime protocol version: expected "@,
                expected as nat,
                ", got "@,
                actual as nat,
                Seq::empty(),
            );
            assert(error.text() =~= error.text() + Seq::empty());
        },
        DecodeError::UnexpectedMessageFamily { actual } => {
            reveal_strlit("unexpected runtime message family ");
            lemma_tells_one(
                "unexpected runtime message family "@,
                actual as nat,
                Seq::empty(),
            );
            assert(error.text() =~= error.text() + Seq::empty());
        },
        DecodeError::UnexpectedTag { actual } => {
            reveal_strlit("unexpected message tag ");
            lemma_tells_one(
                "unexpected message tag "@,
                actual as nat,
                Seq::empty(),
            );
            assert(error.text() =~= error.text() + Seq::empty());
        },
        DecodeError::InvalidFailureCode { actual } => {
            reveal_strlit("invalid failure code ");
            lemma_tells_one(
                "invalid failure code "@,
                actual as nat,
                Seq::empty(),
            );
            assert(error.text() =~= error.text() + Seq::empty());
        },
        DecodeError::InvalidProducerRole { actual } => {
            reveal_strlit("invalid producer role ");
            lemma_tells_one(
                "invalid producer role "@,
                actual as nat,
                Seq::empty(),
            );
            assert(error.text() =~= error.text() + Seq::empty());
        },
        DecodeError::DuplicateScanProducer { scan_id, producer_id } => {
            reveal_strlit("duplicate scan channel for scan_id ");
            reveal_strlit(", producer_id ");
            lemma_tells_two(
                "duplicate scan channel for scan_id "@,
                scan_id as nat,
                ", producer_id "@,
                producer_id as nat,
                Seq::empty(),
            );
            assert(error.text() =~= error.text() + Seq::empty());
        },
        DecodeError::ScanChannelOutOfOrder {
            previous_scan_id,
            previous_producer_id,
            current_scan_id,
            current_producer_id,
        } => {
            reveal_strlit("scan channel set is not sorted by scan_id/producer_id: previous=(");
            reveal_strlit(", ");
            reveal_strlit("), current=(");
            reveal_strlit(", ");
            reveal_strlit(")");
            lemma_tells_four(
                "scan channel set is not sorted by scan_id/producer_id: previous=("@,
                previous_scan_id as nat,
                ", "@,
                previous_producer_id as nat,
                "), current=("@,
                current_scan_id as nat,
                ", "@,
                current_producer_id as nat,
                ")"@,
            );
        },
        DecodeError::MultipleScanChannelLeaders { scan_id } => {
            reveal_strlit("scan channel set declares multiple leader producers for scan_id ");
            lemma_tells_one(
                "scan channel set declares multiple leader producers for scan_id "@,
                scan_id as nat,
                Seq::empty(),
            );
            assert(error.text() =~= error.text() + Seq::empty());
        },
        DecodeError::MissingScanChannelLeader { scan_id } => {
            reveal_strlit("scan channel set declares no leader producer for scan_id ");
            lemma_tells_one(
                "scan channel set declares no leader producer for scan_id "@,
                scan_id as nat,
                Seq::empty(),
            );
            assert(error.text() =~= error.text() + Seq::empty());
        },
        DecodeError::DuplicateProducerId { producer_id } => {
            reveal_strlit("duplicate producer id ");
            reveal_strlit(" in scan open");
            lemma_tells_one(
                "duplicate producer id "@,
                producer_id as nat,
                " in scan open"@,
            );
        },
        DecodeError::TrailingBytes { remaining } => {
            reveal_strlit("decoded payload has trailing bytes: ");
            lemma_tells_one(
                "decoded payload has trailing bytes: "@,
                remaining as nat,
                Seq::empty(),
            );
            assert(error.text() =~= error.text() + Seq::empty());
        },
        _ => {},
    }
}

/// What a worker says of a scan tells which scan, and what was found and what was
/// expected, in this order.
pub proof fn law_scan_texts_tell_their_numbers(
    session_epoch: u64,
    scan_id: u64,
    expected_epoch: u64,
    expected_scan: u64,
    streams: nat,
    producers: nat,
    partition: usize,
)
    ensures
        tells(missing_peer_text(scan_id), seq![scan_id as nat]),
        tells(partition_text(partition), seq![partition as nat]),
        tells(no_producers_text(scan_id), seq![scan_id as nat]),
        tells(
            stream_count_text(scan_id, streams, producers),
            seq![scan_id as nat, streams, producers],
        ),
        tells(
            wrong_terminal_text(session_epoch, scan_id, expected_epoch, expected_scan),
            seq![
                session_epoch as nat,
                scan_id as nat,
                expected_epoch as nat,
                expected_scan as nat,
            ],
        ),
{
    reveal_strlit("no dedicated scan peer was published for scan_id ");
    lemma_tells_one(
        "no dedicated scan peer was published for scan_id "@,
        scan_id as nat,
        Seq::empty(),
    );
    assert(missing_peer_text(scan_id) =~= missing_peer_text(scan_id) + Seq::empty());
    reveal_strlit("WorkerPgScanExec exposes one partition, got partition ");
    lemma_tells_one(
        "WorkerPgScanExec exposes one partition, got partition "@,
        partition as nat,
        Seq::empty(),
    );
    assert(partition_text(partition) =~= partition_text(partition) + Seq::empty());
    reveal_strlit("scan_id ");
    reveal_strlit(" has no declared scan producers");
    lemma_tells_one(
        "scan_id "@,
        scan_id as nat,
        " has no declared scan producers"@,
    );
    reveal_strlit("scan_id ");
    reveal_strlit(" has ");
    reveal_strlit(" producer ingress streams for ");
    reveal_strlit(" declared producers");
    lemma_tells_three(
        "scan_id "@,
        scan_id as nat,
        " has "@,
        streams,
        " producer ingress streams for "@,
        producers,
        " declared producers"@,
    );
    reveal_strlit("scan terminal targeted session_epoch=");
    reveal_strlit(", scan_id=");
    reveal_strlit("; expected session_epoch=");
    reveal_strlit(", scan_id=");
    lemma_tells_four(
        "scan terminal targeted session_epoch="@,
        session_epoch as nat,
        ", scan_id="@,
        scan_id as nat,
        "; expected session_epoch="@,
        expected_epoch as nat,
        ", scan_id="@,
        expected_scan as nat,
        Seq::empty(),
    );
    let text = wrong_terminal_text(session_epoch, scan_id, expected_epoch, expected_scan);
    assert(text =~= text + Seq::empty());
}

} // verus!

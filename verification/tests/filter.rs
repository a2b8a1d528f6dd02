//! Bloom filters, their life cycle and the pool.

use fusion_runtime::filter::bloom::{
    runtime_filter_layout, AtomicBloomRef, BloomAttachError, BloomEstimate, BloomParamError,
    BloomParams, RUNTIME_FILTER_HEADER_SIZE,
};
use fusion_runtime::filter::hash::{
    hash_bool_key, hash_bytes_key, hash_decimal128_key, hash_float32_key, hash_float64_key,
    hash_int_key, hash_interval_month_day_nano_key,
};
use fusion_runtime::filter::lifecycle::{
    pack_lifecycle_word, unpack_lifecycle_word, LifecycleError, LifecycleSnapshot, ProbeDecision,
    RuntimeFilterBuilder, RuntimeFilterHeader, RuntimeFilterSlot, RuntimeFilterState,
};
use fusion_runtime::filter::pool::{
    RuntimeFilterKeyType, RuntimeFilterPool, RuntimeFilterPoolAttachError,
    RuntimeFilterPoolConfig, RuntimeFilterTarget, POOL_ALIGN,
};

const BASE: usize = 0x10000;

fn bit_storage(words: usize) -> Vec<u64> {
    vec![0; words]
}

fn slot_fixture(params: BloomParams) -> RuntimeFilterSlot {
    let bits = bit_storage(params.word_count());
    RuntimeFilterSlot::new(RuntimeFilterHeader::free(), bits, params).unwrap()
}

fn for_expected_items(
    expected_items: usize,
    false_positive_rate: f64,
    seed: u64,
) -> Result<BloomParams, BloomParamError> {
    let expected = expected_items as f64;
    let ln2 = std::f64::consts::LN_2;
    let bits = (-(expected * false_positive_rate.ln()) / (ln2 * ln2)).ceil();
    let bit_count = if bits > usize::MAX as f64 { None } else { Some(bits as usize) };
    let hashes = (bit_count.unwrap_or(0) as f64 / expected) * ln2;
    let estimate = BloomEstimate { bit_count, hash_count: hashes.round().max(1.0) as usize };
    BloomParams::for_expected_items(
        expected_items,
        false_positive_rate.to_bits(),
        seed,
        estimate,
    )
}

fn pool_fixture(slot_count: u32) -> RuntimeFilterPool {
    let params = BloomParams::new(1024, 3, 17).unwrap();
    let config = RuntimeFilterPoolConfig::new(slot_count, params);
    let layout = RuntimeFilterPool::layout(config).unwrap();
    RuntimeFilterPool::init_in_place(BASE, layout.size, config).expect("pool init")
}

fn expect_builder_error(
    result: Result<RuntimeFilterBuilder, LifecycleError>,
) -> LifecycleError {
    match result {
        Ok(_) => panic!("builder acquisition unexpectedly succeeded"),
        Err(error) => error,
    }
}

fn snapshot(generation: u64, state: RuntimeFilterState) -> LifecycleSnapshot {
    LifecycleSnapshot { generation, state }
}

#[test]
fn atomic_bloom_has_no_false_negatives_for_inserted_keys() {
    let params = for_expected_items(1_000, 0.01, 0xA5A5).unwrap();
    let mut bloom = AtomicBloomRef::new(bit_storage(params.word_count()), params).unwrap();

    for key in 0..1_000u64 {
        bloom.insert_u64(key);
    }

    for key in 0..1_000u64 {
        assert!(bloom.might_contain_u64(key));
    }
}

#[test]
fn builder_lease_publishes_ready_filter() {
    let params = BloomParams::new(512, 4, 42).unwrap();
    let mut slot = slot_fixture(params);

    let builder = slot.try_acquire_builder().unwrap();
    assert_eq!(builder.generation(), 1);
    builder.insert_u64(&mut slot, 10);
    let probe = builder.publish_ready(&mut slot).unwrap();

    assert_eq!(slot.snapshot(), snapshot(1, RuntimeFilterState::Ready));
    assert_eq!(probe.decision_for_u64(&slot, 10), ProbeDecision::MaybePresent);
    assert_eq!(probe.decision_for_u64(&slot, 99), ProbeDecision::DefinitelyAbsent);
}

#[test]
fn free_building_disabled_and_stale_probe_generations_never_reject() {
    let params = BloomParams::new(256, 3, 0).unwrap();
    let mut slot = slot_fixture(params);

    assert_eq!(slot.probe(1).decision_for_u64(&slot, 99), ProbeDecision::PassUnfiltered);

    {
        let mut builder = slot.try_acquire_builder().unwrap();
        builder.insert_u64(&mut slot, 1);
        assert_eq!(
            slot.probe(builder.generation()).decision_for_u64(&slot, 99),
            ProbeDecision::PassUnfiltered
        );
        builder.release(&mut slot);
    }

    assert_eq!(slot.snapshot(), snapshot(1, RuntimeFilterState::Disabled));
    assert_eq!(slot.probe(1).decision_for_u64(&slot, 99), ProbeDecision::PassUnfiltered);

    let builder = slot.try_acquire_builder().unwrap();
    builder.insert_u64(&mut slot, 2);
    let probe = builder.publish_ready(&mut slot).unwrap();
    assert_eq!(probe.generation(), 2);
    assert_eq!(slot.probe(1).decision_for_u64(&slot, 2), ProbeDecision::PassUnfiltered);
}

#[test]
fn second_builder_is_rejected_while_one_builder_owns_payload() {
    let params = BloomParams::new(256, 3, 0).unwrap();
    let mut slot = slot_fixture(params);

    let builder = slot.try_acquire_builder().unwrap();
    assert_eq!(
        expect_builder_error(slot.try_acquire_builder()),
        LifecycleError::Busy { snapshot: snapshot(1, RuntimeFilterState::Building) }
    );

    builder.insert_u64(&mut slot, 7);
    let probe = builder.publish_ready(&mut slot).unwrap();
    assert_eq!(probe.decision_for_u64(&slot, 7), ProbeDecision::MaybePresent);
}

#[test]
fn ready_slot_is_not_reused_without_cleanup() {
    let params = BloomParams::new(256, 3, 0).unwrap();
    let mut slot = slot_fixture(params);

    let builder = slot.try_acquire_builder().unwrap();
    builder.insert_u64(&mut slot, 7);
    let probe = builder.publish_ready(&mut slot).unwrap();

    assert_eq!(
        expect_builder_error(slot.try_acquire_builder()),
        LifecycleError::Busy { snapshot: snapshot(1, RuntimeFilterState::Ready) }
    );
    assert_eq!(probe.decision_for_u64(&slot, 7), ProbeDecision::MaybePresent);
}

#[test]
fn quiescent_retire_allows_ready_slot_reuse() {
    let params = BloomParams::new(256, 3, 0).unwrap();
    let mut slot = slot_fixture(params);

    let builder = slot.try_acquire_builder().unwrap();
    builder.insert_u64(&mut slot, 7);
    let old_probe = builder.publish_ready(&mut slot).unwrap();
    assert_eq!(old_probe.decision_for_u64(&slot, 7), ProbeDecision::MaybePresent);

    slot.retire_ready_after_quiescence(old_probe.generation()).unwrap();
    assert_eq!(old_probe.decision_for_u64(&slot, 7), ProbeDecision::PassUnfiltered);

    let builder = slot.try_acquire_builder().unwrap();
    assert_eq!(builder.generation(), 2);
    assert_eq!(old_probe.decision_for_u64(&slot, 7), ProbeDecision::PassUnfiltered);
    builder.insert_u64(&mut slot, 9);
    let new_probe = builder.publish_ready(&mut slot).unwrap();
    assert_eq!(new_probe.decision_for_u64(&slot, 9), ProbeDecision::MaybePresent);
}

#[test]
fn stale_ready_retire_cannot_disable_newer_generation() {
    let params = BloomParams::new(256, 3, 0).unwrap();
    let mut slot = slot_fixture(params);

    let builder = slot.try_acquire_builder().unwrap();
    let probe = builder.publish_ready(&mut slot).unwrap();

    assert_eq!(
        slot.retire_ready_after_quiescence(0).unwrap_err(),
        LifecycleError::InvalidTransition {
            expected: snapshot(0, RuntimeFilterState::Ready),
            actual: snapshot(1, RuntimeFilterState::Ready),
        }
    );

    slot.retire_ready_after_quiescence(probe.generation()).unwrap();
    let builder = slot.try_acquire_builder().unwrap();
    let new_probe = builder.publish_ready(&mut slot).unwrap();
    assert_eq!(new_probe.generation(), 2);

    assert_eq!(
        slot.retire_ready_after_quiescence(1).unwrap_err(),
        LifecycleError::InvalidTransition {
            expected: snapshot(1, RuntimeFilterState::Ready),
            actual: snapshot(2, RuntimeFilterState::Ready),
        }
    );
}

#[test]
fn dropped_builder_disables_and_later_builder_gets_new_generation() {
    let params = BloomParams::new(256, 3, 0).unwrap();
    let mut slot = slot_fixture(params);

    {
        let mut builder = slot.try_acquire_builder().unwrap();
        builder.insert_u64(&mut slot, 7);
        builder.release(&mut slot);
    }
    assert_eq!(slot.snapshot(), snapshot(1, RuntimeFilterState::Disabled));

    let builder = slot.try_acquire_builder().unwrap();
    assert_eq!(builder.generation(), 2);
    builder.insert_u64(&mut slot, 9);
    let probe = builder.publish_ready(&mut slot).unwrap();
    assert_eq!(probe.decision_for_u64(&slot, 9), ProbeDecision::MaybePresent);
    assert_eq!(slot.probe(1).decision_for_u64(&slot, 7), ProbeDecision::PassUnfiltered);
}

#[test]
fn explicit_disable_allows_rebuild_without_exposing_partial_payload() {
    let params = BloomParams::new(256, 3, 0).unwrap();
    let mut slot = slot_fixture(params);

    let builder = slot.try_acquire_builder().unwrap();
    builder.insert_u64(&mut slot, 7);
    builder.disable(&mut slot).unwrap();
    assert_eq!(slot.probe(1).decision_for_u64(&slot, 7), ProbeDecision::PassUnfiltered);

    let builder = slot.try_acquire_builder().unwrap();
    assert_eq!(builder.generation(), 2);
}

#[test]
fn stale_builder_transition_cannot_overwrite_newer_generation() {
    let params = BloomParams::new(256, 3, 0).unwrap();
    let mut slot = slot_fixture(params);

    let builder = slot.try_acquire_builder().unwrap();
    slot.header.lifecycle = pack_lifecycle_word(2, RuntimeFilterState::Ready).unwrap();

    assert_eq!(
        builder.disable(&mut slot).unwrap_err(),
        LifecycleError::InvalidTransition {
            expected: snapshot(1, RuntimeFilterState::Building),
            actual: snapshot(2, RuntimeFilterState::Ready),
        }
    );
    assert_eq!(slot.snapshot(), snapshot(2, RuntimeFilterState::Ready));
}

#[test]
fn max_generation_free_slot_is_exhausted() {
    let params = BloomParams::new(64, 2, 0).unwrap();
    let mut slot = slot_fixture(params);
    let max_generation = u64::MAX >> 2;
    slot.header.lifecycle =
        pack_lifecycle_word(max_generation, RuntimeFilterState::Free).unwrap();

    assert_eq!(
        expect_builder_error(slot.try_acquire_builder()),
        LifecycleError::GenerationExhausted { generation: max_generation }
    );
}

#[test]
fn tiny_filter_boundaries_do_not_access_past_storage() {
    let params = BloomParams::new(1, 8, u64::MAX).unwrap();
    let mut bloom = AtomicBloomRef::new(bit_storage(params.word_count()), params).unwrap();

    bloom.clear();
    bloom.insert_u64(123);
    assert!(bloom.might_contain_u64(123));
    assert_eq!(params.word_count(), 1);
}

#[test]
fn parameter_validation_rejects_invalid_inputs() {
    assert_eq!(BloomParams::new(0, 1, 0).unwrap_err(), BloomParamError::ZeroBitCount);
    assert_eq!(BloomParams::new(1, 0, 0).unwrap_err(), BloomParamError::ZeroHashCount);
    assert_eq!(
        for_expected_items(0, 0.01, 0).unwrap_err(),
        BloomParamError::ZeroExpectedItems
    );
    assert!(matches!(
        for_expected_items(10, 1.0, 0).unwrap_err(),
        BloomParamError::InvalidFalsePositiveRate(_)
    ));
}

#[test]
fn lifecycle_snapshot_roundtrips_generation_and_state() {
    let word = pack_lifecycle_word(123, RuntimeFilterState::Disabled).unwrap();
    assert_eq!(unpack_lifecycle_word(word), snapshot(123, RuntimeFilterState::Disabled));
}

#[test]
fn attach_requires_enough_words() {
    let params = BloomParams::new(129, 3, 0).unwrap();
    assert_eq!(params.word_count(), 3);
    assert_eq!(
        AtomicBloomRef::new(bit_storage(2), params).unwrap_err(),
        BloomAttachError::InsufficientWords { required: 3, actual: 2 }
    );
}

#[test]
fn statistical_false_positive_rate_stays_reasonable() {
    let params = for_expected_items(1_000, 0.01, 0xB10F).unwrap();
    let mut bloom = AtomicBloomRef::new(bit_storage(params.word_count()), params).unwrap();

    for key in 0..1_000u64 {
        bloom.insert_u64(key);
    }

    let mut false_positives = 0usize;
    let absent = 10_000usize;
    for key in 10_000..(10_000 + absent as u64) {
        if bloom.might_contain_u64(key) {
            false_positives += 1;
        }
    }

    assert!(
        false_positives < 400,
        "false positive count {false_positives} is unexpectedly high",
    );
}

fn float32(value: f32) -> u64 {
    hash_float32_key(value.to_bits())
}

fn float64(value: f64) -> u64 {
    hash_float64_key(value.to_bits())
}

#[test]
fn hash_helpers_normalize_supported_key_types() {
    assert_ne!(hash_bool_key(false), hash_bool_key(true));

    assert_eq!(float32(0.0), float32(-0.0));
    assert_eq!(hash_float32_key(0x7fc0_0001), hash_float32_key(0x7fc0_0002));
    assert_ne!(float32(1.0), float32(2.0));

    assert_eq!(float64(0.0), float64(-0.0));
    assert_eq!(
        hash_float64_key(0x7ff8_0000_0000_0001),
        hash_float64_key(0x7ff8_0000_0000_0002),
    );
    assert_ne!(float64(1.0), float64(2.0));

    assert_eq!(hash_bytes_key(b"alpha"), hash_bytes_key(b"alpha"));
    assert_ne!(hash_bytes_key(b"alpha"), hash_bytes_key(b"beta"));
}

#[test]
fn layout_places_bits_after_header_with_atomic_alignment() {
    let params = BloomParams::new(256, 4, 0).unwrap();
    let layout = runtime_filter_layout(params).unwrap();

    assert!(layout.bits_offset >= RUNTIME_FILTER_HEADER_SIZE);
    assert!(layout.bits_offset >= std::mem::size_of::<RuntimeFilterHeader>());
    assert_eq!(layout.bits_offset % std::mem::align_of::<std::sync::atomic::AtomicU64>(), 0);
    assert_eq!(layout.word_count, params.word_count());
}

#[test]
fn raw_attach_accepts_valid_atomic_storage() {
    let params = BloomParams::new(64, 2, 0).unwrap();
    let mut bloom =
        AtomicBloomRef::from_raw_parts(Some(bit_storage(params.word_count())), params)
            .expect("valid raw bit storage");

    bloom.insert_u64(5);
    assert!(bloom.might_contain_u64(5));
    assert_eq!(
        AtomicBloomRef::from_raw_parts(None, params).unwrap_err(),
        BloomAttachError::NullBits
    );
}

#[test]
fn pool_publishes_filter_and_probe_rejects_absent_keys() {
    let mut pool = pool_fixture(1);
    let target = RuntimeFilterTarget {
        session_epoch: 11,
        scan_id: 22,
        output_column: 3,
        key_type: RuntimeFilterKeyType::Int64,
    };
    let build = pool.allocate_build(target).expect("allocate").expect("available slot");
    build.insert_hash(&mut pool, hash_int_key(42)).unwrap();
    build.publish_ready(&mut pool).unwrap();

    let mut probes = Vec::new();
    pool.lookup_probes(11, 22, &mut probes);
    assert_eq!(probes.len(), 1);
    assert_eq!(probes[0].output_column(), 3);
    assert_eq!(probes[0].key_type(), RuntimeFilterKeyType::Int64);
    assert_eq!(
        probes[0].decision_for_hash(&pool, hash_int_key(42)),
        ProbeDecision::MaybePresent
    );
    assert_eq!(
        probes[0].decision_for_hash(&pool, hash_int_key(100_000)),
        ProbeDecision::DefinitelyAbsent
    );
    assert_eq!(probes[0].decision_for_null(&pool), ProbeDecision::DefinitelyAbsent);
}

#[test]
fn pool_does_not_reuse_storage_until_probes_are_dropped() {
    let mut pool = pool_fixture(1);
    let target = RuntimeFilterTarget {
        session_epoch: 1,
        scan_id: 2,
        output_column: 0,
        key_type: RuntimeFilterKeyType::Int32,
    };
    let other = RuntimeFilterTarget {
        session_epoch: 3,
        scan_id: 4,
        output_column: 0,
        key_type: RuntimeFilterKeyType::Int32,
    };
    let mut build = pool.allocate_build(target).expect("allocate").expect("available slot");
    build.insert_hash(&mut pool, hash_int_key(7)).unwrap();
    build.publish_ready(&mut pool).unwrap();

    let mut probes = Vec::new();
    pool.lookup_probes(1, 2, &mut probes);
    assert_eq!(probes.len(), 1);
    build.release_owner(&mut pool);

    let next = pool.allocate_build(other).expect("allocate while old probe exists");
    assert!(next.is_none());

    probes[0].release(&mut pool);
    assert!(pool
        .allocate_build(other)
        .expect("allocate after old probe exits")
        .is_some());
}

#[test]
fn builder_publication_makes_prior_bit_writes_visible() {
    let mut slot = slot_fixture(BloomParams::new(64, 1, 0).unwrap());
    let builder = slot.try_acquire_builder().expect("builder");
    let generation = builder.generation();
    let absent = ProbeDecision::DefinitelyAbsent;

    assert_ne!(slot.probe(generation).decision_for_u64(&slot, 1), absent);
    builder.insert_u64(&mut slot, 1);
    assert_ne!(slot.probe(generation).decision_for_u64(&slot, 1), absent);
    assert!(builder.publish_ready(&mut slot).is_ok());
    assert_ne!(slot.probe(generation).decision_for_u64(&slot, 1), absent);
}

#[test]
fn second_builder_cannot_clear_while_first_builder_is_active() {
    let mut slot = slot_fixture(BloomParams::new(64, 1, 0).unwrap());
    let first = slot.try_acquire_builder().expect("first builder");
    assert!(slot.try_acquire_builder().is_err());
    first.insert_u64(&mut slot, 1);
    assert!(slot.try_acquire_builder().is_err());
    let probe = first.publish_ready(&mut slot).expect("publish");
    assert!(slot.try_acquire_builder().is_err());
    assert_eq!(slot.snapshot().state, RuntimeFilterState::Ready);
    assert_eq!(probe.decision_for_u64(&slot, 1), ProbeDecision::MaybePresent);
}

#[test]
fn stale_disable_cannot_move_lifecycle_backward() {
    let mut slot = slot_fixture(BloomParams::new(64, 1, 0).unwrap());
    slot.header.lifecycle = pack_lifecycle_word(2, RuntimeFilterState::Ready).unwrap();
    assert!(slot.disable_build(1).is_err());
    assert!(slot.snapshot().generation >= 2);
    assert_eq!(slot.snapshot(), snapshot(2, RuntimeFilterState::Ready));
}

#[test]
fn estimates_for_a_rate_are_exact() {
    let params = for_expected_items(1_000, 0.01, 3).unwrap();
    assert_eq!(params.bit_count(), 9586);
    assert_eq!(params.hash_count(), 7);
    assert_eq!(params.word_count(), 150);
    assert_eq!(params.seed(), 3);
    let too_many = BloomEstimate { bit_count: None, hash_count: 1 };
    assert_eq!(
        BloomParams::for_expected_items(1, 0.5f64.to_bits(), 0, too_many).unwrap_err(),
        BloomParamError::TooManyBits
    );
    assert_eq!(
        BloomParams::new(usize::MAX, 1, 0).unwrap_err(),
        BloomParamError::TooManyBits
    );
    for rate in [f64::NAN, f64::INFINITY, 0.0, -0.0, -0.5, 1.5] {
        assert!(matches!(
            for_expected_items(10, rate, 0).unwrap_err(),
            BloomParamError::InvalidFalsePositiveRate(bits) if bits == rate.to_bits()
        ));
    }
}

#[test]
fn byte_hash_is_fnv() {
    assert_eq!(hash_bytes_key(b""), 0xcbf2_9ce4_8422_2325);
    assert_eq!(hash_bytes_key(b"a"), 0xaf63_dc4c_8601_ec8c);
    assert_eq!(hash_bytes_key(b"foobar"), 0x8594_4171_f739_67e8);
}

#[test]
fn equal_decimals_hash_equal() {
    assert_eq!(hash_decimal128_key(1_50, 2), hash_decimal128_key(1_500, 3));
    assert_eq!(hash_decimal128_key(0, 2), hash_decimal128_key(0, 9));
    assert_ne!(hash_decimal128_key(15, 1), hash_decimal128_key(16, 1));
}

#[test]
fn interval_parts_are_all_hashed() {
    let base = hash_interval_month_day_nano_key(1, 2, 3);
    assert_ne!(base, hash_interval_month_day_nano_key(2, 2, 3));
    assert_ne!(base, hash_interval_month_day_nano_key(1, 3, 3));
    assert_ne!(base, hash_interval_month_day_nano_key(1, 2, 4));
}

#[test]
fn insertions_commute() {
    let params = BloomParams::new(512, 4, 42).unwrap();
    let mut one = AtomicBloomRef::new(bit_storage(8), params).unwrap();
    let mut other = AtomicBloomRef::new(bit_storage(8), params).unwrap();
    one.insert_u64(1);
    one.insert_u64(2);
    other.insert_u64(2);
    other.insert_u64(1);
    assert_eq!(one.bits, other.bits);
    one.clear();
    assert_eq!(one.bits, bit_storage(8));
}

#[test]
fn words_beyond_the_filter_stay_as_they_are() {
    let params = BloomParams::new(512, 4, 42).unwrap();
    let mut words = bit_storage(8);
    words.extend([11, 12, 13]);
    let mut bloom = AtomicBloomRef::new(words, params).unwrap();
    for value in 0..200 {
        bloom.insert_u64(value);
    }
    assert!(bloom.might_contain_u64(199));
    assert_eq!(bloom.bits[8..], [11, 12, 13]);
    bloom.clear();
    assert_eq!(bloom.bits[..8], bit_storage(8)[..]);
    assert_eq!(bloom.bits[8..], [11, 12, 13]);
}

#[test]
fn generations_beyond_the_last_are_refused() {
    assert_eq!(
        pack_lifecycle_word(u64::MAX, RuntimeFilterState::Free),
        Err(LifecycleError::GenerationExhausted { generation: u64::MAX })
    );
}

#[test]
fn pools_attach_only_where_they_were_made() {
    let pool = pool_fixture(2);
    let config = pool.config();
    let layout = RuntimeFilterPool::layout(config).unwrap();
    assert!(pool.is_attached());
    assert!(pool.attach(BASE, layout.size, config).is_ok());
    assert_eq!(
        pool.attach(0, layout.size, config).unwrap_err(),
        RuntimeFilterPoolAttachError::NullBase
    );
    assert!(matches!(
        pool.attach(BASE + 1, layout.size, config),
        Err(RuntimeFilterPoolAttachError::Misaligned { required: POOL_ALIGN, .. })
    ));
    assert!(matches!(
        pool.attach(BASE, layout.size - 1, config),
        Err(RuntimeFilterPoolAttachError::TooSmall { required, actual })
            if required == layout.size && actual == layout.size - 1
    ));
    let seeded = RuntimeFilterPoolConfig::new(2, BloomParams::new(1024, 3, 18).unwrap());
    assert_eq!(
        pool.attach(BASE, layout.size, seeded).unwrap_err(),
        RuntimeFilterPoolAttachError::ConfigMismatch
    );
    let none = RuntimeFilterPool::default();
    assert!(!none.is_attached());
}

#[test]
fn foreign_memory_is_no_pool() {
    let mut pool = pool_fixture(1);
    let config = pool.config();
    let size = RuntimeFilterPool::layout(config).unwrap().size;
    let mut header = pool.header.take().expect("header");
    header.magic = 7;
    pool.header = Some(header);
    assert_eq!(
        pool.attach(BASE, size, config).unwrap_err(),
        RuntimeFilterPoolAttachError::InvalidMagic { actual: 7 }
    );
    let mut pool = pool_fixture(1);
    let mut header = pool.header.take().expect("header");
    header.version = 9;
    pool.header = Some(header);
    assert_eq!(
        pool.attach(BASE, size, config).unwrap_err(),
        RuntimeFilterPoolAttachError::InvalidVersion { expected: 1, actual: 9 }
    );
}

#[test]
fn probes_of_other_scans_are_not_found() {
    let mut pool = pool_fixture(2);
    let target = RuntimeFilterTarget {
        session_epoch: 11,
        scan_id: 22,
        output_column: 3,
        key_type: RuntimeFilterKeyType::Utf8View,
    };
    let build = pool.allocate_build(target).expect("allocate").expect("slot");
    let mut probes = Vec::new();
    pool.lookup_probes(11, 22, &mut probes);
    pool.lookup_probes(11, 23, &mut probes);
    pool.lookup_probes(12, 22, &mut probes);
    assert_eq!(probes.len(), 1);
    assert_eq!(
        probes[0].decision_for_hash(&pool, 1),
        ProbeDecision::PassUnfiltered
    );
    build.publish_ready(&mut pool).unwrap();
    assert_eq!(
        probes[0].decision_for_hash(&pool, 1),
        ProbeDecision::DefinitelyAbsent
    );
}

#[test]
fn key_type_numbers_round_trip() {
    for raw in 1..10 {
        assert_eq!(RuntimeFilterKeyType::from_raw(raw).expect("key type").to_raw(), raw);
    }
    assert_eq!(RuntimeFilterKeyType::from_raw(0), None);
    assert_eq!(RuntimeFilterKeyType::from_raw(10), None);
}

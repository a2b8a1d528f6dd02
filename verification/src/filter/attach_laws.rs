//! How a pool lies in its mapping, and which mappings are taken for one.

use super::bloom::{bit_at, is_rate, max_region_size, words_for, LayoutError};
use super::lifecycle::{snapshot_of, word_of, LifecycleSnapshot, RuntimeFilterState};
use super::pool::{
    bits_start, header_error, header_for, layout_error, pool_size, region_error, total_words,
    PoolHeader, RuntimeFilterPoolAttachError, RuntimeFilterPoolConfig,
};
use vstd::prelude::*;

verus! {

/// A pool is a header, the records of its slots and the words of their filters,
/// one behind the other, so that the words of each slot are its own.
pub proof fn law_pool_parts_lie_apart(config: RuntimeFilterPoolConfig, slot: int)
    requires
        0 <= slot < config.slot_count,
    ensures
        bits_start(config) == 56 + 48 * config.slot_count,
        pool_size(config) == bits_start(config) + 8 * total_words(config),
        ({
            let words = config.params.word_count as int;
            &&& total_words(config) == config.slot_count * words
            &&& 0 <= slot * words
            &&& slot * words + words <= total_words(config)
        }),
{
    let words = config.params.word_count as int;
    assert(0 <= slot * words && slot * words + words <= config.slot_count * words)
        by (nonlinear_arith)
        requires
            0 <= slot < config.slot_count,
            words >= 0,
    ;
}

/// A filter has the least number of words that hold its bits.
pub proof fn law_words_hold_the_bits(bit_count: int)
    requires
        bit_count > 0,
    ensures
        64 * words_for(bit_count) >= bit_count,
        64 * (words_for(bit_count) - 1) < bit_count,
{
}

/// A rate of false positives is a number between zero and one, both left out, as
/// the bits of a double-precision number order them.
pub proof fn law_rates_lie_between_zero_and_one(bits: u64)
    ensures
        is_rate(bits) <==> 0 < bits && bits < 0x3ff0_0000_0000_0000,
{
}

/// Bit `b` of words is bit `b` modulo 64 of word `b` divided by 64.
pub proof fn law_bits_are_counted_through_the_words(words: Seq<u64>, b: int)
    ensures
        bit_at(words, b) <==> 0 <= b && b / 64 < words.len() && words[b / 64] & (1u64 << ((b
            % 64) as u64)) != 0,
{
}

/// A pool can be laid out exactly if everything fits into memory.
pub proof fn law_pools_that_exist(config: RuntimeFilterPoolConfig)
    ensures
        layout_error(config) is None <==> bits_start(config) <= isize::MAX - 7 && total_words(
            config,
        ) <= usize::MAX && pool_size(config) <= isize::MAX - 7,
        max_region_size() == isize::MAX - 7,
        bits_start(config) <= isize::MAX - 7 && total_words(config) > usize::MAX ==> layout_error(
            config,
        ) == Some(RuntimeFilterPoolAttachError::LayoutOverflow),
        bits_start(config) > isize::MAX - 7 ==> layout_error(config) == Some(
            RuntimeFilterPoolAttachError::Layout(LayoutError),
        ),
{
}

/// A mapping can hold a pool exactly if there is one, it is aligned to eight bytes
/// and it is large enough.
pub proof fn law_mappings_that_hold_a_pool(base: usize, len: usize, size: int)
    requires
        0 <= size <= usize::MAX,
    ensures
        region_error(base, len, size) is None <==> base != 0 && base % 8 == 0 && len >= size,
        region_error(base, len, size) == Some(RuntimeFilterPoolAttachError::NullBase) <==> base
            == 0,
        region_error(base, len, size) == Some(
            RuntimeFilterPoolAttachError::Misaligned { required: 8, actual: base % 8 },
        ) <==> base != 0 && base % 8 != 0,
        region_error(base, len, size) == Some(
            RuntimeFilterPoolAttachError::TooSmall { required: size as usize, actual: len },
        ) <==> base != 0 && base % 8 == 0 && len < size,
{
}

/// A header is that of a pool exactly if it is of this format and says the same of
/// every part of the configuration.
pub proof fn law_headers_that_are_taken(header: PoolHeader, config: RuntimeFilterPoolConfig)
    ensures
        ({
            let error = header_error(header, config);
            let marked = header.magic == 0x5047_4655_5246_5031;
            let current = header.version == 1;
            let same = header.slot_count == config.slot_count && header.bit_count
                == config.params.bit_count as u64 && header.hash_count
                == config.params.hash_count as u32 && header.seed == config.params.seed
                && header.word_count == config.params.word_count as u64 && header.region_size
                == pool_size(config) as u64;
            &&& error is None <==> marked && current && same
            &&& error == Some(RuntimeFilterPoolAttachError::InvalidMagic { actual: header.magic })
                <==> !marked
            &&& error == Some(
                RuntimeFilterPoolAttachError::InvalidVersion {
                    expected: 1,
                    actual: header.version,
                },
            ) <==> marked && !current
            &&& error == Some(RuntimeFilterPoolAttachError::ConfigMismatch) <==> marked && current
                && !same
            &&& header_error(header_for(config), config) is None
        }),
{
}

/// The word of a lifecycle is four times the generation and a number from zero to
/// three for the state: free, building, ready, disabled.
pub proof fn law_lifecycle_word(snapshot: LifecycleSnapshot, word: u64)
    ensures
        word_of(snapshot) / 4 == snapshot.generation,
        word_of(snapshot) % 4 == 0 <==> snapshot.state == RuntimeFilterState::Free,
        word_of(snapshot) % 4 == 1 <==> snapshot.state == RuntimeFilterState::Building,
        word_of(snapshot) % 4 == 2 <==> snapshot.state == RuntimeFilterState::Ready,
        word_of(snapshot) % 4 == 3 <==> snapshot.state == RuntimeFilterState::Disabled,
        word_of(snapshot_of(word)) == word,
{
}

} // verus!

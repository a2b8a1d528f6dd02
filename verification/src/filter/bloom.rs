//! Bloom filters.

use vstd::prelude::*;

verus! {

pub const HASH_GAMMA: u64 = 0x9E37_79B9_7F4A_7C15;

pub const HASH_SALT: u64 = 0xD1B5_4A32_D192_ED03;

/// Bytes of a lifecycle header.
pub const RUNTIME_FILTER_HEADER_SIZE: usize = 8;

/// Bloom filter sizing and hash seed.
#[derive(Clone, Copy, Debug, PartialEq, Eq, Structural)]
pub struct BloomParams {
    pub bit_count: usize,
    pub word_count: usize,
    pub hash_count: usize,
    pub seed: u64,
}

/// Invalid Bloom sizing input.
#[derive(Clone, Copy, Debug, PartialEq, Eq, Structural)]
pub enum BloomParamError {
    ZeroBitCount,
    ZeroHashCount,
    ZeroExpectedItems,
    /// The rate, as the bits of a `float8`.
    InvalidFalsePositiveRate(u64),
    TooManyBits,
}

/// What floating-point arithmetic proposes for a cardinality and a rate.
#[derive(Clone, Copy, Debug, PartialEq, Eq)]
pub struct BloomEstimate {
    /// The number of bits, if it is addressable.
    pub bit_count: Option<usize>,
    /// The number of bit positions per key.
    pub hash_count: usize,
}

/// The bits of the `float8` one.
pub const ONE_AS_BITS: u64 = 0x3ff0_0000_0000_0000;

/// These bits of a `float8` are a rate: above zero and below one. The bits of
/// numbers that are not negative are ordered as the numbers are; those of
/// negative numbers, of infinity and of NaNs come behind.
pub open spec fn is_rate(bits: u64) -> bool {
    0 < bits < ONE_AS_BITS
}

/// Failure to attach a Bloom view to storage.
#[derive(Clone, Copy, Debug, PartialEq, Eq, Structural)]
pub enum BloomAttachError {
    NullBits,
    InsufficientWords { required: usize, actual: usize },
}

/// How many words of 64 bits hold so many bits.
pub open spec fn words_for(bit_count: int) -> int {
    (bit_count + 63) / 64
}

impl BloomParams {
    /// There are bits and hashes, and as many words as the bits need.
    pub open spec fn wf(self) -> bool {
        &&& self.bit_count > 0
        &&& self.hash_count > 0
        &&& self.word_count == words_for(self.bit_count as int)
    }

    /// Create explicit Bloom parameters.
    ///
    /// `bit_count` is rounded up to whole words of 64 bits. `hash_count` is the
    /// number of bit positions set or checked for each input hash.
    pub fn new(bit_count: usize, hash_count: usize, seed: u64) -> (r: Result<Self, BloomParamError>)
        ensures
            r == if bit_count == 0 {
                Err::<Self, BloomParamError>(BloomParamError::ZeroBitCount)
            } else if hash_count == 0 {
                Err(BloomParamError::ZeroHashCount)
            } else if bit_count + 63 > usize::MAX {
                Err(BloomParamError::TooManyBits)
            } else {
                Ok(
                    BloomParams {
                        bit_count,
                        word_count: words_for(bit_count as int) as usize,
                        hash_count,
                        seed,
                    },
                )
            },
            r matches Ok(params) ==> params.wf(),
    {
        if bit_count == 0 {
            return Err(BloomParamError::ZeroBitCount);
        }
        if hash_count == 0 {
            return Err(BloomParamError::ZeroHashCount);
        }
        let word_count: usize = match bit_count.checked_add(63) {
            Some(rounded) => rounded / 64,
            None => {
                return Err(BloomParamError::TooManyBits);
            },
        };
        Ok(BloomParams { bit_count, word_count, hash_count, seed })
    }

    /// Bloom parameters for an expected cardinality and false-positive rate.
    ///
    /// The rate is given as the bits of a `float8`. The estimate for it is
    /// computed in floating point, elsewhere; it counts only where the inputs
    /// are valid.
    pub fn for_expected_items(
        expected_items: usize,
        false_positive_rate: u64,
        seed: u64,
        estimate: BloomEstimate,
    ) -> (r: Result<Self, BloomParamError>)
        ensures
            expected_items == 0 ==> r == Err::<Self, BloomParamError>(
                BloomParamError::ZeroExpectedItems,
            ),
            expected_items > 0 && !is_rate(false_positive_rate) ==> r == Err::<
                Self,
                BloomParamError,
            >(BloomParamError::InvalidFalsePositiveRate(false_positive_rate)),
            expected_items > 0 && is_rate(false_positive_rate) ==> match estimate.bit_count {
                None => r == Err::<Self, BloomParamError>(BloomParamError::TooManyBits),
                Some(bit_count) => {
                    &&& bit_count == 0 ==> r == Err::<Self, BloomParamError>(
                        BloomParamError::ZeroBitCount,
                    )
                    &&& bit_count > 0 && estimate.hash_count == 0 ==> r == Err::<
                        Self,
                        BloomParamError,
                    >(BloomParamError::ZeroHashCount)
                    &&& bit_count > 0 && estimate.hash_count > 0 && bit_count + 63 > usize::MAX
                        ==> r == Err::<Self, BloomParamError>(BloomParamError::TooManyBits)
                    &&& bit_count > 0 && estimate.hash_count > 0 && bit_count + 63 <= usize::MAX
                        ==> (r matches Ok(params) && params.wf() && params.bit_count == bit_count
                        && params.hash_count == estimate.hash_count && params.seed == seed)
                },
            },
    {
        if expected_items == 0 {
            return Err(BloomParamError::ZeroExpectedItems);
        }
        if false_positive_rate == 0 || false_positive_rate >= ONE_AS_BITS {
            return Err(BloomParamError::InvalidFalsePositiveRate(false_positive_rate));
        }
        match estimate.bit_count {
            Some(bit_count) => BloomParams::new(bit_count, estimate.hash_count, seed),
            None => Err(BloomParamError::TooManyBits),
        }
    }

    /// Number of addressable Bloom bits.
    pub fn bit_count(self) -> (r: usize)
        ensures
            r == self.bit_count,
    {
        self.bit_count
    }

    /// Number of words needed to store the bitset.
    pub fn word_count(self) -> (r: usize)
        ensures
            r == self.word_count,
    {
        self.word_count
    }

    /// Number of derived bit positions used per key.
    pub fn hash_count(self) -> (r: usize)
        ensures
            r == self.hash_count,
    {
        self.hash_count
    }

    /// Seed mixed into every inserted or probed hash.
    pub fn seed(self) -> (r: u64)
        ensures
            r == self.seed,
    {
        self.seed
    }
}

/// One output of the splitmix generator.
pub open spec fn splitmix(value: u64) -> u64 {
    let a = value.wrapping_add(HASH_GAMMA);
    let b = (a ^ (a >> 30)).wrapping_mul(0xBF58_476D_1CE4_E5B9);
    let c = (b ^ (b >> 27)).wrapping_mul(0x94D0_49BB_1331_11EB);
    c ^ (c >> 31)
}

/// The `i`th bit position of a hash: double hashing with an odd step.
pub open spec fn position(params: BloomParams, hash: u64, i: int) -> int {
    let h1 = splitmix(hash ^ params.seed);
    let h2 = splitmix(h1 ^ HASH_SALT) | 1;
    h1.wrapping_add((i as u64).wrapping_mul(h2)) as int % params.bit_count as int
}

/// The bit positions of a hash.
pub open spec fn positions(params: BloomParams, hash: u64) -> Set<int> {
    Set::new(|b: int| exists|i: int|
        0 <= i < params.hash_count && b == #[trigger] position(params, hash, i))
}

/// The bit positions of the first `n` derived hashes.
spec fn positions_upto(params: BloomParams, hash: u64, n: int) -> Set<int> {
    Set::new(|b: int| exists|i: int| 0 <= i < n && b == #[trigger] position(params, hash, i))
}

/// Bit `b` of a bitset is set.
pub open spec fn bit_at(words: Seq<u64>, b: int) -> bool {
    0 <= b < 64 * words.len() && words[b / 64] & (1u64 << ((b % 64) as u64)) != 0
}

/// The bits that are set.
pub open spec fn bits_of(words: Seq<u64>) -> Set<int> {
    Set::new(|b: int| bit_at(words, b))
}

fn splitmix64(value: u64) -> (r: u64)
    ensures
        r == splitmix(value),
{
    let a: u64 = value.wrapping_add(HASH_GAMMA);
    let b: u64 = (a ^ (a >> 30)).wrapping_mul(0xBF58_476D_1CE4_E5B9);
    let c: u64 = (b ^ (b >> 27)).wrapping_mul(0x94D0_49BB_1331_11EB);
    c ^ (c >> 31)
}

/// A Bloom filter over a bitset.
///
/// It has no lifecycle of its own: clearing it while a probe still relies on
/// its bits can make that probe reject a key that was inserted.
#[derive(Debug)]
pub struct AtomicBloomRef {
    pub bits: Vec<u64>,
    pub params: BloomParams,
}

impl View for AtomicBloomRef {
    type V = Set<int>;

    open spec fn view(&self) -> Set<int> {
        bits_of(self.bits@.take(self.params.word_count as int))
    }
}

impl AtomicBloomRef {
    /// There are at least the words that the parameters ask for.
    pub open spec fn wf(&self) -> bool {
        self.params.wf() && self.bits@.len() >= self.params.word_count
    }

    /// The words that lie beyond those of the filter.
    pub open spec fn beyond(&self) -> Seq<u64> {
        self.bits@.skip(self.params.word_count as int)
    }

    /// Attach to words of a bitset; words beyond those that are needed are left
    /// alone.
    pub fn new(bits: Vec<u64>, params: BloomParams) -> (r: Result<Self, BloomAttachError>)
        requires
            params.wf(),
        ensures
            bits@.len() < params.word_count ==> r == Err::<Self, BloomAttachError>(
                BloomAttachError::InsufficientWords {
                    required: params.word_count,
                    actual: bits@.len() as usize,
                },
            ),
            bits@.len() >= params.word_count ==> (r matches Ok(bloom) && bloom.wf() && bloom.params
                == params && bloom.bits@ == bits@),
    {
        if bits.len() < params.word_count {
            return Err(
                BloomAttachError::InsufficientWords {
                    required: params.word_count,
                    actual: bits.len(),
                },
            );
        }
        Ok(AtomicBloomRef { bits, params })
    }

    /// Attach to storage that may be absent.
    pub fn from_raw_parts(bits: Option<Vec<u64>>, params: BloomParams) -> (r: Result<
        Self,
        BloomAttachError,
    >)
        requires
            params.wf(),
        ensures
            match bits {
                None => r == Err::<Self, BloomAttachError>(BloomAttachError::NullBits),
                Some(words) => if words@.len() < params.word_count {
                    r == Err::<Self, BloomAttachError>(
                        BloomAttachError::InsufficientWords {
                            required: params.word_count,
                            actual: words@.len() as usize,
                        },
                    )
                } else {
                    r matches Ok(bloom) && bloom.wf() && bloom.params == params && bloom.bits@
                        == words@
                },
            },
    {
        match bits {
            None => Err(BloomAttachError::NullBits),
            Some(words) => AtomicBloomRef::new(words, params),
        }
    }

    /// Return the parameters used by this Bloom view.
    pub fn params(&self) -> (r: BloomParams)
        ensures
            r == self.params,
    {
        self.params
    }

    /// Clear all Bloom words, and no word beyond them.
    pub fn clear(&mut self)
        requires
            old(self).wf(),
        ensures
            final(self).wf(),
            final(self).params == old(self).params,
            final(self).beyond() == old(self).beyond(),
            final(self)@ == Set::<int>::empty(),
    {
        let ghost before = *self;
        let count: usize = self.params.word_count;
        let mut i: usize = 0;
        while i < count
            invariant
                i <= count,
                count == self.params.word_count,
                self.wf(),
                self.params == before.params,
                self.bits@.len() == before.bits@.len(),
                forall|j: int| 0 <= j < i ==> self.bits@[j] == 0,
                forall|j: int| i <= j < self.bits@.len() ==> self.bits@[j] == before.bits@[j],
            decreases count - i,
        {
            self.bits.set(i, 0);
            i = i + 1;
        }
        let ghost words = self.bits@.take(count as int);
        assert forall|b: int| !bit_at(words, b) by {
            if 0 <= b < 64 * words.len() {
                let bit = (b % 64) as u64;
                assert(words[b / 64] == 0);
                assert(0u64 & (1u64 << bit) == 0) by (bit_vector);
            }
        }
        assert(self.beyond() =~= before.beyond());
        assert(self@ =~= Set::<int>::empty());
    }

    /// Insert an integer value as an already-normalized key.
    pub fn insert_u64(&mut self, value: u64)
        requires
            old(self).wf(),
        ensures
            final(self).wf(),
            final(self).params == old(self).params,
            final(self).beyond() == old(self).beyond(),
            final(self)@ == old(self)@.union(positions(old(self).params, value)),
    {
        self.insert_hash(value);
    }

    /// Check an integer value as an already-normalized key.
    pub fn might_contain_u64(&self, value: u64) -> (r: bool)
        requires
            self.wf(),
        ensures
            r == positions(self.params, value).subset_of(self@),
    {
        self.might_contain_hash(value)
    }

    /// Insert an already-hashed key: set its bits.
    pub fn insert_hash(&mut self, hash: u64)
        requires
            old(self).wf(),
        ensures
            final(self).wf(),
            final(self).params == old(self).params,
            final(self).beyond() == old(self).beyond(),
            final(self)@ == old(self)@.union(positions(old(self).params, hash)),
    {
        let ghost params = self.params;
        let ghost before = self@;
        let count: usize = self.params.hash_count;
        let mut i: usize = 0;
        assert(positions_upto(params, hash, 0) =~= Set::<int>::empty());
        assert(self@ =~= before.union(positions_upto(params, hash, 0)));
        while i < count
            invariant
                i <= count,
                count == params.hash_count,
                self.wf(),
                self.params == params,
                self.beyond() == old(self).beyond(),
                self@ == before.union(positions_upto(params, hash, i as int)),
            decreases count - i,
        {
            self.set_position(hash, i);
            proof {
                lemma_one_more_position(params, hash, i as int);
                assert(self@ =~= before.union(positions_upto(params, hash, i + 1)));
            }
            i = i + 1;
        }
        assert(positions_upto(params, hash, count as int) =~= positions(params, hash));
    }

    /// Sets one of the bits of a hash.
    fn set_position(&mut self, hash: u64, hash_index: usize)
        requires
            old(self).wf(),
        ensures
            final(self).wf(),
            final(self).params == old(self).params,
            final(self).beyond() == old(self).beyond(),
            final(self)@ == old(self)@.insert(
                position(old(self).params, hash, hash_index as int),
            ),
    {
        let (word_index, mask) = self.word_mask(hash, hash_index);
        let word: u64 = self.bits[word_index];
        self.bits.set(word_index, word | mask);
        proof {
            let p = position(self.params, hash, hash_index as int);
            let count = self.params.word_count as int;
            let words = old(self).bits@.take(count);
            let after = self.bits@.take(count);
            assert(after =~= words.update(p / 64, words[p / 64] | mask));
            assert forall|b: int| self@.contains(b) == old(self)@.insert(p).contains(b) by {
                lemma_set_bit(words, after, p, b);
            }
            assert(self.beyond() =~= old(self).beyond());
            assert(self@ =~= old(self)@.insert(p));
        }
    }

    /// Return whether an already-hashed key may be present: whether all its bits
    /// are set. `false` means definitely absent.
    pub fn might_contain_hash(&self, hash: u64) -> (r: bool)
        requires
            self.wf(),
        ensures
            r == positions(self.params, hash).subset_of(self@),
    {
        let mut i: usize = 0;
        while i < self.params.hash_count
            invariant
                i <= self.params.hash_count,
                self.wf(),
                forall|j: int|
                    0 <= j < i ==> self@.contains(#[trigger] position(self.params, hash, j)),
            decreases self.params.hash_count - i,
        {
            let (word_index, mask) = self.word_mask(hash, i);
            if self.bits[word_index] & mask == 0 {
                proof {
                    let p = position(self.params, hash, i as int);
                    assert(positions(self.params, hash).contains(p));
                    assert(!self@.contains(p));
                }
                return false;
            }
            assert(self@.contains(position(self.params, hash, i as int)));
            i = i + 1;
        }
        true
    }

    fn word_mask(&self, hash: u64, hash_index: usize) -> (r: (usize, u64))
        requires
            self.wf(),
        ensures
            ({
                let p = position(self.params, hash, hash_index as int);
                &&& 0 <= p < 64 * self.params.word_count
                &&& r.0 == p / 64
                &&& r.0 < self.params.word_count
                &&& r.1 == 1u64 << ((p % 64) as u64)
            }),
    {
        let bit: usize = self.bit_index(hash, hash_index);
        (bit / 64, 1u64 << ((bit % 64) as u64))
    }

    fn bit_index(&self, hash: u64, hash_index: usize) -> (r: usize)
        requires
            self.wf(),
        ensures
            r == position(self.params, hash, hash_index as int),
            r < self.params.bit_count,
    {
        let h1: u64 = splitmix64(hash ^ self.params.seed);
        let h2: u64 = splitmix64(h1 ^ HASH_SALT) | 1;
        let value: u64 = h1.wrapping_add((hash_index as u64).wrapping_mul(h2));
        (value % (self.params.bit_count as u64)) as usize
    }
}

proof fn lemma_one_more_position(params: BloomParams, hash: u64, n: int)
    requires
        0 <= n,
    ensures
        positions_upto(params, hash, n + 1) == positions_upto(params, hash, n).insert(
            position(params, hash, n),
        ),
{
    let more = positions_upto(params, hash, n + 1);
    let p = position(params, hash, n);
    assert forall|b: int| more.contains(b) == positions_upto(params, hash, n).insert(p).contains(
        b,
    ) by {
        if more.contains(b) {
            let j = choose|j: int| 0 <= j < n + 1 && b == #[trigger] position(params, hash, j);
            assert(b == position(params, hash, j));
        }
        if positions_upto(params, hash, n).contains(b) {
            let j = choose|j: int| 0 <= j < n && b == #[trigger] position(params, hash, j);
            assert(b == position(params, hash, j));
        }
    }
    assert(more =~= positions_upto(params, hash, n).insert(p));
}

/// Setting bit `p` sets that bit and no other.
proof fn lemma_set_bit(before: Seq<u64>, after: Seq<u64>, p: int, b: int)
    requires
        0 <= p < 64 * before.len(),
        after == before.update(p / 64, before[p / 64] | (1u64 << ((p % 64) as u64))),
    ensures
        bit_at(after, b) == (bit_at(before, b) || b == p),
{
    let word = before[p / 64];
    let x = (p % 64) as u64;
    let y = (b % 64) as u64;
    assert((word | (1u64 << x)) & (1u64 << y) != 0 <==> (x == y || word & (1u64 << y) != 0))
        by (bit_vector)
        requires
            x < 64,
            y < 64,
    ;
}

/// Layout of a standalone lifecycle header with its bitset.
#[derive(Clone, Copy, Debug, PartialEq, Eq, Structural)]
pub struct RuntimeFilterLayout {
    pub size: usize,
    pub align: usize,
    pub bits_offset: usize,
    pub word_count: usize,
}

/// The layout exceeds addressable memory.
#[derive(Clone, Copy, Debug, PartialEq, Eq, Structural)]
pub struct LayoutError;

/// The largest size that a region with words of eight bytes can have: rounded up
/// to its alignment it still fits into `isize`.
pub open spec fn max_region_size() -> int {
    isize::MAX - 7
}

/// Compute the layout of a standalone slot: the header, then the words.
pub fn runtime_filter_layout(params: BloomParams) -> (r: Result<RuntimeFilterLayout, LayoutError>)
    ensures
        r == if RUNTIME_FILTER_HEADER_SIZE + 8 * params.word_count > max_region_size() {
            Err::<RuntimeFilterLayout, LayoutError>(LayoutError)
        } else {
            Ok(
                RuntimeFilterLayout {
                    size: (RUNTIME_FILTER_HEADER_SIZE + 8 * params.word_count) as usize,
                    align: 8,
                    bits_offset: RUNTIME_FILTER_HEADER_SIZE,
                    word_count: params.word_count,
                },
            )
        },
{
    let limit: usize = isize::MAX as usize - 7;
    if params.word_count > (limit - RUNTIME_FILTER_HEADER_SIZE) / 8 {
        return Err(LayoutError);
    }
    Ok(
        RuntimeFilterLayout {
            size: RUNTIME_FILTER_HEADER_SIZE + 8 * params.word_count,
            align: 8,
            bits_offset: RUNTIME_FILTER_HEADER_SIZE,
            word_count: params.word_count,
        },
    )
}

/// What insertion leaves of a bitset: the bits of all inserted hashes.
pub open spec fn filled(params: BloomParams, start: Set<int>, hashes: Seq<u64>) -> Set<int>
    decreases hashes.len(),
{
    if hashes.len() == 0 {
        start
    } else {
        filled(params, start, hashes.drop_last()).union(positions(params, hashes.last()))
    }
}

/// No false negatives: once inserted, a hash may be present, whatever else is
/// inserted before or after it.
pub proof fn law_no_false_negatives(
    params: BloomParams,
    start: Set<int>,
    hashes: Seq<u64>,
    i: int,
)
    requires
        0 <= i < hashes.len(),
    ensures
        positions(params, hashes[i]).subset_of(filled(params, start, hashes)),
    decreases hashes.len(),
{
    if i < hashes.len() - 1 {
        law_no_false_negatives(params, start, hashes.drop_last(), i);
    }
}

/// Insertions that overlap in time give the same bits in whatever order they
/// take place.
pub proof fn law_insertions_commute(params: BloomParams, bits: Set<int>, a: u64, b: u64)
    ensures
        bits.union(positions(params, a)).union(positions(params, b)) == bits.union(
            positions(params, b),
        ).union(positions(params, a)),
{
    assert(bits.union(positions(params, a)).union(positions(params, b)) =~= bits.union(
        positions(params, b),
    ).union(positions(params, a)));
}

/// Only bits of the filter are ever set.
pub proof fn law_positions_are_addressable(params: BloomParams, hash: u64)
    requires
        params.wf(),
    ensures
        forall|b: int| positions(params, hash).contains(b) ==> 0 <= b < params.bit_count,
{
}

} // verus!

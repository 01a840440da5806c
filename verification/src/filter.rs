//! The executable Bloom filter.

use crate::guarantees::{
    lemma_empty_contains_nothing, lemma_insert_is_not_empty, lemma_insert_preserves_contains,
    lemma_inserted_is_contained, lemma_positions_in_range,
};
use crate::hashing::{base_hashes, derived_index, slot};
use crate::model::{positions, FilterState};
use std::hash::Hash;
use vstd::prelude::*;

verus! {

/// Number of bits of a filter built without an explicit size.
pub const DEFAULT_SIZE: usize = 100;

/// Number of hashers of a filter built without an explicit count.
pub const DEFAULT_NUM_HASHERS: u32 = 3;

/// Why a filter cannot be built.
#[derive(Debug, Clone, Copy, PartialEq, Eq, Structural)]
pub enum ConfigError {
    /// The requested size is zero: there would be no bit to set.
    ZeroSize,
    /// The requested number of hashers is zero: no item would touch any bit.
    ZeroHashers,
}

/// A Bloom filter is a probabilistic structure for encoding membership,
/// somewhat similar to a set.
///
/// It is more space efficient than a conventional hash set, at the cost of
/// some percentage of false positives when testing for membership. It does not
/// store the items that are inserted, only bits derived from their hashes.
/// Once inserted, items cannot be removed, and the size is fixed for the
/// lifetime of the filter.
///
/// Items must implement `Hash`. Since a query may produce a false positive
/// anyway, they need not implement `Eq`. It is a logic error for an item to
/// change its hash while the filter is in use.
///
/// A filter always has at least one bit and at least one hasher. The
/// constructors [`BloomFilter::with_size`] and
/// [`BloomFilter::with_num_hashers`] demand a positive argument from their
/// caller; [`BloomFilter::with_size_and_num_hashers`] tests both at run time
/// and reports a [`ConfigError`].
#[derive(PartialEq, Eq, Hash, Debug)]
pub struct BloomFilter {
    data: Vec<bool>,
    size: usize,
    num_hashers: usize,
}

impl View for BloomFilter {
    type V = FilterState;

    closed spec fn view(&self) -> FilterState {
        FilterState { bits: self.data@, num_hashers: self.num_hashers as nat }
    }
}

impl BloomFilter {
    #[verifier::type_invariant]
    spec fn well_formed(&self) -> bool {
        &&& self.size == self.data@.len()
        &&& self.size > 0
        &&& self.num_hashers > 0
    }

    fn blank(size: usize, num_hashers: usize) -> (filter: BloomFilter)
        requires
            size > 0,
            num_hashers > 0,
        ensures
            filter@ == FilterState::blank(size as nat, num_hashers as nat),
    {
        let data: Vec<bool> = vec![false; size];
        assert(data@ =~= Seq::new(size as nat, |j: int| false));
        BloomFilter { data, size, num_hashers }
    }

    /// Creates an empty filter with 100 bits and 3 hashers.
    pub fn new() -> (filter: BloomFilter)
        ensures
            filter@ == FilterState::blank(100, 3),
    {
        BloomFilter::blank(DEFAULT_SIZE, DEFAULT_NUM_HASHERS as usize)
    }

    /// Creates an empty filter with exactly `size` bits and 3 hashers. The
    /// size must be positive.
    ///
    /// Unlike other set types, a filter cannot be resized afterwards.
    pub fn with_size(size: usize) -> (filter: BloomFilter)
        requires
            size > 0,
        ensures
            filter@ == FilterState::blank(size as nat, 3),
    {
        BloomFilter::blank(size, DEFAULT_NUM_HASHERS as usize)
    }

    /// Creates an empty filter with 100 bits and `hashers` hashers. The number
    /// of hashers must be positive.
    pub fn with_num_hashers(hashers: u32) -> (filter: BloomFilter)
        requires
            hashers > 0,
        ensures
            filter@ == FilterState::blank(100, hashers as nat),
    {
        BloomFilter::blank(DEFAULT_SIZE, hashers as usize)
    }

    /// Creates an empty filter with `size` bits and `hashers` hashers, or says
    /// which of the two is zero; a zero size is reported first.
    pub fn with_size_and_num_hashers(size: usize, hashers: u32) -> (built: Result<
        BloomFilter,
        ConfigError,
    >)
        ensures
            size == 0 ==> built == Err::<BloomFilter, ConfigError>(ConfigError::ZeroSize),
            size > 0 && hashers == 0 ==> built == Err::<BloomFilter, ConfigError>(
                ConfigError::ZeroHashers,
            ),
            size > 0 && hashers > 0 ==> built.is_ok() && built.unwrap()@ == FilterState::blank(
                size as nat,
                hashers as nat,
            ),
    {
        if size == 0 {
            Err(ConfigError::ZeroSize)
        } else if hashers == 0 {
            Err(ConfigError::ZeroHashers)
        } else {
            Ok(BloomFilter::blank(size, hashers as usize))
        }
    }

    /// The number of bits, fixed at construction.
    pub fn size(&self) -> (size: usize)
        ensures
            size == self@.size(),
            size > 0,
    {
        proof {
            use_type_invariant(self);
        }
        self.size
    }

    /// The number of positions derived for each item, fixed at construction.
    pub fn num_hashers(&self) -> (num_hashers: usize)
        ensures
            num_hashers == self@.num_hashers,
            num_hashers > 0,
    {
        proof {
            use_type_invariant(self);
        }
        self.num_hashers
    }

    /// Inserts the item with the given base hashes: sets the bit at each of
    /// its positions and touches nothing else.
    pub fn insert_hashes(&mut self, hash_a: u64, hash_b: u64)
        ensures
            final(self)@ == old(self)@.insert(hash_a, hash_b),
            final(self)@.valid(),
            final(self)@.contains(hash_a, hash_b),
            !final(self)@.is_empty(),
            forall|other_a: u64, other_b: u64|
                old(self)@.contains(other_a, other_b) ==> final(self)@.contains(other_a, other_b),
    {
        proof {
            use_type_invariant(&*self);
        }
        let mut i: usize = 0;
        while i < self.num_hashers
            invariant
                self.well_formed(),
                old(self).well_formed(),
                i <= self.num_hashers == old(self).num_hashers,
                self.size == old(self).size,
                forall|j: int|
                    0 <= j < self.size ==> self.data@[j] == (old(self).data@[j] || positions(
                        hash_a,
                        hash_b,
                        i as nat,
                        self.size as nat,
                    ).contains(j)),
            decreases self.num_hashers - i,
        {
            i += 1;
            let index: usize = derived_index(hash_a, hash_b, i, self.size);
            self.data[index] = true;
        }
        proof {
            assert(self@ =~= old(self)@.insert(hash_a, hash_b));
            lemma_inserted_is_contained(old(self)@, hash_a, hash_b);
            lemma_insert_is_not_empty(old(self)@, hash_a, hash_b);
            assert forall|other_a: u64, other_b: u64|
                old(self)@.contains(other_a, other_b) implies self@.contains(
                other_a,
                other_b,
            ) by {
                lemma_insert_preserves_contains(old(self)@, other_a, other_b, hash_a, hash_b);
            }
        }
    }

    /// Tells whether the item with the given base hashes may have been
    /// inserted: `false` as soon as the bit at one of its positions is not
    /// set, `true` if all of them are.
    pub fn contains_hashes(&self, hash_a: u64, hash_b: u64) -> (present: bool)
        ensures
            present == self@.contains(hash_a, hash_b),
            self@.is_empty() ==> !present,
    {
        proof {
            use_type_invariant(self);
            lemma_positions_in_range(self@, hash_a, hash_b);
            if self@.is_empty() {
                lemma_empty_contains_nothing(self@, hash_a, hash_b);
            }
        }
        let mut i: usize = 0;
        while i < self.num_hashers
            invariant
                self.well_formed(),
                i <= self.num_hashers,
                forall|m: nat|
                    1 <= m <= i ==> self.data@[#[trigger] slot(
                        hash_a,
                        hash_b,
                        m,
                        self.size as nat,
                    )],
            decreases self.num_hashers - i,
        {
            i += 1;
            let index: usize = derived_index(hash_a, hash_b, i, self.size);
            if !self.data[index] {
                assert(self@.positions(hash_a, hash_b).contains(index as int));
                return false;
            }
        }
        true
    }

    /// Adds a value to the filter.
    ///
    /// The value is reduced to its two base hashes, and the filter changes as
    /// by [`BloomFilter::insert_hashes`] with that pair.
    pub fn insert<T: Hash>(&mut self, value: T)
        ensures
            exists|hash_a: u64, hash_b: u64|
                final(self)@ == #[trigger] old(self)@.insert(hash_a, hash_b),
            final(self)@.valid(),
            !final(self)@.is_empty(),
            forall|other_a: u64, other_b: u64|
                old(self)@.contains(other_a, other_b) ==> final(self)@.contains(other_a, other_b),
    {
        let (hash_a, hash_b) = base_hashes(&value);
        self.insert_hashes(hash_a, hash_b);
    }

    /// Returns `false` if the filter definitely does not contain the value,
    /// and `true` if the value may be in the filter.
    ///
    /// The value is reduced to its two base hashes, and the answer is that of
    /// [`BloomFilter::contains_hashes`] for that pair.
    pub fn contains<T: Hash>(&self, value: T) -> (present: bool)
        ensures
            exists|hash_a: u64, hash_b: u64| present == #[trigger] self@.contains(hash_a, hash_b),
            self@.is_empty() ==> !present,
    {
        let (hash_a, hash_b) = base_hashes(&value);
        self.contains_hashes(hash_a, hash_b)
    }

    /// Tells whether no bit is set, that is, whether nothing was inserted
    /// since the filter was built or cleared.
    pub fn is_empty(&self) -> (empty: bool)
        ensures
            empty == self@.is_empty(),
    {
        proof {
            use_type_invariant(self);
        }
        let mut j: usize = 0;
        while j < self.size
            invariant
                self.well_formed(),
                j <= self.size,
                forall|m: int| 0 <= m < j ==> !self.data@[m],
            decreases self.size - j,
        {
            if self.data[j] {
                assert(self@.bits[j as int]);
                return false;
            }
            j += 1;
        }
        true
    }

    /// Resets every bit. The size and the number of hashers stay as they are.
    pub fn clear(&mut self)
        ensures
            final(self)@ == old(self)@.clear(),
            final(self)@.is_empty(),
    {
        proof {
            use_type_invariant(&*self);
        }
        let mut j: usize = 0;
        while j < self.size
            invariant
                self.well_formed(),
                j <= self.size == old(self).size,
                self.num_hashers == old(self).num_hashers,
                forall|m: int| 0 <= m < j ==> !self.data@[m],
            decreases self.size - j,
        {
            self.data[j] = false;
            j += 1;
        }
        assert(self@ =~= old(self)@.clear());
    }
}

impl Clone for BloomFilter {
    /// A filter of the same shape with the same bits.
    fn clone(&self) -> (copy: BloomFilter)
        ensures
            copy@ == self@,
    {
        proof {
            use_type_invariant(self);
        }
        let data: Vec<bool> = self.data.clone();
        assert(data@ =~= self.data@);
        BloomFilter { data, size: self.size, num_hashers: self.num_hashers }
    }
}

impl Default for BloomFilter {
    /// The same filter as [`BloomFilter::new`] builds.
    fn default() -> (filter: BloomFilter)
        ensures
            filter@ == FilterState::blank(100, 3),
    {
        BloomFilter::new()
    }
}

} // verus!

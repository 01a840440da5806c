//! The mathematical state of a Bloom filter.

use crate::hashing::slot;
use vstd::prelude::*;

verus! {

/// The set of bit positions that belong to an item with base hashes `hash_a`
/// and `hash_b`: one [`slot`] for each hasher index from 1 to `num_hashers`.
pub open spec fn positions(hash_a: u64, hash_b: u64, num_hashers: nat, size: nat) -> Set<int> {
    Set::new(
        |j: int|
            exists|i: nat| 1 <= i <= num_hashers && #[trigger] slot(hash_a, hash_b, i, size) == j,
    )
}

/// What a filter is, mathematically: its bits and its number of hashers.
#[verifier::ext_equal]
pub struct FilterState {
    /// The bit array. Its length is the size of the filter.
    pub bits: Seq<bool>,
    /// How many positions are derived for each item.
    pub num_hashers: nat,
}

impl FilterState {
    /// The capacity of the bit array.
    pub open spec fn size(self) -> nat {
        self.bits.len()
    }

    /// A usable filter has at least one bit and at least one hasher.
    pub open spec fn valid(self) -> bool {
        self.size() > 0 && self.num_hashers > 0
    }

    /// The filter of the given shape in which no bit is set.
    pub open spec fn blank(size: nat, num_hashers: nat) -> FilterState {
        FilterState { bits: Seq::new(size, |j: int| false), num_hashers }
    }

    /// No bit is set.
    pub open spec fn is_empty(self) -> bool {
        forall|j: int| 0 <= j < self.size() ==> !self.bits[j]
    }

    /// The positions of an item in this filter.
    pub open spec fn positions(self, hash_a: u64, hash_b: u64) -> Set<int> {
        positions(hash_a, hash_b, self.num_hashers, self.size())
    }

    /// The state after inserting an item: the bits at the item's positions are
    /// set, all other bits and the shape are as before.
    pub open spec fn insert(self, hash_a: u64, hash_b: u64) -> FilterState {
        FilterState {
            bits: Seq::new(
                self.size(),
                |j: int| self.bits[j] || self.positions(hash_a, hash_b).contains(j),
            ),
            num_hashers: self.num_hashers,
        }
    }

    /// The answer to a membership query: whether the bits at all of the item's
    /// positions are set.
    pub open spec fn contains(self, hash_a: u64, hash_b: u64) -> bool {
        forall|j: int| self.positions(hash_a, hash_b).contains(j) ==> self.bits[j]
    }

    /// The state after inserting the items of `items` one after the other,
    /// each item given by its two base hashes.
    pub open spec fn insert_all(self, items: Seq<(u64, u64)>) -> FilterState
        decreases items.len(),
    {
        if items.len() == 0 {
            self
        } else {
            self.insert_all(items.drop_last()).insert(items.last().0, items.last().1)
        }
    }

    /// The state after resetting every bit.
    pub open spec fn clear(self) -> FilterState {
        FilterState::blank(self.size(), self.num_hashers)
    }
}

} // verus!

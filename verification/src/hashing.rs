//! Base hashes of an item and the double-hashing index derivation.

use fnv::FnvHasher;
use std::hash::{Hash, Hasher};
use vstd::prelude::*;

verus! {

/// Key of the first base hash.
pub const SEED_A: u64 = 32;

/// Key of the second base hash. It differs from [`SEED_A`]: with equal keys
/// both base hashes would coincide, and the derived positions would rest on a
/// single hash.
pub const SEED_B: u64 = 123456;

/// The bit position that the `i`-th derived hash function assigns to an item
/// with base hashes `hash_a` and `hash_b` in a filter of `size` bits:
/// `hash_b * i + hash_a`, reduced modulo 2^64 and then modulo `size`.
pub open spec fn slot(hash_a: u64, hash_b: u64, i: nat, size: nat) -> int
    recommends
        size > 0,
{
    ((hash_b * i + hash_a) % 0x1_0000_0000_0000_0000) % (size as int)
}

/// Every slot lies inside the bit array.
pub proof fn lemma_slot_in_range(hash_a: u64, hash_b: u64, i: nat, size: nat)
    requires
        size > 0,
    ensures
        0 <= slot(hash_a, hash_b, i, size) < size,
{
}

/// Computes [`slot`]: multiplies and adds with wrap-around at 2^64, then
/// reduces modulo `size`.
pub fn derived_index(hash_a: u64, hash_b: u64, i: usize, size: usize) -> (index: usize)
    requires
        size > 0,
    ensures
        index == slot(hash_a, hash_b, i as nat, size as nat),
        index < size,
{
    let combined: u64 = hash_b.wrapping_mul(i as u64).wrapping_add(hash_a);
    let reduced: u64 = combined % (size as u64);
    reduced as usize
}

/// Hashes `value` with FNV-1a started from `key`: creates the hasher with
/// `fnv::FnvHasher::with_key`, feeds it the value through `Hash::hash`, and
/// returns what `Hasher::finish` reports.
///
/// Nothing is claimed about the number returned: which bytes reach the hasher
/// is decided by the `Hash` implementation of `T`. The hasher itself accepts
/// every byte sequence; its multiplication wraps around.
#[verifier::external_body]
fn fnv_hash_with_key<T: Hash>(value: &T, key: u64) -> (digest: u64) {
    let mut hasher = FnvHasher::with_key(key);
    value.hash(&mut hasher);
    hasher.finish()
}

/// The two base hashes of `value`: its FNV hash under [`SEED_A`] and under
/// [`SEED_B`], in this order.
///
/// The pair is all that a filter ever learns of an item. A caller that wants
/// to reason about one item across several operations computes the pair once
/// and hands it to `BloomFilter::insert_hashes` and
/// `BloomFilter::contains_hashes`.
pub fn base_hashes<T: Hash>(value: &T) -> (hashes: (u64, u64)) {
    let hash_a: u64 = fnv_hash_with_key(value, SEED_A);
    let hash_b: u64 = fnv_hash_with_key(value, SEED_B);
    (hash_a, hash_b)
}

} // verus!

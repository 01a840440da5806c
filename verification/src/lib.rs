//! A Bloom filter: a fixed-size probabilistic set that answers "definitely
//! absent" or "possibly present".
//!
//! Every item is reduced to two 64-bit base hashes, computed by FNV with two
//! different keys. From that pair the filter derives one bit position per
//! hasher by double hashing, following "Less Hashing, Same Performance:
//! Building a Better Bloom Filter".
//!
//! The module `hashing` holds the base hashes and the index derivation,
//! `model` the mathematical state of a filter, `filter` the executable
//! [`BloomFilter`], and `guarantees` the theorems that hold of every filter.

pub mod filter;
pub mod guarantees;
pub mod hashing;
pub mod model;

pub use filter::{BloomFilter, ConfigError, DEFAULT_NUM_HASHERS, DEFAULT_SIZE};
pub use hashing::{base_hashes, derived_index, SEED_A, SEED_B};
pub use model::FilterState;

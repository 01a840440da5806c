//! Theorems about the filter's state: what holds of every filter, every item
//! and every sequence of insertions.

use crate::hashing::{lemma_slot_in_range, slot};
use crate::model::FilterState;
use vstd::prelude::*;

verus! {

/// All positions of an item lie inside the bit array, and with at least one
/// hasher there is at least one of them.
pub proof fn lemma_positions_in_range(state: FilterState, hash_a: u64, hash_b: u64)
    requires
        state.size() > 0,
    ensures
        forall|j: int| state.positions(hash_a, hash_b).contains(j) ==> 0 <= j < state.size(),
        state.num_hashers > 0 ==> state.positions(hash_a, hash_b).contains(
            slot(hash_a, hash_b, 1, state.size()),
        ),
{
    assert forall|j: int| state.positions(hash_a, hash_b).contains(j) implies 0 <= j
        < state.size() by {
        let i = choose|i: nat|
            1 <= i <= state.num_hashers && #[trigger] slot(hash_a, hash_b, i, state.size()) == j;
        lemma_slot_in_range(hash_a, hash_b, i, state.size());
    }
}

/// An insertion changes neither the size nor the number of hashers, keeps
/// every bit that was set, and leaves a valid filter valid.
pub proof fn lemma_insert_keeps_shape_and_bits(state: FilterState, hash_a: u64, hash_b: u64)
    ensures
        state.insert(hash_a, hash_b).size() == state.size(),
        state.insert(hash_a, hash_b).num_hashers == state.num_hashers,
        state.valid() ==> state.insert(hash_a, hash_b).valid(),
        forall|j: int|
            0 <= j < state.size() && state.bits[j] ==> state.insert(hash_a, hash_b).bits[j],
{
}

/// No false negatives: right after an item was inserted, the filter reports
/// it as possibly present, whatever the filter held before.
pub proof fn lemma_inserted_is_contained(state: FilterState, hash_a: u64, hash_b: u64)
    requires
        state.size() > 0,
    ensures
        state.insert(hash_a, hash_b).contains(hash_a, hash_b),
{
    lemma_positions_in_range(state, hash_a, hash_b);
}

/// Positive answers are monotone: an item that the filter reports as possibly
/// present is still reported so after any other item was inserted.
pub proof fn lemma_insert_preserves_contains(
    state: FilterState,
    hash_a: u64,
    hash_b: u64,
    other_a: u64,
    other_b: u64,
)
    requires
        state.size() > 0,
        state.contains(hash_a, hash_b),
    ensures
        state.insert(other_a, other_b).contains(hash_a, hash_b),
{
    lemma_positions_in_range(state, hash_a, hash_b);
}

/// Any number of insertions changes neither the size nor the number of
/// hashers.
pub proof fn lemma_insert_all_keeps_shape(state: FilterState, items: Seq<(u64, u64)>)
    ensures
        state.insert_all(items).size() == state.size(),
        state.insert_all(items).num_hashers == state.num_hashers,
    decreases items.len(),
{
    if items.len() > 0 {
        lemma_insert_all_keeps_shape(state, items.drop_last());
    }
}

/// Positive answers are monotone along every run of insertions: an item
/// reported as possibly present stays so in each state that further
/// insertions can reach.
pub proof fn lemma_contains_is_monotone(
    state: FilterState,
    hash_a: u64,
    hash_b: u64,
    later: Seq<(u64, u64)>,
)
    requires
        state.size() > 0,
        state.contains(hash_a, hash_b),
    ensures
        state.insert_all(later).contains(hash_a, hash_b),
    decreases later.len(),
{
    if later.len() > 0 {
        lemma_contains_is_monotone(state, hash_a, hash_b, later.drop_last());
        lemma_insert_all_keeps_shape(state, later.drop_last());
        lemma_insert_preserves_contains(
            state.insert_all(later.drop_last()),
            hash_a,
            hash_b,
            later.last().0,
            later.last().1,
        );
    }
}

/// No false negatives, in full: once an item was inserted, the filter reports
/// it as possibly present, whatever was inserted before it and whatever is
/// inserted after it.
pub proof fn lemma_no_false_negatives(
    state: FilterState,
    hash_a: u64,
    hash_b: u64,
    later: Seq<(u64, u64)>,
)
    requires
        state.size() > 0,
    ensures
        state.insert(hash_a, hash_b).insert_all(later).contains(hash_a, hash_b),
{
    lemma_inserted_is_contained(state, hash_a, hash_b);
    lemma_contains_is_monotone(state.insert(hash_a, hash_b), hash_a, hash_b, later);
}

/// A filter without any set bit reports every item as definitely absent.
pub proof fn lemma_empty_contains_nothing(state: FilterState, hash_a: u64, hash_b: u64)
    requires
        state.valid(),
        state.is_empty(),
    ensures
        !state.contains(hash_a, hash_b),
{
    lemma_positions_in_range(state, hash_a, hash_b);
    let j = slot(hash_a, hash_b, 1, state.size());
    assert(state.positions(hash_a, hash_b).contains(j) && !state.bits[j]);
}

/// A freshly built filter, and any filter right after a clear, reports every
/// item as definitely absent.
pub proof fn lemma_blank_contains_nothing(size: nat, num_hashers: nat, hash_a: u64, hash_b: u64)
    requires
        size > 0,
        num_hashers > 0,
    ensures
        FilterState::blank(size, num_hashers).is_empty(),
        !FilterState::blank(size, num_hashers).contains(hash_a, hash_b),
{
    lemma_empty_contains_nothing(FilterState::blank(size, num_hashers), hash_a, hash_b);
}

/// Inserting an item a second time changes nothing.
pub proof fn lemma_insert_is_idempotent(state: FilterState, hash_a: u64, hash_b: u64)
    ensures
        state.insert(hash_a, hash_b).insert(hash_a, hash_b) == state.insert(hash_a, hash_b),
{
    assert(state.insert(hash_a, hash_b).insert(hash_a, hash_b) =~= state.insert(hash_a, hash_b));
}

/// After an insertion the filter is not empty.
pub proof fn lemma_insert_is_not_empty(state: FilterState, hash_a: u64, hash_b: u64)
    requires
        state.valid(),
    ensures
        !state.insert(hash_a, hash_b).is_empty(),
{
    lemma_positions_in_range(state, hash_a, hash_b);
    let j = slot(hash_a, hash_b, 1, state.size());
    assert(state.insert(hash_a, hash_b).bits[j]);
}

} // verus!

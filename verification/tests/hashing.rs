use bloom::{base_hashes, derived_index, BloomFilter, SEED_A, SEED_B};

#[test]
fn derived_index_adds_multiples_of_the_second_hash() {
    assert_eq!(derived_index(5, 7, 1, 10), 2);
    assert_eq!(derived_index(5, 7, 2, 10), 9);
    assert_eq!(derived_index(5, 7, 3, 10), 6);
    assert_eq!(derived_index(10, 20, 5, 100), 10);
    assert_eq!(derived_index(5, 7, 0, 10), 5);
}

#[test]
fn derived_index_wraps_at_two_to_the_sixty_four() {
    assert_eq!(derived_index(u64::MAX, 2, 1, 7), 1);
    assert_eq!(derived_index(u64::MAX, u64::MAX, 1, 1000), 614);
    assert_eq!(derived_index(u64::MAX, u64::MAX, 2, 1000), 613);
    assert_eq!(derived_index(u64::MAX, u64::MAX, 3, 1000), 612);
}

#[test]
fn derived_index_of_a_single_bit_is_zero() {
    assert_eq!(derived_index(u64::MAX, 12345, 9, 1), 0);
    assert_eq!(derived_index(0, 0, 1, 1), 0);
}

#[test]
fn seeds_are_distinct() {
    assert_eq!(SEED_A, 32);
    assert_eq!(SEED_B, 123456);
    assert_ne!(SEED_A, SEED_B);
}

#[test]
fn base_hashes_are_the_keyed_fnv_hashes() {
    assert_eq!(base_hashes(&2u8), (37383395359174, 135743506595673638));
    assert_eq!(base_hashes(&7u8), (42880953500229, 135749004153814693));
    assert_eq!(base_hashes(&"foo"), (15986626689380685925, 6102827813900485765));
    assert_eq!(base_hashes(&"bar"), (6711337778989457374, 3061365191647836926));
}

#[test]
fn base_hashes_differ_from_the_seeds_and_from_each_other() {
    let (hash_a, hash_b) = base_hashes(&"foo");
    assert_ne!(hash_a, SEED_A);
    assert_ne!(hash_b, SEED_B);
    assert_ne!(hash_a, hash_b);
}

#[test]
fn base_hashes_are_stable() {
    assert_eq!(base_hashes(&"foo"), base_hashes(&"foo"));
    assert_eq!(base_hashes(&String::from("foo")), base_hashes(&"foo"));
    assert_ne!(base_hashes(&"foo"), base_hashes(&"bar"));
}

#[test]
fn derived_positions_of_an_item_are_not_all_identical() {
    let (hash_a, hash_b) = base_hashes(&"foo");
    let first = derived_index(hash_a, hash_b, 1, 100);
    let second = derived_index(hash_a, hash_b, 2, 100);
    let third = derived_index(hash_a, hash_b, 3, 100);
    assert_eq!((first, second, third), (74, 39, 4));
    assert!(first != second || second != third);
}

#[test]
fn insert_uses_the_base_hashes_of_the_value() {
    let mut by_value = BloomFilter::new();
    by_value.insert("foo");
    let (hash_a, hash_b) = base_hashes(&"foo");
    let mut by_hashes = BloomFilter::new();
    by_hashes.insert_hashes(hash_a, hash_b);
    assert_eq!(by_value, by_hashes);
    assert_eq!(by_value.contains_hashes(hash_a, hash_b), true);
    assert_eq!(by_hashes.contains("foo"), true);
    assert_eq!(by_value.contains_hashes(74, 0), true);
    assert_eq!(by_value.contains_hashes(39, 0), true);
    assert_eq!(by_value.contains_hashes(4, 0), true);
    assert_eq!(by_value.contains_hashes(5, 0), false);
}

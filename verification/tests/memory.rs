use bytecode::memory::{free_array, grow_array, grow_capacity, reallocate};

#[test]
fn grow_capacity_starts_at_eight() {
    assert_eq!(grow_capacity(0), 8);
    assert_eq!(grow_capacity(1), 8);
    assert_eq!(grow_capacity(7), 8);
    assert_eq!(grow_capacity(-3), 8);
}

#[test]
fn grow_capacity_doubles_from_eight() {
    assert_eq!(grow_capacity(8), 16);
    assert_eq!(grow_capacity(9), 18);
    assert_eq!(grow_capacity(16), 32);
    assert_eq!(grow_capacity(1024), 2048);
}

#[test]
fn grow_capacity_reaches_the_largest_even_capacity() {
    assert_eq!(grow_capacity(i32::MAX / 2), i32::MAX - 1);
}

#[test]
fn reallocate_to_zero_releases_the_block() {
    assert_eq!(reallocate::<u8>(None, 0, 0), None);
    assert_eq!(reallocate(Some(vec![1u8, 2, 3]), 3, 0), None);
    assert_eq!(reallocate(Some(vec![1u64, 2, 3]), 3, 0), None);
}

#[test]
fn reallocate_without_a_block_fills_with_defaults() {
    assert_eq!(reallocate::<u8>(None, 0, 8), Some(vec![0u8; 8]));
    assert_eq!(reallocate::<u64>(None, 0, 3), Some(vec![0u64, 0, 0]));
    assert_eq!(reallocate::<String>(None, 0, 2), Some(vec![String::new(), String::new()]));
}

#[test]
fn reallocate_without_a_block_ignores_the_old_size() {
    assert_eq!(reallocate::<u8>(None, 5, 2), Some(vec![0u8, 0]));
}

#[test]
fn reallocate_keeps_the_old_slots_in_place() {
    let grown = reallocate(Some(vec![7u8, 8, 9]), 3, 6);
    assert_eq!(grown, Some(vec![7u8, 8, 9, 0, 0, 0]));
}

#[test]
fn reallocate_to_the_same_size_changes_nothing() {
    assert_eq!(reallocate(Some(vec![4u64, 5]), 2, 2), Some(vec![4u64, 5]));
}

#[test]
fn reallocate_carries_over_only_the_old_size() {
    let grown = reallocate(Some(vec![1u8, 2, 3, 4]), 2, 5);
    assert_eq!(grown, Some(vec![1u8, 2, 0, 0, 0]));
}

#[test]
fn reallocate_works_on_owned_items() {
    let old = vec![String::from("a"), String::from("b")];
    let grown = reallocate(Some(old), 2, 3);
    assert_eq!(grown, Some(vec![String::from("a"), String::from("b"), String::new()]));
}

#[test]
fn grow_array_yields_a_block_of_the_new_size() {
    let first = grow_array::<u8>(None, 0, 8);
    assert_eq!(first, Some(vec![0u8; 8]));
    let mut block = first.unwrap();
    block[0] = 42;
    block[7] = 43;
    let second = grow_array(Some(block), 8, 16).unwrap();
    assert_eq!(second.len(), 16);
    assert_eq!(second[0], 42);
    assert_eq!(second[7], 43);
    assert!(second[8..].iter().all(|slot| *slot == 0));
}

#[test]
fn grow_array_to_zero_is_no_block() {
    assert_eq!(grow_array::<u64>(None, 0, 0), None);
}

#[test]
fn free_array_leaves_nothing() {
    assert_eq!(free_array(Some(vec![1u8, 2, 3]), 3), None);
    assert_eq!(free_array::<u8>(None, 0), None);
    assert_eq!(free_array(Some(vec![1u64]), 1), None);
}

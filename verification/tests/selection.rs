use fund_engine::percentiles::{percentiles, sort_keys};

#[test]
fn sort_orders_ascending_with_duplicates() {
    let keys: Vec<u64> = vec![5, 1, 4, 1, 3];
    let sorted = sort_keys(&keys);
    assert_eq!(sorted, vec![1, 1, 3, 4, 5]);
}

#[test]
fn sort_of_empty_and_singleton() {
    let empty: Vec<u64> = Vec::new();
    assert_eq!(sort_keys(&empty), Vec::<u64>::new());
    let one: Vec<u64> = vec![7];
    assert_eq!(sort_keys(&one), vec![7]);
}

#[test]
fn readings_come_from_the_sorted_sequence() {
    let keys: Vec<u64> = vec![90, 10, 50, 30, 70, 20, 80, 60, 40, 100];
    let (p10, p50, p90) = percentiles(&keys, 1, 5, 9);
    assert_eq!(p10, 20);
    assert_eq!(p50, 60);
    assert_eq!(p90, 100);
}

#[test]
fn indices_are_clamped_to_the_last_entry() {
    let keys: Vec<u64> = vec![3, 1, 2];
    let (a, b, c) = percentiles(&keys, 0, 5, 100);
    assert_eq!(a, 1);
    assert_eq!(b, 3);
    assert_eq!(c, 3);
}

#[test]
fn readings_are_ordered_for_ordered_indices() {
    let keys: Vec<u64> = vec![8, 8, 2, 9, 4, 4, 7, 1, 1, 5, 6, 3];
    let n = keys.len();
    let (p10, p50, p90) = percentiles(&keys, n / 10, n / 2, n * 9 / 10);
    assert!(p10 <= p50);
    assert!(p50 <= p90);
}

#[test]
fn single_sample_serves_every_percentile() {
    let keys: Vec<u64> = vec![11];
    let (a, b, c) = percentiles(&keys, 0, 0, 0);
    assert_eq!((a, b, c), (11, 11, 11));
}

#[test]
fn extreme_keys_sort_to_the_ends() {
    let keys: Vec<u64> = vec![u64::MAX, 0, 1, u64::MAX - 1, 0];
    let sorted = sort_keys(&keys);
    assert_eq!(sorted, vec![0, 0, 1, u64::MAX - 1, u64::MAX]);
}

#[test]
fn all_equal_keys_give_one_reading() {
    let keys: Vec<u64> = vec![4, 4, 4, 4];
    let (a, b, c) = percentiles(&keys, 0, 2, 3);
    assert_eq!((a, b, c), (4, 4, 4));
}

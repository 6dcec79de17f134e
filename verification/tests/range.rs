use worldping::range::AddrRange;

#[test]
fn range_yields_all_addresses_ascending() {
    let mut range = AddrRange::new(5, 9);
    assert_eq!(range.len(), 5);
    let mut seen: Vec<u32> = Vec::new();
    while let Some(addr) = range.next() {
        seen.push(addr);
    }
    assert_eq!(seen, vec![5, 6, 7, 8, 9]);
    assert!(range.next().is_none());
}

#[test]
fn singleton_range_yields_exactly_one_address() {
    let mut range = AddrRange::new(42, 42);
    assert_eq!(range.len(), 1);
    assert_eq!(range.next(), Some(42));
    assert_eq!(range.next(), None);
}

#[test]
fn full_range_length_includes_the_last_address() {
    let range = AddrRange::new(0, u32::MAX);
    assert_eq!(range.len(), 1u64 << 32);
}

#[test]
fn top_of_range_is_reachable() {
    let mut range = AddrRange::new(u32::MAX - 1, u32::MAX);
    assert_eq!(range.next(), Some(u32::MAX - 1));
    assert_eq!(range.next(), Some(u32::MAX));
    assert_eq!(range.next(), None);
}

#[test]
fn inverted_bounds_give_an_empty_range() {
    let mut range = AddrRange::new(9, 5);
    assert_eq!(range.len(), 0);
    assert_eq!(range.next(), None);
}

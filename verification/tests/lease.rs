use steamos_manager::error::Error;
use steamos_manager::lease::LeaseTable;

fn listing(items: &[(&str, u32)]) -> Vec<(String, u32)> {
    items.iter().map(|(key, count)| (String::from(*key), *count)).collect()
}

fn sorted(table: &LeaseTable) -> Vec<(String, u32)> {
    let mut list = table.list();
    list.sort();
    list
}

#[test]
fn references_are_counted() {
    let mut table = LeaseTable::new();
    assert!(table.is_empty());
    assert_eq!(table.count("a"), 0);
    assert_eq!(table.acquire("a"), Ok(1));
    assert_eq!(table.acquire("a"), Ok(2));
    assert_eq!(table.acquire("b"), Ok(1));
    assert_eq!(sorted(&table), listing(&[("a", 2), ("b", 1)]));
    assert_eq!(table.count("a"), 2);
    assert_eq!(table.release("a"), Some(1));
    assert_eq!(sorted(&table), listing(&[("a", 1), ("b", 1)]));
    assert_eq!(table.release("c"), None);
    assert_eq!(table.release("a"), Some(0));
    assert_eq!(table.release("a"), None);
    assert_eq!(sorted(&table), listing(&[("b", 1)]));
    assert!(!table.is_empty());
    assert_eq!(table.release("b"), Some(0));
    assert!(table.is_empty());
}

#[test]
fn count_that_cannot_grow_is_reported() {
    let mut table = LeaseTable::from_list(&listing(&[("a", u32::MAX), ("b", u32::MAX - 1)])).unwrap();
    assert_eq!(table.acquire("a"), Err(Error::Overflow));
    assert_eq!(table.count("a"), u32::MAX);
    assert_eq!(table.acquire("b"), Ok(u32::MAX));
    assert_eq!(table.acquire("b"), Err(Error::Overflow));
    assert_eq!(table.release("a"), Some(u32::MAX - 1));
    assert_eq!(table.acquire("a"), Ok(u32::MAX));
}

#[test]
fn listings_spell_out_tables() {
    let table = LeaseTable::from_list(&listing(&[("b", 2), ("a", 1)])).unwrap();
    assert_eq!(sorted(&table), listing(&[("a", 1), ("b", 2)]));
    assert!(LeaseTable::from_list(&listing(&[])).unwrap().is_empty());
    assert!(matches!(LeaseTable::from_list(&listing(&[("a", 0)])), Err(Error::InvalidData)));
    assert!(matches!(
        LeaseTable::from_list(&listing(&[("a", 1), ("b", 1), ("a", 2)])),
        Err(Error::InvalidData)
    ));
}

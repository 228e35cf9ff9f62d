use map_registry::concurrent_map::ConcurrentMap;
use map_registry::errors::MapError;

#[test]
fn new_map_is_empty() {
    let m = ConcurrentMap::new();
    assert_eq!(m.get(0), Err(MapError::KeyNotFound));
    assert_eq!(m.get(u64::MAX), Err(MapError::KeyNotFound));
}

#[test]
fn insert_and_get_single_map() {
    let mut m = ConcurrentMap::new();
    assert_eq!(m.insert(42, 7), None);
    assert_eq!(m.get(42), Ok(7));
    assert_eq!(m.insert(42, 8), Some(7));
    assert_eq!(m.get(42), Ok(8));
    assert_eq!(m.get(43), Err(MapError::KeyNotFound));
}

#[test]
fn insert_replaces_rather_than_accumulates() {
    let mut m = ConcurrentMap::new();
    assert_eq!(m.insert(1, 10), None);
    assert_eq!(m.insert(1, 10), Some(10));
    assert_eq!(m.insert(1, 10), Some(10));
    assert_eq!(m.get(1), Ok(10));
}

#[test]
fn keys_and_values_do_not_mix() {
    let mut m = ConcurrentMap::new();
    assert_eq!(m.insert(3, 4), None);
    assert_eq!(m.get(4), Err(MapError::KeyNotFound));
    assert_eq!(m.get(3), Ok(4));
}

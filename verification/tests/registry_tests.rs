use map_registry::errors::MapError;
use map_registry::registry::MapRegistry;

#[test]
fn it_works() {
    let result = 2 + 2;
    assert_eq!(result, 4);
}

#[test]
fn boundary_scenario() {
    let mut reg = MapRegistry::new();
    let h = reg.create();
    assert_eq!(h, 0);
    assert_eq!(reg.get(0, 42), Err(MapError::KeyNotFound));
    assert_eq!(reg.insert(0, 42, 100), Ok(None));
    assert_eq!(reg.get(0, 42), Ok(100));
    assert_eq!(reg.insert(0, 42, 200), Ok(Some(100)));
    assert_eq!(reg.get(1, 0), Err(MapError::InvalidHandle));
}

#[test]
fn create_hands_out_consecutive_handles() {
    let mut reg = MapRegistry::new();
    assert_eq!(reg.create(), 0);
    assert_eq!(reg.create(), 1);
    assert_eq!(reg.create(), 2);
    assert_eq!(reg.get(2, 7), Err(MapError::KeyNotFound));
    assert_eq!(reg.get(3, 7), Err(MapError::InvalidHandle));
}

#[test]
fn insert_then_get_round_trips() {
    let mut reg = MapRegistry::new();
    let h = reg.create();
    assert_eq!(reg.insert(h, 1, 99), Ok(None));
    assert_eq!(reg.get(h, 1), Ok(99));
    assert_eq!(reg.get(h, 99), Err(MapError::KeyNotFound));
}

#[test]
fn repeated_get_is_stable() {
    let mut reg = MapRegistry::new();
    let h = reg.create();
    assert_eq!(reg.insert(h, 5, 50), Ok(None));
    assert_eq!(reg.get(h, 5), Ok(50));
    assert_eq!(reg.get(h, 5), Ok(50));
    assert_eq!(reg.get(h, 5), Ok(50));
}

#[test]
fn insert_reports_displaced_value() {
    let mut reg = MapRegistry::new();
    let h = reg.create();
    assert_eq!(reg.insert(h, 8, 1), Ok(None));
    assert_eq!(reg.insert(h, 8, 2), Ok(Some(1)));
    assert_eq!(reg.insert(h, 8, 3), Ok(Some(2)));
    assert_eq!(reg.get(h, 8), Ok(3));
}

#[test]
fn disjoint_keys_are_all_readable() {
    let mut reg = MapRegistry::new();
    let h = reg.create();
    for k in 0..16u64 {
        assert_eq!(reg.insert(h, k, 1000 + k), Ok(None));
    }
    for k in 0..16u64 {
        assert_eq!(reg.get(h, k), Ok(1000 + k));
    }
}

#[test]
fn handles_are_isolated() {
    let mut reg = MapRegistry::new();
    let a = reg.create();
    let b = reg.create();
    assert_eq!(reg.insert(a, 10, 111), Ok(None));
    assert_eq!(reg.insert(b, 10, 222), Ok(None));
    assert_eq!(reg.get(a, 10), Ok(111));
    assert_eq!(reg.get(b, 10), Ok(222));
    assert_eq!(reg.insert(a, 10, 333), Ok(Some(111)));
    assert_eq!(reg.get(b, 10), Ok(222));
    assert_eq!(reg.get(b, 11), Err(MapError::KeyNotFound));
}

#[test]
fn invalid_handle_is_rejected_everywhere() {
    let mut reg = MapRegistry::new();
    assert_eq!(reg.get(0, 0), Err(MapError::InvalidHandle));
    assert_eq!(reg.insert(0, 0, 0), Err(MapError::InvalidHandle));
    let h = reg.create();
    assert_eq!(reg.insert(h, 0, 0), Ok(None));
    assert_eq!(reg.insert(h + 1, 0, 0), Err(MapError::InvalidHandle));
    assert_eq!(reg.get(usize::MAX, 0), Err(MapError::InvalidHandle));
}

#[test]
fn resolve_finds_the_created_map() {
    let mut reg = MapRegistry::new();
    let h = reg.create();
    assert_eq!(reg.insert(h, 21, 84), Ok(None));
    match reg.resolve(h) {
        Ok(m) => {
            assert_eq!(m.get(21), Ok(84));
            assert_eq!(m.get(22), Err(MapError::KeyNotFound));
        }
        Err(_) => panic!("a handle issued by create must resolve"),
    }
    match reg.resolve(h + 1) {
        Ok(_) => panic!("a handle never issued must not resolve"),
        Err(e) => assert_eq!(e, MapError::InvalidHandle),
    }
}

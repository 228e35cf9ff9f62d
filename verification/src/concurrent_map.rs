//! A single concurrent map from `u64` keys to `u64` values.
//!
//! The storage is a `dashmap::DashMap`, a sharded hash map that is safe for
//! many concurrent readers and writers. Its contents are modelled by the
//! uninterpreted function [`dash_contents`]; the few methods the library
//! calls are wrapped with contracts stated over that model, and everything
//! above the wrappers is verified.

use vstd::prelude::*;

use crate::errors::MapError;
use dashmap::DashMap;

verus! {

#[verifier::external_type_specification]
#[verifier::external_body]
#[verifier::reject_recursive_types(K)]
#[verifier::reject_recursive_types(V)]
#[verifier::reject_recursive_types(S)]
pub struct ExDashMap<K, V, S>(dashmap::DashMap<K, V, S>);

/// The key/value pairs a `DashMap` holds, as a mathematical map.
pub uninterp spec fn dash_contents(m: DashMap<u64, u64>) -> Map<u64, u64>;

/// The contents of a map that holds no entries.
pub open spec fn empty_map() -> Map<u64, u64> {
    Map::empty()
}

/// Relies on `dashmap::DashMap::new`: the freshly built map holds no entries.
#[verifier::external_body]
fn dash_new() -> (r: DashMap<u64, u64>)
    ensures
        dash_contents(r) == empty_map(),
{
    DashMap::new()
}

/// Relies on `dashmap::DashMap::get`: returns a reference to the value bound
/// to the key if there is one, and `None` otherwise.
#[verifier::external_body]
fn dash_get(m: &DashMap<u64, u64>, key: u64) -> (r: Option<u64>)
    ensures
        r == (if dash_contents(*m).dom().contains(key) {
            Some(dash_contents(*m)[key])
        } else {
            None::<u64>
        }),
{
    match m.get(&key) {
        Some(entry) => Some(*entry.value()),
        None => None,
    }
}

/// Relies on `dashmap::DashMap::insert`: binds the key to the value and
/// returns the old value associated with the key if there was one.
#[verifier::external_body]
fn dash_insert(m: &mut DashMap<u64, u64>, key: u64, val: u64) -> (r: Option<u64>)
    ensures
        dash_contents(*final(m)) == dash_contents(*old(m)).insert(key, val),
        r == (if dash_contents(*old(m)).dom().contains(key) {
            Some(dash_contents(*old(m))[key])
        } else {
            None::<u64>
        }),
{
    m.insert(key, val)
}

/// What `get` returns on a map whose contents are `m`: the bound value, or
/// `KeyNotFound` for a key that has never been inserted.
pub open spec fn spec_map_get(m: Map<u64, u64>, key: u64) -> Result<u64, MapError> {
    if m.dom().contains(key) {
        Ok(m[key])
    } else {
        Err(MapError::KeyNotFound)
    }
}

/// A map from `u64` keys to `u64` values, safe for concurrent access from
/// many threads without a caller-visible lock.
///
/// Its view is the mathematical map of its current key/value pairs.
pub struct ConcurrentMap {
    inner: DashMap<u64, u64>,
}

impl View for ConcurrentMap {
    type V = Map<u64, u64>;

    closed spec fn view(&self) -> Map<u64, u64> {
        dash_contents(self.inner)
    }
}

impl ConcurrentMap {
    /// Builds an empty map.
    pub fn new() -> (r: Self)
        ensures
            r@ == empty_map(),
    {
        ConcurrentMap { inner: dash_new() }
    }

    /// Returns the value currently bound to `key`, or `KeyNotFound` if the
    /// key has never been inserted. No side effects: the result is a
    /// function of the map's contents alone.
    pub fn get(&self, key: u64) -> (r: Result<u64, MapError>)
        ensures
            r == spec_map_get(self@, key),
    {
        match dash_get(&self.inner, key) {
            Some(v) => Ok(v),
            None => Err(MapError::KeyNotFound),
        }
    }

    /// Binds `key` to `val`, replacing any prior binding. Returns the
    /// displaced value if one existed, and `None` if the key is new: absence
    /// of a prior value is an ordinary success, not a failure.
    pub fn insert(&mut self, key: u64, val: u64) -> (r: Option<u64>)
        ensures
            final(self)@ == old(self)@.insert(key, val),
            r == (if old(self)@.dom().contains(key) {
                Some(old(self)@[key])
            } else {
                None::<u64>
            }),
    {
        dash_insert(&mut self.inner, key, val)
    }
}

} // verus!

//! An append-only registry of concurrent maps, addressed by handle.
//!
//! A handle is the position at which `create` appended the map, starting at
//! 0. Handles are permanent: the registry never removes or relocates an
//! entry, so a handle, once issued, refers to the same map for the life of
//! the registry. A handle is valid iff it is below the current length; an
//! invalid handle is reported as `InvalidHandle`, never silently treated as
//! handle 0.

use vstd::prelude::*;

use crate::concurrent_map::ConcurrentMap;
use crate::concurrent_map::empty_map;
use crate::concurrent_map::spec_map_get;
use crate::errors::MapError;

verus! {

/// What `get` returns on a registry whose maps are `maps`: `InvalidHandle`
/// for a handle that was never issued, otherwise what a lookup in the map at
/// `handle` gives.
pub open spec fn spec_get(maps: Seq<Map<u64, u64>>, handle: usize, key: u64) -> Result<
    u64,
    MapError,
> {
    if handle < maps.len() {
        spec_map_get(maps[handle as int], key)
    } else {
        Err(MapError::InvalidHandle)
    }
}

/// The registry's maps after `insert`: only the map at `handle` changes, and
/// it gains the binding `key -> val`. An invalid handle changes nothing.
pub open spec fn spec_insert_maps(
    maps: Seq<Map<u64, u64>>,
    handle: usize,
    key: u64,
    val: u64,
) -> Seq<Map<u64, u64>> {
    if handle < maps.len() {
        maps.update(handle as int, maps[handle as int].insert(key, val))
    } else {
        maps
    }
}

/// What `insert` returns: `InvalidHandle` for a handle that was never
/// issued; otherwise `Ok` with the displaced value, or `Ok(None)` when the
/// key is new.
pub open spec fn spec_insert_result(
    maps: Seq<Map<u64, u64>>,
    handle: usize,
    key: u64,
    val: u64,
) -> Result<Option<u64>, MapError> {
    if handle < maps.len() {
        if maps[handle as int].dom().contains(key) {
            Ok(Some(maps[handle as int][key]))
        } else {
            Ok(None)
        }
    } else {
        Err(MapError::InvalidHandle)
    }
}

/// An ordered, append-only collection of [`ConcurrentMap`]s, each identified
/// by its position.
///
/// Growth (`create`) takes `&mut self` and so is serialized by the borrow
/// discipline, while resolution and per-map access never move an existing
/// entry. Its view is the sequence of the maps' contents, in creation order.
pub struct MapRegistry {
    maps: Vec<ConcurrentMap>,
}

impl View for MapRegistry {
    type V = Seq<Map<u64, u64>>;

    closed spec fn view(&self) -> Seq<Map<u64, u64>> {
        self.maps@.map_values(|m: ConcurrentMap| m@)
    }
}

impl MapRegistry {
    /// A handle is valid iff it is below the registry's current length.
    pub open spec fn valid_handle(&self, handle: usize) -> bool {
        handle < self@.len()
    }

    /// Builds an empty registry.
    pub fn new() -> (r: Self)
        ensures
            r@ == Seq::<Map<u64, u64>>::empty(),
    {
        let r = MapRegistry { maps: Vec::new() };
        proof {
            assert(r@ =~= Seq::<Map<u64, u64>>::empty());
        }
        r
    }

    /// Appends a new, empty map and returns its position as the handle.
    /// Every handle issued earlier still refers to the same, unchanged map.
    pub fn create(&mut self) -> (handle: usize)
        ensures
            handle == old(self)@.len(),
            final(self)@ == old(self)@.push(empty_map()),
    {
        let handle = self.maps.len();
        self.maps.push(ConcurrentMap::new());
        proof {
            assert(self@ =~= old(self)@.push(empty_map()));
        }
        handle
    }

    /// Looks up the map at `handle`, or reports `InvalidHandle` if the
    /// handle was never issued. Safe to call concurrently with access to
    /// other maps: it only reads the registry.
    pub fn resolve(&self, handle: usize) -> (r: Result<&ConcurrentMap, MapError>)
        ensures
            self.valid_handle(handle) ==> (r matches Ok(m) && m@ == self@[handle as int]),
            !self.valid_handle(handle) ==> (r matches Err(e) && e == MapError::InvalidHandle),
    {
        if handle < self.maps.len() {
            Ok(&self.maps[handle])
        } else {
            Err(MapError::InvalidHandle)
        }
    }

    /// Resolves `handle` and looks `key` up in that map. Read-only, and the
    /// result is a function of the registry's contents alone.
    pub fn get(&self, handle: usize, key: u64) -> (r: Result<u64, MapError>)
        ensures
            r == spec_get(self@, handle, key),
    {
        match self.resolve(handle) {
            Ok(m) => m.get(key),
            Err(e) => Err(e),
        }
    }

    /// Resolves `handle` and binds `key` to `val` in that map, returning the
    /// displaced value if one existed. No other map changes, and an invalid
    /// handle changes nothing at all.
    pub fn insert(&mut self, handle: usize, key: u64, val: u64) -> (r: Result<Option<u64>, MapError>)
        ensures
            final(self)@ == spec_insert_maps(old(self)@, handle, key, val),
            r == spec_insert_result(old(self)@, handle, key, val),
    {
        if handle < self.maps.len() {
            let m = &mut self.maps[handle];
            let prev = m.insert(key, val);
            proof {
                assert(self@ =~= spec_insert_maps(old(self)@, handle, key, val));
            }
            Ok(prev)
        } else {
            Err(MapError::InvalidHandle)
        }
    }
}

} // verus!

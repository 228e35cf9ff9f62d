//! A handle-indexed registry of concurrent key/value maps.
//!
//! The registry owns an append-only collection of [`concurrent_map::ConcurrentMap`]
//! instances and hands out each one's position as an opaque integer handle.
//! Callers re-resolve a handle through the registry on every call; they never
//! hold a reference to a map itself. Keys and values are fixed to `u64`.

pub mod concurrent_map;
pub mod errors;
pub mod laws;
pub mod registry;

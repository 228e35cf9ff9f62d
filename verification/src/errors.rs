use vstd::prelude::*;

verus! {

/// Why a registry or map operation failed.
///
/// Failure isolation is per call: neither error corrupts state that belongs
/// to other handles or keys.
#[derive(Clone, Copy, Debug, PartialEq, Eq, Structural)]
pub enum MapError {
    /// The handle is outside the registry's current range: it was never
    /// issued by `create`. Misuse of a handle is never silently treated as
    /// handle 0.
    InvalidHandle,
    /// The key has never been inserted into the addressed map.
    KeyNotFound,
}

} // verus!

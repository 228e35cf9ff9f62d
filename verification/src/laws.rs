//! Laws that relate the registry's operations to one another.
//!
//! Each proof function quantifies over the states and results that the
//! operations' own contracts describe, so together they pin down how runs of
//! `create`, `get` and `insert` behave.

use vstd::prelude::*;

use crate::concurrent_map::empty_map;
use crate::errors::MapError;
use crate::registry::spec_get;
use crate::registry::spec_insert_maps;
use crate::registry::spec_insert_result;

verus! {

/// One `create` call as its contract has it: in state `pre` it returns
/// `handle == pre.len()` and leaves the registry in state `post`, `pre` with
/// one empty map appended.
pub open spec fn create_step(pre: Seq<Map<u64, u64>>, post: Seq<Map<u64, u64>>, handle: int) -> bool {
    post == pre.push(empty_map()) && handle == pre.len()
}

proof fn lemma_create_run_len(states: Seq<Seq<Map<u64, u64>>>, handles: Seq<int>, i: int)
    requires
        states.len() == handles.len() + 1,
        states[0] == Seq::<Map<u64, u64>>::empty(),
        forall|j: int|
            0 <= j < handles.len() ==> #[trigger] create_step(states[j], states[j + 1], handles[j]),
        0 <= i < states.len(),
    ensures
        states[i].len() == i,
    decreases i,
{
    if i > 0 {
        lemma_create_run_len(states, handles, i - 1);
        assert(create_step(states[i - 1], states[(i - 1) + 1], handles[i - 1]));
    }
}

/// A run of `create` calls, started on an empty registry, hands out the
/// handles 0, 1, ..., n-1 in order: no duplicates and no gaps, whatever else
/// happens between the calls to the maps that already exist. `states` are
/// the registry's views before each call and after the last; `handles[i]` is
/// what the call made in state `states[i]` returned, as `create`'s contract
/// has it.
pub proof fn lemma_create_handles(states: Seq<Seq<Map<u64, u64>>>, handles: Seq<int>)
    requires
        states.len() == handles.len() + 1,
        states[0] == Seq::<Map<u64, u64>>::empty(),
        forall|i: int|
            0 <= i < handles.len() ==> #[trigger] create_step(states[i], states[i + 1], handles[i]),
    ensures
        forall|i: int| 0 <= i < handles.len() ==> #[trigger] handles[i] == i,
        forall|h: int| handles.contains(h) <==> 0 <= h < handles.len(),
{
    assert forall|i: int| 0 <= i < handles.len() implies #[trigger] handles[i] == i by {
        lemma_create_run_len(states, handles, i);
        assert(create_step(states[i], states[i + 1], handles[i]));
    }
    assert forall|h: int| 0 <= h < handles.len() implies handles.contains(h) by {
        assert(handles[h] == h);
    }
}

/// Operations through one handle never observe or disturb another handle's
/// map: an `insert` through `handle` leaves the map at any other handle
/// untouched, and what a `get` through that other handle returns is
/// unchanged as well.
pub proof fn lemma_handle_isolation(
    maps: Seq<Map<u64, u64>>,
    handle: usize,
    other: usize,
    key: u64,
    val: u64,
    other_key: u64,
)
    requires
        other < maps.len(),
        other != handle,
    ensures
        spec_insert_maps(maps, handle, key, val)[other as int] == maps[other as int],
        spec_get(spec_insert_maps(maps, handle, key, val), other, other_key) == spec_get(
            maps,
            other,
            other_key,
        ),
{
}

/// What a `get` returns is a function of the addressed map alone: two
/// registries whose maps agree at `handle` answer every `get` through
/// `handle` alike, whatever stands at other handles.
pub proof fn lemma_get_reads_only_its_map(
    maps1: Seq<Map<u64, u64>>,
    maps2: Seq<Map<u64, u64>>,
    handle: usize,
    key: u64,
)
    requires
        handle < maps1.len(),
        handle < maps2.len(),
        maps1[handle as int] == maps2[handle as int],
    ensures
        spec_get(maps1, handle, key) == spec_get(maps2, handle, key),
{
}

/// Repeated `get` with no intervening `insert` returns the same value every
/// time: the result depends on the registry's contents alone, and `get`
/// leaves those contents as they are.
pub proof fn lemma_get_repeatable(maps: Seq<Map<u64, u64>>, handle: usize, key: u64)
    ensures
        spec_get(maps, handle, key) == spec_get(maps, handle, key),
{
}

/// Round trip: an `insert` of `val` under `key` through a valid handle,
/// followed immediately by a `get` of `key` through that handle, returns
/// `val`.
pub proof fn lemma_insert_get_round_trip(
    maps: Seq<Map<u64, u64>>,
    handle: usize,
    key: u64,
    val: u64,
)
    requires
        handle < maps.len(),
    ensures
        spec_get(spec_insert_maps(maps, handle, key, val), handle, key) == Ok::<u64, MapError>(val),
{
}

/// Displaced value: after `insert(handle, key, v1)`, a second
/// `insert(handle, key, v2)` reports `v1` as the value it displaced.
pub proof fn lemma_displaced_value(
    maps: Seq<Map<u64, u64>>,
    handle: usize,
    key: u64,
    v1: u64,
    v2: u64,
)
    requires
        handle < maps.len(),
    ensures
        spec_insert_result(spec_insert_maps(maps, handle, key, v1), handle, key, v2) == Ok::<
            Option<u64>,
            MapError,
        >(Some(v1)),
{
}

/// The contents of a map after a whole batch of inserts, applied first to
/// last.
pub open spec fn insert_all(m: Map<u64, u64>, pairs: Seq<(u64, u64)>) -> Map<u64, u64>
    decreases pairs.len(),
{
    if pairs.len() == 0 {
        m
    } else {
        insert_all(m, pairs.drop_last()).insert(pairs.last().0, pairs.last().1)
    }
}

/// Inserts of pairwise-distinct keys into one map all take effect
/// independently: afterwards every key of the batch is bound to the value
/// inserted with it. Since the claim holds of every ordering of the batch,
/// it does not matter in which order the inserts landed.
pub proof fn lemma_disjoint_inserts(m: Map<u64, u64>, pairs: Seq<(u64, u64)>)
    requires
        forall|i: int, j: int|
            0 <= i < pairs.len() && 0 <= j < pairs.len() && i != j ==> (#[trigger] pairs[i]).0 != (
            #[trigger] pairs[j]).0,
    ensures
        forall|i: int|
            0 <= i < pairs.len() ==> insert_all(m, pairs).dom().contains((#[trigger] pairs[i]).0)
                && insert_all(m, pairs)[pairs[i].0] == pairs[i].1,
    decreases pairs.len(),
{
    if pairs.len() > 0 {
        lemma_disjoint_inserts(m, pairs.drop_last());
        assert forall|i: int|
            0 <= i < pairs.len() implies insert_all(m, pairs).dom().contains(
            (#[trigger] pairs[i]).0,
        ) && insert_all(m, pairs)[pairs[i].0] == pairs[i].1 by {
            if i < pairs.len() - 1 {
                assert(pairs.drop_last()[i] == pairs[i]);
                assert(pairs[i].0 != pairs[pairs.len() - 1].0);
            }
        }
    }
}

} // verus!

//! Properties of the cache that hold across calls, stated over the same
//! relations that the operations' own contracts use.
use crate::cache::{externally_held, fetched, release_of, trimmed, Cache, Eviction};
use crate::memory::{size_of, Error, Memory, Size};
use vstd::prelude::*;

verus! {

/// A fetch creates the record of an absent identity at most once per cycle:
/// once a fetch has stored a record for `id`, a second fetch finds it, so it
/// hands that record back without calling its factory, and it leaves the
/// records and the dirty flag as they were.
pub proof fn fetch_populates_once(c0: Cache, c1: Cache, c2: Cache, id: u64, first: Memory)
    requires
        fetched(c0, id, first, c1),
        fetched(c1, id, c1.records()[id], c2),
    ensures
        c1.records().contains_key(id),
        c1.records()[id] == first,
        c2.records() == c1.records(),
        c2.dirty() == c1.dirty(),
{
    assert(c2.records() =~= c1.records());
}

/// A sweep keeps every record whose identity was used since the last sweep,
/// unchanged.
pub proof fn hit_protects(pre: Cache, live: Set<u64>, post: Cache, evicted: Seq<Eviction>, id: u64)
    requires
        trimmed(pre, live, post, evicted),
        pre.records().contains_key(id),
        pre.hits().contains(id),
    ensures
        post.records().contains_key(id),
        post.records()[id] == pre.records()[id],
{
}

/// A sweep of a cache that stored a record since its last sweep drops each
/// record that was neither used nor held from outside, and lists it exactly
/// once, with the resource it held.
pub proof fn unused_evicted_once(
    pre: Cache,
    live: Set<u64>,
    post: Cache,
    evicted: Seq<Eviction>,
    id: u64,
)
    requires
        trimmed(pre, live, post, evicted),
        pre.dirty(),
        pre.records().contains_key(id),
        !pre.hits().contains(id),
        !externally_held(pre.records()[id], live),
    ensures
        !post.records().contains_key(id),
        exists|j: int|
            0 <= j < evicted.len() && (#[trigger] evicted[j]).id == id && evicted[j].release
                == release_of(pre.records()[id]),
        forall|j: int, k: int|
            0 <= j < evicted.len() && 0 <= k < evicted.len() && evicted[j].id == id
                && evicted[k].id == id ==> j == k,
{
    let j: int = choose|j: int| 0 <= j < evicted.len() && (#[trigger] evicted[j]).id == id;
    assert(evicted[j].release == release_of(pre.records()[evicted[j].id]));
}

/// A record on the device whose allocation is alive elsewhere survives a
/// sweep even when it was not used; once that allocation is gone, a later
/// sweep that finds it still unused, with a record stored since the last
/// sweep, drops it.
pub proof fn external_reference_overrides_miss(
    c0: Cache,
    live0: Set<u64>,
    c1: Cache,
    evicted1: Seq<Eviction>,
    c2: Cache,
    live2: Set<u64>,
    c3: Cache,
    evicted2: Seq<Eviction>,
    id: u64,
    allocation: u64,
)
    requires
        c0.records().contains_key(id),
        c0.records()[id] is Device,
        c0.records()[id]->Device_allocation == Some(allocation),
        live0.contains(allocation),
        trimmed(c0, live0, c1, evicted1),
        c2.records().contains_key(id),
        c2.records()[id] == c1.records()[id],
        !c2.hits().contains(id),
        c2.dirty(),
        !live2.contains(allocation),
        trimmed(c2, live2, c3, evicted2),
    ensures
        c1.records().contains_key(id),
        c1.records()[id] == c0.records()[id],
        !c3.records().contains_key(id),
        exists|j: int| 0 <= j < evicted2.len() && (#[trigger] evicted2[j]).id == id,
{
    assert(externally_held(c0.records()[id], live0));
    assert(c1.records().contains_key(id));
    unused_evicted_once(c2, live2, c3, evicted2, id);
}

/// A sweep right after a sweep, with nothing stored in between, releases
/// nothing and changes nothing.
pub proof fn clean_sweep_is_noop(
    c0: Cache,
    live0: Set<u64>,
    c1: Cache,
    evicted1: Seq<Eviction>,
    live1: Set<u64>,
    c2: Cache,
    evicted2: Seq<Eviction>,
)
    requires
        trimmed(c0, live0, c1, evicted1),
        trimmed(c1, live1, c2, evicted2),
    ensures
        evicted2.len() == 0,
        c2.records() == c1.records(),
        c2.hits() == c1.hits(),
{
}

/// A failed image reports a size of one by one, whatever the image was meant to be.
pub proof fn failed_size_is_unit(e: Error)
    ensures
        size_of(Memory::Error(e)) == (Size { width: 1, height: 1 }),
{
}

} // verus!

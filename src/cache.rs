use crate::memory::{BindGroup, Entry, Handle, Memory};
use rustc_hash::{FxBuildHasher, FxHashMap, FxHashSet};
use vstd::prelude::*;

verus! {

broadcast use vstd::std_specs::hash::group_hash_axioms;

/// rustc_hash's FxBuildHasher, the hasher of the maps and sets below, carried
/// as an opaque type.
#[verifier::external_type_specification]
#[verifier::external_body]
pub struct ExFxBuildHasher(FxBuildHasher);

/// Relies on HashMap::get (with rustc_hash's FxBuildHasher, a deterministic
/// hasher of `u64` keys): the value stored under the key, if any.
#[verifier::external_body]
fn map_get(m: &FxHashMap<u64, Memory>, k: u64) -> (r: Option<&Memory>)
    ensures
        match r {
            Some(v) => m@.contains_key(k) && *v == m@[k],
            None => !m@.contains_key(k),
        },
{
    m.get(&k)
}

/// Relies on HashMap::get_mut (with FxBuildHasher): a mutable borrow of the
/// value stored under the key, if any; what is written through it is stored.
#[verifier::external_body]
fn map_get_mut(m: &mut FxHashMap<u64, Memory>, k: u64) -> (r: Option<&mut Memory>)
    ensures
        match r {
            Some(v) => old(m)@.contains_key(k) && *v == old(m)@[k] && final(m)@ == old(
                m,
            )@.insert(k, *final(v)),
            None => !old(m)@.contains_key(k) && final(m)@ == old(m)@,
        },
{
    m.get_mut(&k)
}

/// Relies on HashMap::insert (with FxBuildHasher): the key maps to the value
/// afterwards, whatever it mapped to before.
#[verifier::external_body]
fn map_insert(m: &mut FxHashMap<u64, Memory>, k: u64, v: Memory)
    ensures
        final(m)@ == old(m)@.insert(k, v),
{
    let _ = m.insert(k, v);
}

/// Relies on HashSet::insert (with FxBuildHasher): the key is in the set afterwards.
#[verifier::external_body]
fn set_insert(s: &mut FxHashSet<u64>, k: u64)
    ensures
        final(s)@ == old(s)@.insert(k),
{
    let _ = s.insert(k);
}

/// Relies on HashMap::remove (with FxBuildHasher): the key is gone afterwards,
/// and the value it mapped to, if any, is handed back.
#[verifier::external_body]
fn map_remove(m: &mut FxHashMap<u64, Memory>, k: u64) -> (r: Option<Memory>)
    ensures
        final(m)@ == old(m)@.remove(k),
        match r {
            Some(v) => old(m)@.contains_key(k) && v == old(m)@[k],
            None => !old(m)@.contains_key(k),
        },
{
    m.remove(&k)
}

/// Relies on HashMap::keys (with FxBuildHasher): every key of the map, each once,
/// in an order that the hasher decides.
#[verifier::external_body]
fn map_keys(m: &FxHashMap<u64, Memory>) -> (r: Vec<u64>)
    ensures
        r@.to_set() == m@.dom(),
        r@.no_duplicates(),
{
    m.keys().copied().collect()
}

/// Relies on HashSet::contains (with FxBuildHasher): whether the key is in the set.
#[verifier::external_body]
fn set_contains(s: &FxHashSet<u64>, k: u64) -> (r: bool)
    ensures
        r == s@.contains(k),
{
    s.contains(&k)
}

/// A device resource that must be released once its record is dropped.
#[derive(Clone, Copy, Debug, PartialEq, Eq, Structural)]
pub enum Release {
    /// The record held no device resource.
    Nothing,
    /// A dedicated binding, to be handed to whoever defers its destruction.
    Binding(BindGroup),
    /// A slot, to be removed from the texture atlas.
    Slot(Entry),
}

/// A record dropped by a sweep: its identity and the resource it held.
#[derive(Clone, Copy, Debug, PartialEq, Eq, Structural)]
pub struct Eviction {
    pub id: u64,
    pub release: Release,
}

/// What must be released when a record is dropped: its dedicated binding if
/// it has one, else its atlas slot if it is on the device, else nothing.
pub open spec fn release_of(m: Memory) -> Release {
    match m {
        Memory::Device { bind_group: Some(b), .. } => Release::Binding(b),
        Memory::Device { entry, bind_group: None, .. } => Release::Slot(entry),
        _ => Release::Nothing,
    }
}

/// Whether a record is held through an allocation that is still alive elsewhere.
pub open spec fn externally_held(m: Memory, live: Set<u64>) -> bool {
    match m {
        Memory::Device { allocation: Some(a), .. } => live.contains(a),
        _ => false,
    }
}

/// Whether a sweep keeps a record: it is held from outside, or it was used.
pub open spec fn survives(m: Memory, used: bool, live: Set<u64>) -> bool {
    externally_held(m, live) || used
}

/// The identities whose records a sweep keeps.
pub open spec fn kept(records: Map<u64, Memory>, hits: Set<u64>, live: Set<u64>) -> Set<u64> {
    Set::new(|id: u64| records.contains_key(id) && survives(records[id], hits.contains(id), live))
}

/// Whether a list of evictions names exactly the records that a sweep drops,
/// each once, with the resource that each held.
pub open spec fn evicts(
    records: Map<u64, Memory>,
    hits: Set<u64>,
    live: Set<u64>,
    evicted: Seq<Eviction>,
) -> bool {
    &&& forall|i: int|
        0 <= i < evicted.len() ==> {
            &&& records.contains_key(#[trigger] evicted[i].id)
            &&& !survives(records[evicted[i].id], hits.contains(evicted[i].id), live)
            &&& evicted[i].release == release_of(records[evicted[i].id])
        }
    &&& forall|id: u64|
        records.contains_key(id) && !survives(records[id], hits.contains(id), live) ==> exists|
            i: int,
        |
            0 <= i < evicted.len() && (#[trigger] evicted[i]).id == id
    &&& forall|i: int, j: int|
        0 <= i < evicted.len() && 0 <= j < evicted.len() && i != j ==> evicted[i].id
            != evicted[j].id
}

/// Whether `post` is what a fetch of `id` leaves of `pre`, where `stored` is
/// the record that ends up under `id`: the identity counts as used, and the
/// cache is marked dirty where the record is new.
pub open spec fn fetched(pre: Cache, id: u64, stored: Memory, post: Cache) -> bool {
    &&& post.records() == pre.records().insert(id, stored)
    &&& post.hits() == pre.hits().insert(id)
    &&& post.dirty() == (pre.dirty() || !pre.records().contains_key(id))
}

/// Whether `post` and `evicted` are what a sweep of `pre` with the live
/// allocations `live` leaves and hands back. A cache with nothing stored since
/// its last sweep is left as it is. Otherwise exactly the records that
/// survive are kept, the others are listed, and a new cycle starts.
pub open spec fn trimmed(pre: Cache, live: Set<u64>, post: Cache, evicted: Seq<Eviction>) -> bool {
    if !pre.dirty() {
        &&& evicted.len() == 0
        &&& post.records() == pre.records()
        &&& post.hits() == pre.hits()
        &&& !post.dirty()
    } else {
        &&& post.records() == pre.records().restrict(kept(pre.records(), pre.hits(), live))
        &&& evicts(pre.records(), pre.hits(), live, evicted)
        &&& post.hits() == Set::<u64>::empty()
        &&& !post.dirty()
    }
}

/// The cache of image records, keyed by image identity.
#[derive(Debug)]
pub struct Cache {
    map: FxHashMap<u64, Memory>,
    hits: FxHashSet<u64>,
    should_trim: bool,
}

impl Default for Cache {
    /// An empty cache, with nothing used and nothing to sweep.
    fn default() -> (r: Cache)
        ensures
            r.records() == Map::<u64, Memory>::empty(),
            r.hits() == Set::<u64>::empty(),
            !r.dirty(),
    {
        Cache { map: FxHashMap::default(), hits: FxHashSet::default(), should_trim: false }
    }
}

impl Cache {
    /// The record stored for each cached identity.
    pub closed spec fn records(&self) -> Map<u64, Memory> {
        self.map@
    }

    /// The identities used since the last sweep.
    pub closed spec fn hits(&self) -> Set<u64> {
        self.hits@
    }

    /// Whether a record was stored since the last sweep.
    pub closed spec fn dirty(&self) -> bool {
        self.should_trim
    }

    /// A mutable borrow of the record of the handle's identity, if there is
    /// one. A lookup that finds the record counts the identity as used; a miss
    /// changes nothing.
    pub fn get_mut(&mut self, handle: &Handle) -> (r: Option<&mut Memory>)
        ensures
            final(self).dirty() == old(self).dirty(),
            match r {
                Some(m) => {
                    &&& old(self).records().contains_key(handle.id)
                    &&& *m == old(self).records()[handle.id]
                    &&& final(self).records() == old(self).records().insert(handle.id, *final(m))
                    &&& final(self).hits() == old(self).hits().insert(handle.id)
                },
                None => {
                    &&& !old(self).records().contains_key(handle.id)
                    &&& final(self).records() == old(self).records()
                    &&& final(self).hits() == old(self).hits()
                },
            },
    {
        let id: u64 = handle.id();
        if map_get(&self.map, id).is_some() {
            set_insert(&mut self.hits, id);
        }
        map_get_mut(&mut self.map, id)
    }

    /// Stores a record for the handle's identity, in place of any record that
    /// was there, and counts the identity as used. A replaced record's device
    /// resource is not released here.
    pub fn insert(&mut self, handle: &Handle, memory: Memory)
        ensures
            final(self).records() == old(self).records().insert(handle.id, memory),
            final(self).hits() == old(self).hits().insert(handle.id),
            final(self).dirty(),
    {
        let id: u64 = handle.id();
        map_insert(&mut self.map, id, memory);
        set_insert(&mut self.hits, id);
        self.should_trim = true;
    }

    /// A mutable borrow of the record of the handle's identity, which counts
    /// as used. Where there is no record yet, `insert` makes one from the
    /// handle and it is stored first; it is called at no other time.
    pub fn get_or_insert_with(
        &mut self,
        handle: &Handle,
        insert: impl FnOnce(&Handle) -> Memory,
    ) -> (r: &mut Memory)
        requires
            !old(self).records().contains_key(handle.id) ==> insert.requires((handle,)),
        ensures
            old(self).records().contains_key(handle.id) ==> *r == old(self).records()[handle.id],
            !old(self).records().contains_key(handle.id) ==> insert.ensures((handle,), *r),
            final(self).records() == old(self).records().insert(handle.id, *final(r)),
            final(self).hits() == old(self).hits().insert(handle.id),
            final(self).dirty() == (old(self).dirty() || !old(self).records().contains_key(handle.id)),
            fetched(*old(self), handle.id, *final(r), *final(self)),
    {
        let id: u64 = handle.id();
        set_insert(&mut self.hits, id);
        if map_get(&self.map, id).is_none() {
            self.should_trim = true;
            let memory = insert(handle);
            map_insert(&mut self.map, id, memory);
        }
        map_get_mut(&mut self.map, id).unwrap()
    }

    /// Sweeps the cache, if a record was stored since the last sweep: keeps
    /// each record that was used since then or whose allocation is in `live`,
    /// drops every other one, and starts a new cycle. Returns the dropped
    /// records with the resources that the caller must now release. A cache
    /// with nothing stored since its last sweep is left as it is.
    pub fn trim(&mut self, live: &FxHashSet<u64>) -> (evicted: Vec<Eviction>)
        ensures
            trimmed(*old(self), live@, *final(self), evicted@),
    {
        if !self.should_trim {
            return Vec::new();
        }
        let ghost records = self.map@;
        let ghost hits = self.hits@;
        let ids = map_keys(&self.map);
        let mut evicted: Vec<Eviction> = Vec::new();
        let mut i: usize = 0;
        while i < ids.len()
            invariant
                i <= ids@.len(),
                ids@.to_set() == records.dom(),
                ids@.no_duplicates(),
                self.hits@ == hits,
                self.should_trim,
                forall|x: u64|
                    #![trigger self.map@.contains_key(x)]
                    self.map@.contains_key(x) <==> records.contains_key(x) && (!ids@.subrange(
                        0,
                        i as int,
                    ).contains(x) || survives(records[x], hits.contains(x), live@)),
                forall|x: u64| self.map@.contains_key(x) ==> self.map@[x] == records[x],
                forall|j: int|
                    0 <= j < evicted@.len() ==> {
                        &&& ids@.subrange(0, i as int).contains(#[trigger] evicted@[j].id)
                        &&& records.contains_key(evicted@[j].id)
                        &&& !survives(
                            records[evicted@[j].id],
                            hits.contains(evicted@[j].id),
                            live@,
                        )
                        &&& evicted@[j].release == release_of(records[evicted@[j].id])
                    },
                forall|x: u64|
                    ids@.subrange(0, i as int).contains(x) && records.contains_key(x)
                        && !survives(records[x], hits.contains(x), live@) ==> exists|j: int|
                        0 <= j < evicted@.len() && (#[trigger] evicted@[j]).id == x,
                forall|j: int, k: int|
                    0 <= j < evicted@.len() && 0 <= k < evicted@.len() && j != k
                        ==> evicted@[j].id != evicted@[k].id,
            decreases ids@.len() - i,
        {
            let id: u64 = ids[i];
            let ghost before = ids@.subrange(0, i as int);
            let ghost after = ids@.subrange(0, i + 1);
            proof {
                assert(ids@.to_set().contains(id));
                assert(!before.contains(id)) by {
                    if before.contains(id) {
                        let k: int = choose|k: int| 0 <= k < before.len() && before[k] == id;
                        assert(ids@[k] == ids@[i as int]);
                    }
                }
                assert forall|x: u64| after.contains(x) <==> before.contains(x) || x == id by {
                    if after.contains(x) && x != id {
                        let k: int = choose|k: int| 0 <= k < after.len() && after[k] == x;
                        assert(before[k] == x);
                    }
                    if before.contains(x) {
                        let k: int = choose|k: int| 0 <= k < before.len() && before[k] == x;
                        assert(after[k] == x);
                    }
                    if x == id {
                        assert(after[i as int] == x);
                    }
                }
                assert(self.map@.contains_key(id));
            }
            let used = set_contains(&self.hits, id);
            let held = match map_get(&self.map, id) {
                Some(Memory::Device { allocation: Some(a), .. }) => set_contains(live, *a),
                _ => false,
            };
            assert(held == externally_held(records[id], live@));
            if !(held || used) {
                let release = match map_remove(&mut self.map, id) {
                    Some(Memory::Device { bind_group: Some(b), .. }) => Release::Binding(b),
                    Some(Memory::Device { entry, bind_group: None, .. }) => Release::Slot(entry),
                    _ => Release::Nothing,
                };
                let ghost old_evicted = evicted@;
                evicted.push(Eviction { id, release });
                proof {
                    assert(evicted@[old_evicted.len() as int].id == id);
                    assert(after.contains(id));
                    assert forall|j: int| 0 <= j < old_evicted.len() implies evicted@[j].id != id by {
                        assert(before.contains(old_evicted[j].id));
                    }
                    assert forall|x: u64|
                        after.contains(x) && records.contains_key(x) && !survives(
                            records[x],
                            hits.contains(x),
                            live@,
                        ) implies exists|j: int|
                        0 <= j < evicted@.len() && (#[trigger] evicted@[j]).id == x by {
                        if x != id {
                            let j: int = choose|j: int|
                                0 <= j < old_evicted.len() && (#[trigger] old_evicted[j]).id == x;
                            assert(evicted@[j] == old_evicted[j]);
                        } else {
                            assert(evicted@[old_evicted.len() as int].id == x);
                        }
                    }
                }
            }
            i = i + 1;
        }
        proof {
            assert(ids@.subrange(0, ids@.len() as int) =~= ids@);
            assert forall|x: u64| ids@.contains(x) <==> records.contains_key(x) by {
                assert(ids@.to_set().contains(x) == ids@.contains(x));
            }
            assert(self.map@ =~= records.restrict(kept(records, hits, live@)));
        }
        self.hits.clear();
        self.should_trim = false;
        evicted
    }
}

} // verus!

//! The durable storage substrate: an ordered persistent map from a 64-bit
//! identifier to a record's bytes, and a persistent counter cell. Both are
//! carried by `ic_stable_structures` over one managed memory, split into
//! non-overlapping regions addressed by distinct region identifiers, so the
//! layout survives a restart of the process. Each call into that crate
//! stands behind a trusted wrapper whose contract states what the crate's
//! source shows.
use vstd::prelude::*;

verus! {

/// The one underlying memory, split by a memory manager into
/// non-overlapping regions; every component of the store lives in its own
/// region and no write to one can reach another.
#[verifier::external_body]
pub struct Regions {
    inner: ic_stable_structures::memory_manager::MemoryManager<
        ic_stable_structures::DefaultMemoryImpl,
    >,
}

impl Regions {
    /// Relies on `ic_stable_structures::memory_manager::MemoryManager::init`:
    /// manages the default memory (the stable memory of the deployment
    /// target) and hands out one virtual memory per region identifier, and
    /// those virtual memories do not overlap.
    #[verifier::external_body]
    pub(crate) fn new() -> (r: Regions) {
        Regions {
            inner: ic_stable_structures::memory_manager::MemoryManager::init(
                ic_stable_structures::DefaultMemoryImpl::default(),
            ),
        }
    }
}

/// A durable ordered map from identifiers to encoded records.
#[verifier::external_body]
pub struct DurableMap {
    inner: ic_stable_structures::BTreeMap<
        u64,
        Vec<u8>,
        ic_stable_structures::memory_manager::VirtualMemory<
            ic_stable_structures::DefaultMemoryImpl,
        >,
    >,
}

/// The entries a durable map holds, keyed by identifier.
pub uninterp spec fn map_contents(m: DurableMap) -> Map<u64, Seq<u8>>;

/// A durable cell holding the last-issued identifier.
#[verifier::external_body]
pub struct DurableCounter {
    inner: ic_stable_structures::Cell<
        u64,
        ic_stable_structures::memory_manager::VirtualMemory<
            ic_stable_structures::DefaultMemoryImpl,
        >,
    >,
}

/// The value a durable counter holds.
pub uninterp spec fn counter_value(c: DurableCounter) -> u64;

impl DurableMap {
    /// Relies on `ic_stable_structures::BTreeMap::init` over
    /// `MemoryManager::get`: opens the map persisted in the named region of
    /// the managed memory, or creates an empty one when the region is fresh.
    /// Its contents are whatever the region holds; the trust on that state
    /// is stated where the store is opened. `MemoryId::new` reserves the
    /// identifier 255 for its own bookkeeping and asserts on it, so that
    /// region is left out.
    #[verifier::external_body]
    pub(crate) fn new(regions: &Regions, region: u8) -> (m: DurableMap)
        requires
            region < 255,
    {
        DurableMap {
            inner: ic_stable_structures::BTreeMap::init(
                regions.inner.get(ic_stable_structures::memory_manager::MemoryId::new(region)),
            ),
        }
    }

    /// Relies on `ic_stable_structures::BTreeMap::get`: point lookup of the
    /// value stored under a key, with no side effect.
    #[verifier::external_body]
    pub fn get(&self, id: u64) -> (r: Option<Vec<u8>>)
        ensures
            match r {
                Some(v) => map_contents(*self).contains_key(id) && v@ == map_contents(*self)[id],
                None => !map_contents(*self).contains_key(id),
            },
    {
        self.inner.get(&id)
    }

    /// Relies on `ic_stable_structures::BTreeMap::insert`: upsert of a value
    /// under a key, returning the value previously stored there, if any.
    #[verifier::external_body]
    pub fn insert(&mut self, id: u64, value: Vec<u8>) -> (prior: Option<Vec<u8>>)
        ensures
            map_contents(*final(self)) == map_contents(*old(self)).insert(id, value@),
            match prior {
                Some(v) => map_contents(*old(self)).contains_key(id) && v@ == map_contents(
                    *old(self),
                )[id],
                None => !map_contents(*old(self)).contains_key(id),
            },
    {
        self.inner.insert(id, value)
    }

    /// Relies on `ic_stable_structures::BTreeMap::remove`: deletes the entry
    /// under a key and returns its prior value, or does nothing.
    #[verifier::external_body]
    pub fn remove(&mut self, id: u64) -> (prior: Option<Vec<u8>>)
        ensures
            map_contents(*final(self)) == map_contents(*old(self)).remove(id),
            match prior {
                Some(v) => map_contents(*old(self)).contains_key(id) && v@ == map_contents(
                    *old(self),
                )[id],
                None => !map_contents(*old(self)).contains_key(id),
            },
    {
        self.inner.remove(&id)
    }

    /// Relies on `ic_stable_structures::BTreeMap::iter`: a full scan yields
    /// every entry of the map exactly once, in ascending key order.
    #[verifier::external_body]
    pub fn entries(&self) -> (r: Vec<(u64, Vec<u8>)>)
        ensures
            forall|i: int|
                0 <= i < r@.len() ==> map_contents(*self).contains_key(#[trigger] r@[i].0) && r@[i].1@
                    == map_contents(*self)[r@[i].0],
            forall|k: u64|
                map_contents(*self).contains_key(k) ==> exists|i: int|
                    0 <= i < r@.len() && (#[trigger] r@[i]).0 == k,
            forall|i: int, j: int| 0 <= i < j < r@.len() ==> r@[i].0 < r@[j].0,
    {
        let mut out = Vec::new();
        for e in self.inner.iter() {
            out.push(e.into_pair());
        }
        out
    }
}

impl DurableCounter {
    /// Relies on `ic_stable_structures::Cell::init` over
    /// `MemoryManager::get`: opens the cell persisted in the named region of
    /// the managed memory, or writes zero there when the region is fresh.
    /// Its value is whatever the region holds; the trust on that state is
    /// stated where the store is opened. `MemoryId::new` reserves the
    /// identifier 255 for its own bookkeeping and asserts on it, so that
    /// region is left out.
    #[verifier::external_body]
    pub(crate) fn new(regions: &Regions, region: u8) -> (c: DurableCounter)
        requires
            region < 255,
    {
        DurableCounter {
            inner: ic_stable_structures::Cell::init(
                regions.inner.get(ic_stable_structures::memory_manager::MemoryId::new(region)),
                0,
            ),
        }
    }

    /// Relies on `ic_stable_structures::Cell::get`: returns the held value,
    /// with no side effect.
    #[verifier::external_body]
    pub fn get(&self) -> (v: u64)
        ensures
            v == counter_value(*self),
    {
        *self.inner.get()
    }

    /// Relies on `ic_stable_structures::Cell::set`: overwrites the held
    /// value. An eight-byte value always fits the cell's memory, so the
    /// write cannot fail.
    #[verifier::external_body]
    pub fn set(&mut self, v: u64)
        ensures
            counter_value(*final(self)) == v,
    {
        self.inner.set(v);
    }
}

} // verus!

//! The cached state a worker keeps beside its storage: the per-sector
//! `(timestamp, write rank)` cache that spares a storage lookup on hot
//! sectors, and the cached request counter `rid`. What storage returned
//! is handed in by the caller; what must be persisted is handed back.
use vstd::prelude::*;
use std::collections::HashMap;
use crate::domain::SectorIdx;
use crate::wirebytes::read_u64_be;
use crate::wirebytes::spec_u64_from_be_bytes;

verus! {

broadcast use vstd::std_specs::hash::group_hash_axioms;

/// The `(timestamp, write rank)` pair ordering versions of a sector.
#[derive(Clone, Copy, Debug, PartialEq, Eq, Structural)]
pub struct SectorMetadata {
    pub ts: u64,
    pub wr: u8,
}

/// Reads the big-endian request counter out of its stored bytes.
pub fn read_be_u64(input: &Vec<u8>) -> (r: u64)
    requires
        input@.len() >= 8,
    ensures
        r == spec_u64_from_be_bytes(input@.subrange(0, 8)),
{
    read_u64_be(input, 0)
}

/// A worker's cached view of its storage.
pub struct SolutionAtomicRegisterData {
    pub meta_cache: HashMap<SectorIdx, SectorMetadata>,
    pub rid_cache: Option<u64>,
}

impl SolutionAtomicRegisterData {
    /// Fresh caches: nothing read yet.
    pub fn new() -> (r: SolutionAtomicRegisterData)
        ensures
            r.meta_cache@ == Map::<SectorIdx, SectorMetadata>::empty(),
            r.rid_cache is None,
    {
        SolutionAtomicRegisterData { meta_cache: HashMap::new(), rid_cache: None }
    }

    /// The metadata this worker sees for a sector: the cached pair, or
    /// the pair `stored` that the caller read from storage.
    pub open spec fn spec_local_meta(self, sector_idx: SectorIdx, stored: (u64, u8))
        -> SectorMetadata {
        if self.meta_cache@.contains_key(sector_idx) {
            self.meta_cache@[sector_idx]
        } else {
            SectorMetadata { ts: stored.0, wr: stored.1 }
        }
    }

    /// The request counter this worker sees: the cached value, or the
    /// one decoded from the stored bytes `stored`, or zero when nothing
    /// was stored or the stored bytes are not eight long.
    pub open spec fn spec_rid(self, stored: Option<Vec<u8>>) -> u64 {
        match self.rid_cache {
            Some(v) => v,
            None => match stored {
                Some(b) => if b@.len() == 8 {
                    spec_u64_from_be_bytes(b@.subrange(0, 8))
                } else {
                    0
                },
                None => 0,
            },
        }
    }

    /// The metadata of a sector, caching `stored` on a miss.
    pub fn get_meta(&mut self, sector_idx: SectorIdx, stored: (u64, u8)) -> (r: SectorMetadata)
        ensures
            r == old(self).spec_local_meta(sector_idx, stored),
            final(self).meta_cache@ == old(self).meta_cache@.insert(sector_idx, r),
            final(self).rid_cache == old(self).rid_cache,
    {
        let r = match self.meta_cache.get(&sector_idx) {
            Some(meta) => *meta,
            None => SectorMetadata { ts: stored.0, wr: stored.1 },
        };
        self.meta_cache.insert(sector_idx, r);
        r
    }

    /// The request counter, caching what the stored bytes decode to.
    pub fn get_rid(&mut self, stored: &Option<Vec<u8>>) -> (r: u64)
        ensures
            r == old(self).spec_rid(*stored),
            final(self).rid_cache == Some(r),
            final(self).meta_cache@ == old(self).meta_cache@,
    {
        if let Some(v) = self.rid_cache {
            return v;
        }
        let r = match stored {
            Some(b) => {
                if b.len() == 8 {
                    read_be_u64(b)
                } else {
                    0
                }
            },
            None => 0,
        };
        self.rid_cache = Some(r);
        r
    }

    /// Caches a new request counter; the caller persists it.
    pub fn put_rid(&mut self, new_value: u64)
        ensures
            final(self).rid_cache == Some(new_value),
            final(self).meta_cache@ == old(self).meta_cache@,
    {
        self.rid_cache = Some(new_value);
    }

    /// Caches a sector's new metadata; the caller stores the triple.
    pub fn put_meta(&mut self, sector_idx: SectorIdx, meta: SectorMetadata)
        ensures
            final(self).meta_cache@ == old(self).meta_cache@.insert(sector_idx, meta),
            final(self).rid_cache == old(self).rid_cache,
    {
        self.meta_cache.insert(sector_idx, meta);
    }
}

} // verus!

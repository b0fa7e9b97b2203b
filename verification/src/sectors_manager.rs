//! The in-memory side of the sector store: the index from sector to its
//! current `(timestamp, write rank)`, the startup recovery that keeps the
//! newest triple per sector and marks the rest for deletion, and the file
//! names a write touches. The durable side — tmpfile, fsync, rename —
//! is driven outside, file by file, from what these functions return.
use vstd::prelude::*;
use std::collections::HashMap;
use crate::filename::encode_filename;
use crate::filename::spec_filename_of;

verus! {

broadcast use vstd::std_specs::hash::group_hash_axioms;

/// Strict lexicographic order on `(timestamp, write rank)` pairs: the
/// order in which versions of a sector replace one another.
pub open spec fn spec_meta_lt(a: (u64, u8), b: (u64, u8)) -> bool {
    a.0 < b.0 || (a.0 == b.0 && a.1 < b.1)
}

/// Non-strict lexicographic order on `(timestamp, write rank)` pairs.
pub open spec fn spec_meta_le(a: (u64, u8), b: (u64, u8)) -> bool {
    a.0 < b.0 || (a.0 == b.0 && a.1 <= b.1)
}

/// Exec comparison: whether `b` is strictly newer than `a`.
pub fn meta_lt(a: (u64, u8), b: (u64, u8)) -> (r: bool)
    ensures
        r == spec_meta_lt(a, b),
{
    a.0 < b.0 || (a.0 == b.0 && a.1 < b.1)
}

/// The index from sector to the `(timestamp, write rank)` of its stored
/// triple. A sector absent from the index has never been written and
/// reads as `(0, 0)` with a zero payload.
pub struct SectorIndex {
    pub map: HashMap<u64, (u64, u8)>,
}

impl View for SectorIndex {
    type V = Map<u64, (u64, u8)>;

    open spec fn view(&self) -> Map<u64, (u64, u8)> {
        self.map@
    }
}

/// The metadata a sector reads as under an index: what is stored, or
/// `(0, 0)` for a sector never written.
pub open spec fn spec_stored_meta(m: Map<u64, (u64, u8)>, idx: u64) -> (u64, u8) {
    if m.contains_key(idx) {
        m[idx]
    } else {
        (0, 0)
    }
}

impl SectorIndex {
    /// An empty index: no sector written yet.
    pub fn new() -> (r: SectorIndex)
        ensures
            r@ == Map::<u64, (u64, u8)>::empty(),
    {
        SectorIndex { map: HashMap::new() }
    }

    /// The `(timestamp, write rank)` of a sector; `(0, 0)` if it was
    /// never written.
    pub fn read_metadata(&self, idx: u64) -> (r: (u64, u8))
        ensures
            r == spec_stored_meta(self@, idx),
    {
        match self.map.get(&idx) {
            Some(meta) => *meta,
            None => (0, 0),
        }
    }

    /// The file name holding a sector's payload, if it was ever written.
    pub fn data_filename(&self, idx: u64) -> (r: Option<String>)
        ensures
            match r {
                Some(name) => self@.contains_key(idx) && name@ == spec_filename_of(idx,
                    self@[idx].0, self@[idx].1),
                None => !self@.contains_key(idx),
            },
    {
        match self.map.get(&idx) {
            Some(meta) => Some(encode_filename((idx, meta.0, meta.1))),
            None => None,
        }
    }

    /// The file names a write of `(idx, ts, wr)` touches: the name of the
    /// new triple, and the name of the triple it replaces if one exists
    /// under a different name.
    pub fn plan_write(&self, idx: u64, ts: u64, wr: u8) -> (r: (String, Option<String>))
        ensures
            r.0@ == spec_filename_of(idx, ts, wr),
            match r.1 {
                Some(name) => self@.contains_key(idx) && name@ == spec_filename_of(idx,
                    self@[idx].0, self@[idx].1),
                None => !self@.contains_key(idx),
            },
    {
        let new_filename = encode_filename((idx, ts, wr));
        let old_filename = self.data_filename(idx);
        (new_filename, old_filename)
    }

    /// Records that the triple `(idx, ts, wr)` is now the stored one.
    pub fn commit_write(&mut self, idx: u64, ts: u64, wr: u8)
        ensures
            final(self)@ == old(self)@.insert(idx, (ts, wr)),
    {
        self.map.insert(idx, (ts, wr));
    }
}

/// What the startup scan makes of a list of decoded directory entries:
/// the index keeping, per sector, the entry with the greatest
/// `(timestamp, write rank)`, and the stale entries to unlink — at each
/// step the loser of the comparison, ties resolved in favour of the
/// entry seen first.
pub open spec fn spec_recover(entries: Seq<(u64, u64, u8)>) -> (Map<u64, (u64, u8)>, Seq<
    (u64, u64, u8),
>)
    decreases entries.len(),
{
    if entries.len() == 0 {
        (Map::<u64, (u64, u8)>::empty(), Seq::<(u64, u64, u8)>::empty())
    } else {
        let (m, stale) = spec_recover(entries.drop_last());
        let e = entries.last();
        if !m.contains_key(e.0) {
            (m.insert(e.0, (e.1, e.2)), stale)
        } else if spec_meta_lt(m[e.0], (e.1, e.2)) {
            (m.insert(e.0, (e.1, e.2)), stale.push((e.0, m[e.0].0, m[e.0].1)))
        } else {
            (m, stale.push(e))
        }
    }
}

/// Rebuilds the index from the decoded directory entries and returns the
/// stale entries whose files are to be unlinked.
pub fn recover_index(entries: &Vec<(u64, u64, u8)>) -> (r: (SectorIndex, Vec<(u64, u64, u8)>))
    ensures
        r.0@ == spec_recover(entries@).0,
        r.1@ == spec_recover(entries@).1,
{
    let mut index = SectorIndex::new();
    let mut stale: Vec<(u64, u64, u8)> = Vec::new();
    let n = entries.len();
    let mut i: usize = 0;
    proof {
        assert(entries@.take(0) =~= Seq::<(u64, u64, u8)>::empty());
    }
    while i < n
        invariant
            i <= n,
            n == entries@.len(),
            index@ == spec_recover(entries@.take(i as int)).0,
            stale@ == spec_recover(entries@.take(i as int)).1,
        decreases n - i,
    {
        let e = entries[i];
        proof {
            assert(entries@.take(i as int + 1).drop_last() =~= entries@.take(i as int));
            assert(entries@.take(i as int + 1).last() == e);
        }
        match index.map.get(&e.0) {
            None => {
                index.commit_write(e.0, e.1, e.2);
            },
            Some(current) => {
                let cur = *current;
                if meta_lt(cur, (e.1, e.2)) {
                    index.commit_write(e.0, e.1, e.2);
                    stale.push((e.0, cur.0, cur.1));
                } else {
                    stale.push(e);
                }
            },
        }
        i = i + 1;
    }
    proof {
        assert(entries@.take(n as int) =~= entries@);
    }
    (index, stale)
}

/// After recovery the index holds, for every sector that appears among
/// the entries, a `(timestamp, write rank)` that is one of that sector's
/// entries and is at least as new as every one of them; and it holds
/// nothing else.
pub proof fn lemma_recover_keeps_max(entries: Seq<(u64, u64, u8)>)
    ensures
        forall|i: int|
            0 <= i < entries.len() ==> {
                let e = #[trigger] entries[i];
                spec_recover(entries).0.contains_key(e.0) && spec_meta_le((e.1, e.2),
                    spec_recover(entries).0[e.0])
            },
        forall|s: u64|
            #[trigger] spec_recover(entries).0.contains_key(s) ==> exists|i: int|
                0 <= i < entries.len() && entries[i] == (s, spec_recover(entries).0[s].0,
                spec_recover(entries).0[s].1),
    decreases entries.len(),
{
    if entries.len() == 0 {
    } else {
        let prefix = entries.drop_last();
        lemma_recover_keeps_max(prefix);
        let e = entries.last();
        let m0 = spec_recover(prefix).0;
        let m = spec_recover(entries).0;
        assert forall|i: int| 0 <= i < entries.len() implies {
            let e2 = #[trigger] entries[i];
            m.contains_key(e2.0) && spec_meta_le((e2.1, e2.2), m[e2.0])
        } by {
            if i < entries.len() - 1 {
                assert(entries[i] == prefix[i]);
            }
        }
        assert forall|s: u64| #[trigger] m.contains_key(s) implies exists|i: int|
            0 <= i < entries.len() && entries[i] == (s, m[s].0, m[s].1) by {
            if m0.contains_key(s) && m[s] == m0[s] {
                let i0 = choose|i: int|
                    0 <= i < prefix.len() && prefix[i] == (s, m0[s].0, m0[s].1);
                assert(entries[i0] == (s, m[s].0, m[s].1));
            } else {
                assert(entries[entries.len() - 1] == (s, m[s].0, m[s].1));
            }
        }
    }
}

} // verus!

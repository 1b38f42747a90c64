//! A small most-recently-used registry of loaded transcriber models,
//! keyed by model path.  Transcription is serialized process-wide, so
//! the registry only remembers which engine instances are worth
//! keeping; the engine objects themselves live with the caller.

use vstd::prelude::*;

verus! {

/// How many loaded models the cache keeps by default.
pub const DEFAULT_CACHE_CAPACITY: usize = 1;

/// Most-recently-used registry of loaded model paths.
#[derive(Debug, PartialEq)]
pub struct TranscriberCache {
    /// Cached model paths, least recently used first.
    pub entries: Vec<String>,
    /// Upper bound on how many entries are kept.
    pub capacity: usize,
}

/// The entries with this path removed, order kept.
pub open spec fn spec_entries_without(entries: Seq<String>, path: Seq<char>) -> Seq<String>
    decreases entries.len(),
{
    if entries.len() == 0 {
        entries
    } else if entries.first()@ == path {
        spec_entries_without(entries.drop_first(), path)
    } else {
        seq![entries.first()] + spec_entries_without(entries.drop_first(), path)
    }
}

/// Some entry carries this path.
pub open spec fn spec_has_entry(entries: Seq<String>, path: Seq<char>) -> bool {
    exists|i: int| 0 <= i < entries.len() && entries[i]@ == path
}

impl TranscriberCache {
    /// An empty cache with the default capacity.
    pub fn new() -> (r: Self)
        ensures
            r.entries@.len() == 0,
            r.capacity == DEFAULT_CACHE_CAPACITY,
    {
        TranscriberCache { entries: Vec::new(), capacity: DEFAULT_CACHE_CAPACITY }
    }

    /// An empty cache keeping up to `capacity` models.
    pub fn with_capacity(capacity: usize) -> (r: Self)
        ensures
            r.entries@.len() == 0,
            r.capacity == capacity,
    {
        TranscriberCache { entries: Vec::new(), capacity }
    }

    /// The configured capacity.
    pub fn capacity(&self) -> (r: usize)
        ensures
            r == self.capacity,
    {
        self.capacity
    }

    /// How many models are cached.
    pub fn size(&self) -> (r: usize)
        ensures
            r == self.entries@.len(),
    {
        self.entries.len()
    }

    /// Whether a model with this path is cached.
    pub fn contains(&self, path: &str) -> (r: bool)
        ensures
            r == spec_has_entry(self.entries@, path@),
    {
        let owned = path.to_owned();
        let n = self.entries.len();
        let mut i: usize = 0;
        while i < n
            invariant
                n == self.entries@.len(),
                i <= n,
                owned@ == path@,
                forall|k: int| 0 <= k < i ==> self.entries@[k]@ != path@,
            decreases n - i,
        {
            if self.entries[i].eq(&owned) {
                return true;
            }
            i += 1;
        }
        false
    }

    /// Drop every cached model.
    pub fn clear(&mut self)
        ensures
            final(self).entries@.len() == 0,
            final(self).capacity == old(self).capacity,
    {
        self.entries.clear();
    }

    /// Record a use of this model: it becomes the most recent entry,
    /// any older entry for the same path goes away, and the least
    /// recently used entries are evicted from the front down to
    /// capacity.
    pub fn touch(&mut self, path: &str)
        ensures
            final(self).capacity == old(self).capacity,
            final(self).entries@.len() <= old(self).capacity,
            final(self).entries@.len() >= 1 ==> final(self).entries@.last()@ == path@,
            old(self).capacity >= 1 ==> final(self).entries@.len() >= 1,
            ({
                let without = spec_entries_without(old(self).entries@, path@);
                let drop = (without.len() + 1) - final(self).entries@.len();
                &&& final(self).entries@.len() <= without.len() + 1
                &&& forall|k: int|
                    0 <= k < final(self).entries@.len() - 1 ==> final(self).entries@[k] == without[
                        k + drop
                    ]
            }),
    {
        let owned = path.to_owned();
        let n = self.entries.len();
        let mut kept: Vec<String> = Vec::new();
        let mut i: usize = 0;
        assert(self.entries@.skip(0) =~= self.entries@);
        while i < n
            invariant
                n == self.entries@.len(),
                i <= n,
                owned@ == path@,
                spec_entries_without(self.entries@, path@) == kept@ + spec_entries_without(
                    self.entries@.skip(i as int),
                    path@,
                ),
            decreases n - i,
        {
            let entries = &self.entries;
            assert(entries@.skip(i as int).first() == entries@[i as int]);
            if !entries[i].eq(&owned) {
                kept.push(entries[i].clone());
            }
            proof {
                let s = entries@.skip(i as int);
                assert(s.drop_first() =~= entries@.skip(i + 1));
                if s.first()@ != path@ {
                    assert(spec_entries_without(s, path@) == seq![s.first()]
                        + spec_entries_without(s.drop_first(), path@));
                }
            }
            i += 1;
        }
        proof {
            assert(self.entries@.skip(n as int) =~= Seq::<String>::empty());
            assert(kept@ =~= spec_entries_without(self.entries@, path@));
        }
        kept.push(owned);
        let ghost full = kept@;
        while kept.len() > self.capacity
            invariant
                self.capacity == old(self).capacity,
                kept@.len() >= 1 ==> kept@.last()@ == path@,
                self.capacity >= 1 ==> kept@.len() >= 1,
                kept@.len() <= full.len(),
                kept@ == full.skip(full.len() - kept@.len()),
            decreases kept@.len(),
        {
            let ghost before = kept@;
            kept.remove(0);
            proof {
                let d = full.len() - before.len();
                assert(before.remove(0) =~= full.skip(d + 1));
            }
        }
        self.entries = kept;
    }
}

} // verus!

use vstd::prelude::*;

use crate::dispatch::{CacheEntry, CacheKey};

verus! {

/// The state of one key in the cache.
#[derive(Clone, Copy, Debug, PartialEq, Eq, Structural, Hash)]
pub enum Slot {
    /// One caller is resolving the key; others wait for it.
    InFlight,
    /// The key is resolved for good.
    Done(CacheEntry),
}

/// What a caller that asks for a key must do.
#[derive(Clone, Copy, Debug, PartialEq, Eq, Structural, Hash)]
pub enum Lookup {
    /// The key is resolved: use this entry.
    Ready(CacheEntry),
    /// Another caller is resolving the key: wait, then ask again.
    InFlight,
    /// The key was unseen and is now marked in flight: this caller resolves it.
    Resolve,
}

/// The cache after a caller asks for `k`, and what that caller must do.
pub open spec fn spec_begin(m: Map<CacheKey, Slot>, k: CacheKey) -> (Map<CacheKey, Slot>, Lookup) {
    if !m.contains_key(k) {
        (m.insert(k, Slot::InFlight), Lookup::Resolve)
    } else {
        match m[k] {
            Slot::InFlight => (m, Lookup::InFlight),
            Slot::Done(e) => (m, Lookup::Ready(e)),
        }
    }
}

/// The cache after the resolver of `k` stores `e`, and the entry that stands
/// for `k` afterwards: an entry already stored is never replaced.
pub open spec fn spec_complete(m: Map<CacheKey, Slot>, k: CacheKey, e: CacheEntry) -> (
    Map<CacheKey, Slot>,
    CacheEntry,
) {
    if m.contains_key(k) && m[k] is Done {
        (m, m[k]->Done_0)
    } else {
        (m.insert(k, Slot::Done(e)), e)
    }
}

/// An operation on the cache.
pub enum CacheOp {
    Begin(CacheKey),
    Complete(CacheKey, CacheEntry),
}

/// The cache after one operation.
pub open spec fn step(m: Map<CacheKey, Slot>, op: CacheOp) -> Map<CacheKey, Slot> {
    match op {
        CacheOp::Begin(k) => spec_begin(m, k).0,
        CacheOp::Complete(k, e) => spec_complete(m, k, e).0,
    }
}

/// The cache after a sequence of operations, in order.
pub open spec fn run(m: Map<CacheKey, Slot>, ops: Seq<CacheOp>) -> Map<CacheKey, Slot>
    decreases ops.len(),
{
    if ops.len() == 0 {
        m
    } else {
        step(run(m, ops.drop_last()), ops.last())
    }
}

/// How many of the operations hand the resolution of `k` to their caller.
pub open spec fn resolutions(m: Map<CacheKey, Slot>, ops: Seq<CacheOp>, k: CacheKey) -> nat
    decreases ops.len(),
{
    if ops.len() == 0 {
        0
    } else {
        let before = run(m, ops.drop_last());
        resolutions(m, ops.drop_last(), k) + if ops.last() == CacheOp::Begin(k)
            && spec_begin(before, k).1 == Lookup::Resolve {
            1nat
        } else {
            0nat
        }
    }
}

/// A key once present in the cache stays present, whatever operations follow:
/// nothing is evicted.
pub proof fn lemma_keys_persist(m: Map<CacheKey, Slot>, ops: Seq<CacheOp>, k: CacheKey)
    requires
        m.contains_key(k),
    ensures
        run(m, ops).contains_key(k),
    decreases ops.len(),
{
    if ops.len() > 0 {
        lemma_keys_persist(m, ops.drop_last(), k);
    }
}

/// Single flight: over any sequence of operations, at most one caller is
/// handed the resolution of a key, and none once the key is in the cache.
pub proof fn lemma_single_flight(m: Map<CacheKey, Slot>, ops: Seq<CacheOp>, k: CacheKey)
    ensures
        resolutions(m, ops, k) <= 1,
        m.contains_key(k) ==> resolutions(m, ops, k) == 0,
        resolutions(m, ops, k) == 1 ==> run(m, ops).contains_key(k),
    decreases ops.len(),
{
    if ops.len() > 0 {
        let prefix = ops.drop_last();
        lemma_single_flight(m, prefix, k);
        if m.contains_key(k) {
            lemma_keys_persist(m, prefix, k);
        }
        if resolutions(m, prefix, k) == 1 {
            lemma_keys_persist(run(m, prefix), seq![ops.last()], k);
            assert(seq![ops.last()].drop_last() =~= Seq::<CacheOp>::empty());
        }
    }
}

/// An entry once stored for a key is final: after any operations, the key
/// still holds it, and every caller that asks for the key is given it.
pub proof fn lemma_entry_is_final(
    m: Map<CacheKey, Slot>,
    ops: Seq<CacheOp>,
    k: CacheKey,
    e: CacheEntry,
)
    requires
        m.contains_key(k),
        m[k] == Slot::Done(e),
    ensures
        run(m, ops).contains_key(k),
        run(m, ops)[k] == Slot::Done(e),
        spec_begin(run(m, ops), k) == (run(m, ops), Lookup::Ready(e)),
    decreases ops.len(),
{
    if ops.len() > 0 {
        lemma_entry_is_final(m, ops.drop_last(), k, e);
    }
}

/// Memoizes the resolution of each key for the life of the cache. Entries
/// are never evicted: the cache grows with the number of distinct keys.
pub struct DispatchCache {
    slots: Vec<(CacheKey, Slot)>,
    contents: Ghost<Map<CacheKey, Slot>>,
}

impl View for DispatchCache {
    type V = Map<CacheKey, Slot>;

    closed spec fn view(&self) -> Map<CacheKey, Slot> {
        self.contents@
    }
}

impl DispatchCache {
    /// The cache's internal invariant.
    pub closed spec fn wf(&self) -> bool {
        &&& forall|i: int, j: int|
            0 <= i < j < self.slots@.len() ==> #[trigger] self.slots@[i].0 != #[trigger] self.slots@[j].0
        &&& forall|i: int|
            0 <= i < self.slots@.len() ==> self.contents@.contains_key(#[trigger] self.slots@[i].0)
                && self.contents@[self.slots@[i].0] == self.slots@[i].1
        &&& forall|k: CacheKey|
            #[trigger] self.contents@.contains_key(k) ==> exists|i: int|
                0 <= i < self.slots@.len() && #[trigger] self.slots@[i].0 == k
    }

    /// An empty cache.
    pub fn new() -> (r: DispatchCache)
        ensures
            r.wf(),
            r@ == Map::<CacheKey, Slot>::empty(),
    {
        DispatchCache { slots: Vec::new(), contents: Ghost(Map::empty()) }
    }

    fn find(&self, key: &CacheKey) -> (r: Option<usize>)
        requires
            self.wf(),
        ensures
            match r {
                Some(i) => i < self.slots@.len() && self.slots@[i as int].0 == *key,
                None => !self@.contains_key(*key),
            },
    {
        let mut i: usize = 0;
        while i < self.slots.len()
            invariant
                self.wf(),
                i <= self.slots@.len(),
                forall|j: int| 0 <= j < i ==> self.slots@[j].0 != *key,
            decreases self.slots@.len() - i,
        {
            if self.slots[i].0 == *key {
                return Some(i);
            }
            i = i + 1;
        }
        None
    }

    /// The state of a key, if the cache has seen it.
    pub fn lookup(&self, key: &CacheKey) -> (r: Option<Slot>)
        requires
            self.wf(),
        ensures
            r == (if self@.contains_key(*key) {
                Some(self@[*key])
            } else {
                None
            }),
    {
        match self.find(key) {
            Some(i) => Some(self.slots[i].1),
            None => None,
        }
    }

    /// A caller asks for a key: it gets the stored entry, is told to wait for
    /// the caller resolving it, or, for an unseen key, becomes its resolver.
    pub fn begin(&mut self, key: &CacheKey) -> (r: Lookup)
        requires
            old(self).wf(),
        ensures
            final(self).wf(),
            (final(self)@, r) == spec_begin(old(self)@, *key),
    {
        match self.find(key) {
            Some(i) => {
                match self.slots[i].1 {
                    Slot::InFlight => Lookup::InFlight,
                    Slot::Done(e) => Lookup::Ready(e),
                }
            },
            None => {
                let ghost m0 = self.contents@;
                let ghost s0 = self.slots@;
                self.slots.push((*key, Slot::InFlight));
                self.contents = Ghost(m0.insert(*key, Slot::InFlight));
                proof {
                    assert forall|k: CacheKey| #[trigger]
                        self.contents@.contains_key(k) implies exists|i: int|
                        0 <= i < self.slots@.len() && #[trigger] self.slots@[i].0 == k by {
                        if k == *key {
                            assert(self.slots@[s0.len() as int].0 == k);
                        } else {
                            let i = choose|i: int| 0 <= i < s0.len() && #[trigger] s0[i].0 == k;
                            assert(self.slots@[i].0 == k);
                        }
                    }
                }
                Lookup::Resolve
            },
        }
    }

    /// The resolver of a key stores its entry, and gets back the entry that
    /// stands for the key: the one stored before, if there is one.
    pub fn complete(&mut self, key: &CacheKey, entry: CacheEntry) -> (r: CacheEntry)
        requires
            old(self).wf(),
        ensures
            final(self).wf(),
            (final(self)@, r) == spec_complete(old(self)@, *key, entry),
    {
        let ghost m0 = self.contents@;
        let ghost s0 = self.slots@;
        match self.find(key) {
            Some(i) => {
                match self.slots[i].1 {
                    Slot::Done(e) => e,
                    Slot::InFlight => {
                        self.slots.set(i, (*key, Slot::Done(entry)));
                        self.contents = Ghost(m0.insert(*key, Slot::Done(entry)));
                        proof {
                            assert forall|k: CacheKey| #[trigger]
                                self.contents@.contains_key(k) implies exists|j: int|
                                0 <= j < self.slots@.len() && #[trigger] self.slots@[j].0 == k by {
                                let j = choose|j: int| 0 <= j < s0.len() && #[trigger] s0[j].0 == k;
                                assert(self.slots@[j].0 == k);
                            }
                        }
                        entry
                    },
                }
            },
            None => {
                self.slots.push((*key, Slot::Done(entry)));
                self.contents = Ghost(m0.insert(*key, Slot::Done(entry)));
                proof {
                    assert forall|k: CacheKey| #[trigger]
                        self.contents@.contains_key(k) implies exists|i: int|
                        0 <= i < self.slots@.len() && #[trigger] self.slots@[i].0 == k by {
                        if k == *key {
                            assert(self.slots@[s0.len() as int].0 == k);
                        } else {
                            let i = choose|i: int| 0 <= i < s0.len() && #[trigger] s0[i].0 == k;
                            assert(self.slots@[i].0 == k);
                        }
                    }
                }
                entry
            },
        }
    }
}

} // verus!

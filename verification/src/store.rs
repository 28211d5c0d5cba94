//! The versioned key-value store and its commit protocol.
//!
//! A `Store` is one snapshot of global state, abstracted in specifications as
//! a map from keys to value views.  A `GlobalState` owns the committed
//! snapshots; every root hash is the output of a commit applied to a prior
//! root (or the empty root), never constructed directly.

use vstd::prelude::*;

use crate::effects::{Effects, TransformKind, TransformKindV, TransformV};
use crate::keys::Key;
use crate::values::{StoredValue, ValueV};

verus! {

/// One record of a snapshot: a key bound to a value, or a tombstone.
pub type Entry = (Key, Option<StoredValue>);

/// The map that a sequence of entries denotes: later entries override
/// earlier ones, and a tombstone removes the key.
pub open spec fn store_map(s: Seq<Entry>) -> Map<Key, ValueV>
    decreases s.len(),
{
    if s.len() == 0 {
        Map::empty()
    } else {
        let m = store_map(s.drop_last());
        match s.last().1 {
            Some(v) => m.insert(s.last().0, v@),
            None => m.remove(s.last().0),
        }
    }
}

/// A key in the map has an entry in the sequence.
pub proof fn lemma_store_map_key_has_entry(s: Seq<Entry>, k: Key)
    requires
        store_map(s).contains_key(k),
    ensures
        exists|i: int| 0 <= i < s.len() && (#[trigger] s[i]).0 == k,
    decreases s.len(),
{
    if s.len() > 0 {
        if s.last().0 == k {
            assert(s[s.len() - 1].0 == k);
        } else {
            lemma_store_map_key_has_entry(s.drop_last(), k);
            let i = choose|i: int| 0 <= i < s.drop_last().len() && (#[trigger] s.drop_last()[i]).0 == k;
            assert(s[i].0 == k);
        }
    }
}

/// One snapshot of global state.
pub struct Store {
    pub entries: Vec<Entry>,
}

impl View for Store {
    type V = Map<Key, ValueV>;

    open spec fn view(&self) -> Map<Key, ValueV> {
        store_map(self.entries@)
    }
}

impl Store {
    /// The empty snapshot.
    pub fn new() -> (r: Store)
        ensures
            r@ =~= Map::<Key, ValueV>::empty(),
    {
        Store { entries: Vec::new() }
    }

    /// Reads the record under `k`, if any.
    pub fn get(&self, k: Key) -> (r: Option<StoredValue>)
        ensures
            match r {
                Some(v) => self@.contains_key(k) && v@ == self@[k],
                None => !self@.contains_key(k),
            },
    {
        let mut i: usize = self.entries.len();
        proof {
            assert(self.entries@.subrange(0, i as int) =~= self.entries@);
        }
        while i > 0
            invariant
                i <= self.entries.len(),
                store_map(self.entries@).contains_key(k) == store_map(
                    self.entries@.subrange(0, i as int),
                ).contains_key(k),
                store_map(self.entries@).contains_key(k) ==> store_map(self.entries@)[k]
                    == store_map(self.entries@.subrange(0, i as int))[k],
            decreases i,
        {
            i = i - 1;
            proof {
                assert(self.entries@.subrange(0, i as int + 1).drop_last() =~= self.entries@
                    .subrange(0, i as int));
                assert(self.entries@.subrange(0, i as int + 1).last() == self.entries@[i as int]);
            }
            if self.entries[i].0 == k {
                match &self.entries[i].1 {
                    Some(v) => {
                        return Some(v.duplicate());
                    },
                    None => {
                        return None;
                    },
                }
            }
        }
        proof {
            assert(self.entries@.subrange(0, 0) =~= Seq::<Entry>::empty());
        }
        None
    }

    /// Binds `k` to `v`.
    pub fn put(&mut self, k: Key, v: StoredValue)
        ensures
            final(self)@ == old(self)@.insert(k, v@),
    {
        self.entries.push((k, Some(v)));
        proof {
            assert(self.entries@.drop_last() =~= old(self).entries@);
        }
    }

    /// Removes the record under `k`.
    pub fn drop_key(&mut self, k: Key)
        ensures
            final(self)@ == old(self)@.remove(k),
    {
        self.entries.push((k, None));
        proof {
            assert(self.entries@.drop_last() =~= old(self).entries@);
        }
    }

    /// Copies the snapshot, preserving its view and its entry sequence.
    pub fn duplicate(&self) -> (r: Store)
        ensures
            r@ == self@,
            r.entries@.len() == self.entries@.len(),
            forall|i: int|
                0 <= i < self.entries@.len() ==> r.entries@[i].0 == self.entries@[i].0 && (match (
                self.entries@[i].1, r.entries@[i].1) {
                    (Some(a), Some(b)) => a@ == b@,
                    (None, None) => true,
                    _ => false,
                }),
    {
        let mut entries: Vec<Entry> = Vec::new();
        let mut i: usize = 0;
        while i < self.entries.len()
            invariant
                i <= self.entries.len(),
                entries@.len() == i,
                forall|j: int|
                    0 <= j < i ==> entries@[j].0 == self.entries@[j].0 && (match (
                    self.entries@[j].1, entries@[j].1) {
                        (Some(a), Some(b)) => a@ == b@,
                        (None, None) => true,
                        _ => false,
                    }),
            decreases self.entries.len() - i,
        {
            let dup: Entry = match &self.entries[i].1 {
                Some(v) => (self.entries[i].0, Some(v.duplicate())),
                None => (self.entries[i].0, None),
            };
            entries.push(dup);
            i = i + 1;
        }
        let r = Store { entries };
        proof {
            lemma_store_map_congruent(r.entries@, self.entries@);
        }
        r
    }
}

/// Two entry sequences that agree key-for-key and view-for-view denote the
/// same map.
proof fn lemma_store_map_congruent(a: Seq<Entry>, b: Seq<Entry>)
    requires
        a.len() == b.len(),
        forall|i: int|
            0 <= i < a.len() ==> (#[trigger] a[i]).0 == b[i].0 && (match (b[i].1, a[i].1) {
                (Some(x), Some(y)) => x@ == y@,
                (None, None) => true,
                _ => false,
            }),
    ensures
        store_map(a) == store_map(b),
    decreases a.len(),
{
    if a.len() > 0 {
        assert(forall|i: int|
            0 <= i < a.drop_last().len() ==> (#[trigger] a.drop_last()[i]) == a[i]);
        assert(forall|i: int|
            0 <= i < b.drop_last().len() ==> (#[trigger] b.drop_last()[i]) == b[i]);
        lemma_store_map_congruent(a.drop_last(), b.drop_last());
        assert(store_map(a) =~= store_map(b));
    } else {
        assert(store_map(a) =~= store_map(b));
    }
}

/// What one transform makes of a map, where it applies.
pub open spec fn apply_one(m: Map<Key, ValueV>, t: TransformV) -> Option<Map<Key, ValueV>> {
    match t.kind {
        TransformKindV::Identity => Some(m),
        TransformKindV::Write(v) => Some(m.insert(t.key, v)),
        TransformKindV::Prune => Some(m.remove(t.key)),
        TransformKindV::Add(a) => if m.contains_key(t.key) {
            match m[t.key] {
                ValueV::Amount(x) => if x + a <= u128::MAX {
                    Some(m.insert(t.key, ValueV::Amount((x + a) as u128)))
                } else {
                    None
                },
                _ => None,
            }
        } else {
            None
        },
    }
}

/// What an effect log makes of a map: its transforms applied in order,
/// all-or-nothing.
pub open spec fn apply_all(m: Map<Key, ValueV>, ts: Seq<TransformV>) -> Option<Map<Key, ValueV>>
    decreases ts.len(),
{
    if ts.len() == 0 {
        Some(m)
    } else {
        match apply_one(m, ts[0]) {
            Some(m2) => apply_all(m2, ts.drop_first()),
            None => None,
        }
    }
}

/// Appending one transform to the log applies it last.
pub proof fn lemma_apply_all_snoc(m: Map<Key, ValueV>, ts: Seq<TransformV>, t: TransformV)
    ensures
        apply_all(m, ts.push(t)) == (match apply_all(m, ts) {
            Some(m2) => apply_one(m2, t),
            None => None,
        }),
    decreases ts.len(),
{
    if ts.len() == 0 {
        assert(ts.push(t).drop_first() =~= Seq::<TransformV>::empty());
        assert(ts.push(t)[0] == t);
        match apply_one(m, t) {
            Some(m2) => {
                assert(apply_all(m2, ts.push(t).drop_first()) == Some(m2));
            },
            None => {},
        }
    } else {
        assert(ts.push(t)[0] == ts[0]);
        assert(ts.push(t).drop_first() =~= ts.drop_first().push(t));
        match apply_one(m, ts[0]) {
            Some(m2) => {
                lemma_apply_all_snoc(m2, ts.drop_first(), t);
                assert(apply_all(m, ts.push(t)) == apply_all(m2, ts.drop_first().push(t)));
                assert(apply_all(m, ts) == apply_all(m2, ts.drop_first()));
            },
            None => {
                assert(apply_all(m, ts.push(t)) is None);
                assert(apply_all(m, ts) is None);
            },
        }
    }
}

/// Why a commit was refused.
#[derive(Clone, Copy, PartialEq, Eq, Debug)]
pub enum CommitError {
    /// The pre-state root does not exist.
    RootNotFound(u64),
    /// An `Add` transform found no amount record under its key, or its
    /// addition would overflow.
    TransformFailure(Key),
}

/// The versioned global state: every committed snapshot, addressed by root.
///
/// Root 0 is the empty root; every other root is the output of one commit
/// applied to a prior root.  There is no way to construct a root directly.
pub struct GlobalState {
    roots: Vec<Store>,
    flush_count: u64,
}

impl GlobalState {
    /// Whether `root` addresses a committed snapshot.
    pub closed spec fn has_root(&self, root: u64) -> bool {
        root < self.roots@.len()
    }

    /// The map that the snapshot under `root` denotes.
    pub closed spec fn root_map(&self, root: u64) -> Map<Key, ValueV> {
        self.roots@[root as int]@
    }

    /// The number of committed snapshots.
    pub closed spec fn spec_root_count(&self) -> int {
        self.roots@.len() as int
    }

    /// How many times the state has been flushed to durable storage.
    pub closed spec fn spec_flush_count(&self) -> u64 {
        self.flush_count
    }

    /// A fresh global state holding only the empty root.
    pub fn new() -> (r: GlobalState)
        ensures
            r.spec_root_count() == 1,
            r.has_root(0),
            r.root_map(0) =~= Map::<Key, ValueV>::empty(),
            r.spec_flush_count() == 0,
    {
        let mut roots: Vec<Store> = Vec::new();
        roots.push(Store::new());
        GlobalState { roots, flush_count: 0 }
    }

    /// The root of the empty snapshot.
    pub fn empty_root(&self) -> (r: u64)
        ensures
            r == 0,
    {
        0
    }

    /// Checks out a copy of the snapshot under `root`, if it exists.
    pub fn checkout(&self, root: u64) -> (r: Option<Store>)
        ensures
            self.has_root(root) ==> r is Some && r.unwrap()@ == self.root_map(root),
            !self.has_root(root) ==> r is None,
    {
        if root < self.roots.len() as u64 {
            Some(self.roots[root as usize].duplicate())
        } else {
            None
        }
    }

    /// Applies an effect log to the snapshot under `root`, all-or-nothing,
    /// and commits the outcome as a new root.  The new root's map is exactly
    /// the old map with the effects applied in order.
    pub fn commit(&mut self, root: u64, effects: &Effects) -> (r: Result<u64, CommitError>)
        requires
            old(self).spec_root_count() < u64::MAX,
        ensures
            !old(self).has_root(root) ==> r == Err::<u64, CommitError>(
                CommitError::RootNotFound(root),
            ) && *final(self) == *old(self),
            old(self).has_root(root) ==> (match apply_all(old(self).root_map(root), effects@) {
                Some(m) => {
                    &&& r is Ok
                    &&& r.unwrap() == old(self).spec_root_count()
                    &&& final(self).spec_root_count() == old(self).spec_root_count() + 1
                    &&& final(self).has_root(r.unwrap())
                    &&& final(self).root_map(r.unwrap()) == m
                    &&& forall|q: u64|
                        old(self).has_root(q) ==> final(self).has_root(q) && final(self).root_map(
                            q,
                        ) == old(self).root_map(q)
                    &&& final(self).spec_flush_count() == old(self).spec_flush_count()
                },
                None => ({
                    &&& r matches Err(CommitError::TransformFailure(_))
                    &&& *final(self) == *old(self)
                }),
            }),
    {
        let snapshot = match self.checkout(root) {
            Some(s) => s,
            None => {
                return Err(CommitError::RootNotFound(root));
            },
        };
        let ghost m0 = snapshot@;
        let mut cur = snapshot;
        let mut i: usize = 0;
        proof {
            assert(effects@.subrange(0, 0) =~= Seq::<TransformV>::empty());
        }
        while i < effects.transforms.len()
            invariant
                i <= effects.transforms.len(),
                effects@.len() == effects.transforms@.len(),
                apply_all(m0, effects@.subrange(0, i as int)) == Some(cur@),
                old(self).has_root(root),
                m0 == old(self).root_map(root),
                *self == *old(self),
            decreases effects.transforms.len() - i,
        {
            proof {
                lemma_apply_all_snoc(m0, effects@.subrange(0, i as int), effects@[i as int]);
                assert(effects@.subrange(0, i as int + 1) =~= effects@.subrange(
                    0,
                    i as int,
                ).push(effects@[i as int]));
            }
            let t = &effects.transforms[i];
            let ghost tv = effects@[i as int];
            proof {
                assert(tv == t@);
            }
            match &t.kind {
                TransformKind::Identity => {},
                TransformKind::Write(v) => {
                    cur.put(t.key, v.duplicate());
                },
                TransformKind::Prune => {
                    cur.drop_key(t.key);
                },
                TransformKind::Add(a) => {
                    match cur.get(t.key) {
                        Some(StoredValue::Amount(x)) => {
                            match x.checked_add(*a) {
                                Some(sum) => {
                                    cur.put(t.key, StoredValue::Amount(sum));
                                },
                                None => {
                                    proof {
                                        assert(apply_one(cur@, tv) is None);
                                        lemma_apply_all_none_prefix(m0, effects@, i as int + 1);
                                    }
                                    return Err(CommitError::TransformFailure(t.key));
                                },
                            }
                        },
                        _ => {
                            proof {
                                assert(apply_one(cur@, tv) is None);
                                lemma_apply_all_none_prefix(m0, effects@, i as int + 1);
                            }
                            return Err(CommitError::TransformFailure(t.key));
                        },
                    }
                },
            }
            i = i + 1;
        }
        proof {
            assert(effects@.subrange(0, effects.transforms@.len() as int) =~= effects@);
        }
        let new_root = self.roots.len() as u64;
        self.roots.push(cur);
        Ok(new_root)
    }

    /// Flushes the state to durable storage.
    pub fn flush(&mut self)
        requires
            old(self).spec_flush_count() < u64::MAX,
        ensures
            final(self).spec_flush_count() == old(self).spec_flush_count() + 1,
            final(self).spec_root_count() == old(self).spec_root_count(),
            forall|q: u64|
                old(self).has_root(q) ==> final(self).has_root(q) && final(self).root_map(q) == old(self).root_map(q),
    {
        self.flush_count = self.flush_count + 1;
    }
}

/// A log that fails on some prefix fails as a whole.
pub proof fn lemma_apply_all_none_prefix(m: Map<Key, ValueV>, ts: Seq<TransformV>, j: int)
    requires
        0 <= j <= ts.len(),
        apply_all(m, ts.subrange(0, j)) is None,
    ensures
        apply_all(m, ts) is None,
    decreases ts.len(),
{
    if ts.len() == 0 || j == 0 {
        assert(ts.subrange(0, j) =~= Seq::<TransformV>::empty());
    } else {
        let sub = ts.subrange(0, j);
        assert(sub[0] == ts[0]);
        match apply_one(m, ts[0]) {
            Some(m2) => {
                assert(sub.drop_first() =~= ts.drop_first().subrange(0, j - 1));
                lemma_apply_all_none_prefix(m2, ts.drop_first(), j - 1);
            },
            None => {},
        }
    }
}

/// A log whose transforms never touch `k` leaves the binding of `k` alone.
pub proof fn lemma_apply_preserves_untouched(
    m: Map<Key, ValueV>,
    ts: Seq<TransformV>,
    k: Key,
)
    requires
        apply_all(m, ts) is Some,
        forall|j: int| 0 <= j < ts.len() ==> (#[trigger] ts[j]).key != k,
    ensures
        apply_all(m, ts).unwrap().contains_key(k) == m.contains_key(k),
        m.contains_key(k) ==> apply_all(m, ts).unwrap()[k] == m[k],
    decreases ts.len(),
{
    if ts.len() > 0 {
        let m2 = apply_one(m, ts[0]).unwrap();
        assert(forall|j: int|
            0 <= j < ts.drop_first().len() ==> (#[trigger] ts.drop_first()[j]) == ts[j + 1]);
        lemma_apply_preserves_untouched(m2, ts.drop_first(), k);
    }
}

/// After applying a log whose last transform for `k` is `Write(v)`, the
/// committed map binds `k` to `v`.
pub proof fn lemma_apply_reflects_final_write(
    m: Map<Key, ValueV>,
    ts: Seq<TransformV>,
    i: int,
    k: Key,
    v: ValueV,
)
    requires
        apply_all(m, ts) is Some,
        0 <= i < ts.len(),
        ts[i].key == k,
        ts[i].kind == TransformKindV::Write(v),
        forall|j: int| i < j < ts.len() ==> (#[trigger] ts[j]).key != k,
    ensures
        apply_all(m, ts).unwrap().contains_key(k),
        apply_all(m, ts).unwrap()[k] == v,
    decreases ts.len(),
{
    let m2 = apply_one(m, ts[0]).unwrap();
    assert(forall|j: int|
        0 <= j < ts.drop_first().len() ==> (#[trigger] ts.drop_first()[j]) == ts[j + 1]);
    if i == 0 {
        assert(m2 == m.insert(k, v));
        lemma_apply_preserves_untouched(m2, ts.drop_first(), k);
    } else {
        lemma_apply_reflects_final_write(m2, ts.drop_first(), i - 1, k, v);
    }
}

} // verus!

//! The buffered, forkable view over global state used during execution.
//!
//! A `TrackingCopy` wraps a read-only snapshot and accumulates writes and
//! prunes in a local overlay.  Reads check the overlay first.  The overlay
//! holds at most one transform per key — repeated writes to one key collapse
//! to the last write — and `effects()` returns it as the ordered transform
//! log.  Forking yields an independent copy whose later effects never leak
//! back.

use vstd::prelude::*;

use crate::effects::{Effects, Transform, TransformKind, TransformKindV, TransformV};
use crate::keys::Key;
use crate::store::{lemma_store_map_key_has_entry, Store};
use crate::values::{NamedKeyEntry, StoredValue, ValueV};

verus! {

/// Whether some transform in `o` has key `k`.
pub open spec fn ov_contains_key(o: Seq<TransformV>, k: Key) -> bool {
    exists|i: int| 0 <= i < o.len() && (#[trigger] o[i]).key == k
}

/// The index of the first transform with key `k`.
pub open spec fn ov_index(o: Seq<TransformV>, k: Key) -> int
    decreases o.len(),
{
    if o.len() == 0 {
        0
    } else if o[0].key == k {
        0
    } else {
        1 + ov_index(o.drop_first(), k)
    }
}

/// The first transform with key `k` is at `ov_index`, and nothing before it
/// has key `k`.
pub proof fn lemma_ov_index_props(o: Seq<TransformV>, k: Key)
    requires
        ov_contains_key(o, k),
    ensures
        0 <= ov_index(o, k) < o.len(),
        o[ov_index(o, k)].key == k,
        forall|j: int| 0 <= j < ov_index(o, k) ==> (#[trigger] o[j]).key != k,
    decreases o.len(),
{
    if o.len() > 0 && o[0].key != k {
        assert(forall|j: int|
            0 <= j < o.drop_first().len() ==> (#[trigger] o.drop_first()[j]) == o[j + 1]);
        let i = choose|i: int| 0 <= i < o.len() && (#[trigger] o[i]).key == k;
        assert(o.drop_first()[i - 1].key == k);
        lemma_ov_index_props(o.drop_first(), k);
        let x = ov_index(o, k);
        assert(x == 1 + ov_index(o.drop_first(), k));
        assert forall|j: int| 0 <= j < x implies (#[trigger] o[j]).key != k by {
            if j > 0 {
                assert(o.drop_first()[j - 1].key != k);
            }
        }
    }
}

/// The transform recorded for `k`, if any.
pub open spec fn find_transform(o: Seq<TransformV>, k: Key) -> Option<TransformKindV> {
    if ov_contains_key(o, k) {
        Some(o[ov_index(o, k)].kind)
    } else {
        None
    }
}

/// The overlay after recording transform `t`: the first transform with the
/// same key is replaced, else `t` is appended.
pub open spec fn spec_record(o: Seq<TransformV>, t: TransformV) -> Seq<TransformV> {
    if ov_contains_key(o, t.key) {
        o.update(ov_index(o, t.key), t)
    } else {
        o.push(t)
    }
}

/// Recording the same transform twice leaves the log exactly as recording it
/// once: repeated identical writes to one key collapse to a single
/// transform.
pub proof fn lemma_record_idempotent(o: Seq<TransformV>, t: TransformV)
    ensures
        spec_record(spec_record(o, t), t) == spec_record(o, t),
{
    let o1 = spec_record(o, t);
    if ov_contains_key(o, t.key) {
        lemma_ov_index_props(o, t.key);
        let i = ov_index(o, t.key);
        assert(o1[i].key == t.key);
        assert(ov_contains_key(o1, t.key));
        lemma_ov_index_props(o1, t.key);
        assert(ov_index(o1, t.key) == i);
        assert(o1.update(i, t) =~= o1);
    } else {
        let i = o.len() as int;
        assert(o1[i].key == t.key);
        assert(ov_contains_key(o1, t.key));
        lemma_ov_index_props(o1, t.key);
        assert(ov_index(o1, t.key) == i);
        assert(o1.update(i, t) =~= o1);
    }
}

/// The outcome of a path query.
pub enum QueryOutcome {
    /// The full path resolved to this value.
    Success(StoredValue),
    /// Nothing was found at this path depth.
    ValueNotFound(usize),
    /// The value at this path depth cannot be traversed further.
    NonTraversable(usize),
    /// The path is longer than the configured maximum query depth.
    DepthExceeded,
}

/// The spec view of a `QueryOutcome`.
#[verifier::ext_equal]
pub enum QueryOutcomeV {
    Success(ValueV),
    ValueNotFound(usize),
    NonTraversable(usize),
    DepthExceeded,
}

impl View for QueryOutcome {
    type V = QueryOutcomeV;

    open spec fn view(&self) -> QueryOutcomeV {
        match self {
            QueryOutcome::Success(v) => QueryOutcomeV::Success(v@),
            QueryOutcome::ValueNotFound(d) => QueryOutcomeV::ValueNotFound(*d),
            QueryOutcome::NonTraversable(d) => QueryOutcomeV::NonTraversable(*d),
            QueryOutcome::DepthExceeded => QueryOutcomeV::DepthExceeded,
        }
    }
}

/// The buffered view over one snapshot of global state.
pub struct TrackingCopy {
    reader: Store,
    overlay: Vec<Transform>,
    max_query_depth: u64,
}

impl TrackingCopy {
    /// The overlay as an ordered transform log.
    pub closed spec fn ov(&self) -> Seq<TransformV> {
        Seq::new(self.overlay@.len(), |i: int| self.overlay@[i]@)
    }

    /// The map the underlying reader denotes.
    pub closed spec fn reader_map(&self) -> Map<Key, ValueV> {
        self.reader@
    }

    /// The configured maximum query depth.
    pub closed spec fn spec_max_query_depth(&self) -> u64 {
        self.max_query_depth
    }

    /// The overlay holds only writes and prunes, at most one per key.
    pub closed spec fn wf(&self) -> bool {
        &&& forall|i: int|
            0 <= i < self.ov().len() ==> ((#[trigger] self.ov()[i]).kind is Write
                || self.ov()[i].kind is Prune)
        &&& forall|i: int, j: int|
            0 <= i < j < self.ov().len() ==> (#[trigger] self.ov()[i]).key != (
            #[trigger] self.ov()[j]).key
    }

    /// What a read of `k` returns: the overlay decides where it holds a
    /// transform for `k`, else the underlying reader does.
    pub open spec fn spec_read(&self, k: Key) -> Option<ValueV> {
        match find_transform(self.ov(), k) {
            Some(TransformKindV::Write(v)) => Some(v),
            Some(TransformKindV::Prune) => None,
            _ => if self.reader_map().contains_key(k) {
                Some(self.reader_map()[k])
            } else {
                None
            },
        }
    }

    /// Wraps a snapshot in a fresh tracking copy with an empty overlay.
    pub fn new(reader: Store, max_query_depth: u64) -> (r: TrackingCopy)
        ensures
            r.wf(),
            r.reader_map() == reader@,
            r.ov() =~= Seq::<TransformV>::empty(),
            r.spec_max_query_depth() == max_query_depth,
    {
        TrackingCopy { reader, overlay: Vec::new(), max_query_depth }
    }

    /// Records a transform for `k`, replacing any prior transform for `k`.
    fn record(&mut self, k: Key, kind: TransformKind)
        requires
            old(self).wf(),
            kind is Write || kind is Prune,
        ensures
            final(self).wf(),
            final(self).ov() == spec_record(
                old(self).ov(),
                TransformV { key: k, kind: kind@ },
            ),
            final(self).reader_map() == old(self).reader_map(),
            final(self).spec_max_query_depth() == old(self).spec_max_query_depth(),
    {
        let mut i: usize = 0;
        while i < self.overlay.len()
            invariant
                i <= self.overlay.len(),
                *self == *old(self),
                old(self).wf(),
                kind is Write || kind is Prune,
                forall|j: int| 0 <= j < i ==> (#[trigger] self.ov()[j]).key != k,
            decreases self.overlay.len() - i,
        {
            if self.overlay[i].key == k {
                let ghost tv = TransformV { key: k, kind: kind@ };
                proof {
                    assert(self.ov()[i as int].key == k);
                    assert(ov_contains_key(self.ov(), k));
                    lemma_ov_index_props(self.ov(), k);
                    assert(ov_index(self.ov(), k) == i);
                }
                let ghost before = self.ov();
                let nt = Transform { key: k, kind };
                proof {
                    assert(nt@ == tv);
                }
                self.overlay[i] = nt;
                proof {
                    assert(self.overlay@[i as int]@ == tv);
                    assert(forall|j: int|
                        0 <= j < self.overlay@.len() && j != i ==> self.overlay@[j] == old(self).overlay@[j]);
                    assert(self.ov() =~= before.update(i as int, tv));
                    assert(forall|j: int|
                        0 <= j < self.ov().len() ==> (#[trigger] self.ov()[j]).key
                            == before[j].key);
                    assert(forall|j: int|
                        0 <= j < self.ov().len() ==> ((#[trigger] self.ov()[j]).kind is Write
                            || self.ov()[j].kind is Prune));
                }
                return ;
            }
            i = i + 1;
        }
        proof {
            assert(forall|j: int| 0 <= j < self.ov().len() ==> (#[trigger] self.ov()[j]).key != k);
            assert(!ov_contains_key(self.ov(), k));
        }
        let ghost tv = TransformV { key: k, kind: kind@ };
        let ghost before = self.ov();
        self.overlay.push(Transform { key: k, kind });
        proof {
            assert(self.ov() =~= before.push(tv));
        }
    }

    /// Buffers an overwrite of `k` with `v`; the underlying snapshot is not
    /// touched until commit.
    pub fn write(&mut self, k: Key, v: StoredValue)
        requires
            old(self).wf(),
        ensures
            final(self).wf(),
            final(self).ov() == spec_record(
                old(self).ov(),
                TransformV { key: k, kind: TransformKindV::Write(v@) },
            ),
            final(self).reader_map() == old(self).reader_map(),
            final(self).spec_max_query_depth() == old(self).spec_max_query_depth(),
            final(self).spec_read(k) == Some(v@),
            forall|k2: Key| k2 != k ==> final(self).spec_read(k2) == old(self).spec_read(k2),
    {
        self.record(k, TransformKind::Write(v));
        proof {
            lemma_record_read(old(self).ov(), TransformV { key: k, kind: TransformKindV::Write(v@) });
        }
    }

    /// Buffers a tombstone for `k`; a later read of `k` returns nothing even
    /// while the underlying snapshot still has it.
    pub fn prune(&mut self, k: Key)
        requires
            old(self).wf(),
        ensures
            final(self).wf(),
            final(self).ov() == spec_record(
                old(self).ov(),
                TransformV { key: k, kind: TransformKindV::Prune },
            ),
            final(self).reader_map() == old(self).reader_map(),
            final(self).spec_max_query_depth() == old(self).spec_max_query_depth(),
            final(self).spec_read(k) is None,
            forall|k2: Key| k2 != k ==> final(self).spec_read(k2) == old(self).spec_read(k2),
    {
        self.record(k, TransformKind::Prune);
        proof {
            lemma_record_read(old(self).ov(), TransformV { key: k, kind: TransformKindV::Prune });
        }
    }

    /// Reads the record under `k`: the local overlay first, else the
    /// underlying snapshot.
    pub fn read(&self, k: Key) -> (r: Option<StoredValue>)
        requires
            self.wf(),
        ensures
            match r {
                Some(v) => self.spec_read(k) == Some(v@),
                None => self.spec_read(k) is None,
            },
    {
        let mut i: usize = 0;
        while i < self.overlay.len()
            invariant
                self.wf(),
                i <= self.overlay.len(),
                forall|j: int| 0 <= j < i ==> (#[trigger] self.ov()[j]).key != k,
            decreases self.overlay.len() - i,
        {
            if self.overlay[i].key == k {
                proof {
                    assert(self.ov()[i as int].key == k);
                    assert(ov_contains_key(self.ov(), k));
                    lemma_ov_index_props(self.ov(), k);
                    assert(ov_index(self.ov(), k) == i);
                }
                match &self.overlay[i].kind {
                    TransformKind::Write(v) => {
                        return Some(v.duplicate());
                    },
                    TransformKind::Prune => {
                        return None;
                    },
                    _ => {
                        proof {
                            assert(self.ov()[i as int].kind is Write || self.ov()[i as int].kind
                                is Prune);
                            assert(false);
                        }
                        return None;
                    },
                }
            }
            i = i + 1;
        }
        proof {
            assert(!ov_contains_key(self.ov(), k));
        }
        self.reader.get(k)
    }

    /// Produces the ordered transform log accumulated so far.  Side-effect
    /// free and callable repeatedly.
    pub fn effects(&self) -> (r: Effects)
        ensures
            r@ == self.ov(),
    {
        let mut transforms: Vec<Transform> = Vec::new();
        let mut i: usize = 0;
        while i < self.overlay.len()
            invariant
                i <= self.overlay.len(),
                transforms@.len() == i,
                forall|j: int| 0 <= j < i ==> transforms@[j]@ == self.overlay@[j]@,
            decreases self.overlay.len() - i,
        {
            transforms.push(self.overlay[i].duplicate());
            i = i + 1;
        }
        let r = Effects { transforms };
        proof {
            assert(r@ =~= self.ov());
        }
        r
    }

    /// Returns an independent copy sharing the same underlying snapshot and
    /// carrying a copy of the current overlay.  Effects recorded on the fork
    /// are never folded back automatically.
    pub fn fork(&self) -> (r: TrackingCopy)
        requires
            self.wf(),
        ensures
            r.wf(),
            r.ov() == self.ov(),
            r.reader_map() == self.reader_map(),
            r.spec_max_query_depth() == self.spec_max_query_depth(),
    {
        let mut overlay: Vec<Transform> = Vec::new();
        let mut i: usize = 0;
        while i < self.overlay.len()
            invariant
                i <= self.overlay.len(),
                overlay@.len() == i,
                forall|j: int| 0 <= j < i ==> overlay@[j]@ == self.overlay@[j]@,
            decreases self.overlay.len() - i,
        {
            overlay.push(self.overlay[i].duplicate());
            i = i + 1;
        }
        let r = TrackingCopy {
            reader: self.reader.duplicate(),
            overlay,
            max_query_depth: self.max_query_depth,
        };
        proof {
            assert(r.ov() =~= self.ov());
        }
        r
    }
}

/// A key tag, naming one variant of `Key` for enumeration.
#[derive(Clone, Copy, PartialEq, Eq, Structural, Debug)]
pub enum KeyTag {
    Account,
    Balance,
    Bid,
    BidAddr,
    DeployInfo,
    EraInfo,
}

/// Whether `k` carries the tag.
pub open spec fn tag_matches(k: Key, tag: KeyTag) -> bool {
    match tag {
        KeyTag::Account => k is Account,
        KeyTag::Balance => k is Balance,
        KeyTag::Bid => k is Bid,
        KeyTag::BidAddr => k is BidAddr,
        KeyTag::DeployInfo => k is DeployInfo,
        KeyTag::EraInfo => k is EraInfo,
    }
}

/// Whether `k` carries the tag, as executable code.
fn tag_matches_exec(k: Key, tag: KeyTag) -> (r: bool)
    ensures
        r == tag_matches(k, tag),
{
    match tag {
        KeyTag::Account => matches!(k, Key::Account(_)),
        KeyTag::Balance => matches!(k, Key::Balance(_)),
        KeyTag::Bid => matches!(k, Key::Bid(_)),
        KeyTag::BidAddr => matches!(k, Key::BidAddr(_)),
        KeyTag::DeployInfo => matches!(k, Key::DeployInfo(_)),
        KeyTag::EraInfo => matches!(k, Key::EraInfo(_)),
    }
}

/// Whether `keys` holds `k`.
fn keys_contain(keys: &Vec<Key>, k: Key) -> (r: bool)
    ensures
        r == keys@.contains(k),
{
    let mut i: usize = 0;
    while i < keys.len()
        invariant
            i <= keys.len(),
            forall|j: int| 0 <= j < i ==> keys@[j] != k,
        decreases keys.len() - i,
    {
        if keys[i] == k {
            proof {
                assert(keys@[i as int] == k);
            }
            return true;
        }
        i = i + 1;
    }
    false
}

impl TrackingCopy {
    /// Returns every key with the given tag that currently reads as present
    /// — buffered writes included, buffered prunes excluded — each key once.
    pub fn get_keys(&self, tag: KeyTag) -> (r: Vec<Key>)
        requires
            self.wf(),
        ensures
            forall|k: Key|
                r@.contains(k) <==> (tag_matches(k, tag) && (#[trigger] self.spec_read(k))
                    is Some),
            forall|i: int, j: int| 0 <= i < j < r@.len() ==> r@[i] != r@[j],
    {
        let mut out: Vec<Key> = Vec::new();
        let mut i: usize = 0;
        while i < self.reader.entries.len()
            invariant
                self.wf(),
                i <= self.reader.entries.len(),
                self.reader_map() == self.reader@,
                forall|k: Key|
                    out@.contains(k) ==> (tag_matches(k, tag) && (#[trigger] self.spec_read(k))
                        is Some),
                forall|a: int, b: int| 0 <= a < b < out@.len() ==> out@[a] != out@[b],
                forall|j: int|
                    0 <= j < i ==> (tag_matches((#[trigger] self.reader.entries@[j]).0, tag)
                        && self.spec_read(self.reader.entries@[j].0) is Some ==> out@.contains(
                        self.reader.entries@[j].0,
                    )),
            decreases self.reader.entries.len() - i,
        {
            let k = self.reader.entries[i].0;
            if tag_matches_exec(k, tag) && !keys_contain(&out, k) {
                match self.read(k) {
                    Some(_) => {
                        let ghost before = out@;
                        out.push(k);
                        proof {
                            assert(out@ == before.push(k));
                            assert(forall|kk: Key|
                                before.contains(kk) ==> #[trigger] out@.contains(kk)) by {
                                assert(forall|j: int|
                                    0 <= j < before.len() ==> out@[j] == #[trigger] before[j]);
                            }
                            assert(out@.contains(k)) by {
                                assert(out@[before.len() as int] == k);
                            }
                            assert(forall|kk: Key| #[trigger]
                                out@.contains(kk) ==> before.contains(kk) || kk == k) by {
                                assert(forall|j: int|
                                    0 <= j < out@.len() ==> j < before.len() || (#[trigger] out@[j])
                                        == k);
                            }
                        }
                    },
                    None => {},
                }
            }
            i = i + 1;
        }
        let mut h: usize = 0;
        while h < self.overlay.len()
            invariant
                self.wf(),
                h <= self.overlay.len(),
                self.reader_map() == self.reader@,
                forall|k: Key|
                    out@.contains(k) ==> (tag_matches(k, tag) && (#[trigger] self.spec_read(k))
                        is Some),
                forall|a: int, b: int| 0 <= a < b < out@.len() ==> out@[a] != out@[b],
                forall|j: int|
                    0 <= j < self.reader.entries@.len() ==> (tag_matches(
                        (#[trigger] self.reader.entries@[j]).0,
                        tag,
                    ) && self.spec_read(self.reader.entries@[j].0) is Some ==> out@.contains(
                        self.reader.entries@[j].0,
                    )),
                forall|j: int|
                    0 <= j < h ==> (tag_matches((#[trigger] self.ov()[j]).key, tag)
                        && self.spec_read(self.ov()[j].key) is Some ==> out@.contains(
                        self.ov()[j].key,
                    )),
            decreases self.overlay.len() - h,
        {
            let k = self.overlay[h].key;
            proof {
                assert(self.ov()[h as int].key == k);
            }
            if tag_matches_exec(k, tag) && !keys_contain(&out, k) {
                match self.read(k) {
                    Some(_) => {
                        let ghost before = out@;
                        out.push(k);
                        proof {
                            assert(forall|kk: Key|
                                before.contains(kk) ==> #[trigger] out@.contains(kk)) by {
                                assert(forall|j: int|
                                    0 <= j < before.len() ==> out@[j] == #[trigger] before[j]);
                            }
                            assert(out@.contains(k)) by {
                                assert(out@[before.len() as int] == k);
                            }
                            assert(forall|kk: Key| #[trigger]
                                out@.contains(kk) ==> before.contains(kk) || kk == k) by {
                                assert(forall|j: int|
                                    0 <= j < out@.len() ==> j < before.len() || (#[trigger] out@[j])
                                        == k);
                            }
                        }
                    },
                    None => {},
                }
            }
            h = h + 1;
        }
        proof {
            assert forall|k: Key|
                tag_matches(k, tag) && (#[trigger] self.spec_read(k)) is Some implies out@.contains(
                k,
            ) by {
                match find_transform(self.ov(), k) {
                    Some(kind) => {
                        lemma_ov_index_props(self.ov(), k);
                        let j = ov_index(self.ov(), k);
                        assert(self.ov()[j].key == k);
                    },
                    None => {
                        assert(self.reader_map().contains_key(k));
                        lemma_store_map_key_has_entry(self.reader.entries@, k);
                    },
                }
            }
        }
        out
    }
}

/// Whether some named key has this name.
pub open spec fn nk_contains(nks: Seq<NamedKeyEntry>, name: u64) -> bool {
    exists|i: int| 0 <= i < nks.len() && (#[trigger] nks[i]).name == name
}

/// The index of the first named key with this name.
pub open spec fn nk_index(nks: Seq<NamedKeyEntry>, name: u64) -> int
    decreases nks.len(),
{
    if nks.len() == 0 {
        0
    } else if nks[0].name == name {
        0
    } else {
        1 + nk_index(nks.drop_first(), name)
    }
}

/// The key bound to `name`, if any: the first binding decides.
pub open spec fn find_named(nks: Seq<NamedKeyEntry>, name: u64) -> Option<Key> {
    if nk_contains(nks, name) {
        Some(nks[nk_index(nks, name)].key)
    } else {
        None
    }
}

/// The first named key with `name` is at `nk_index`.
proof fn lemma_nk_index_props(nks: Seq<NamedKeyEntry>, name: u64)
    requires
        nk_contains(nks, name),
    ensures
        0 <= nk_index(nks, name) < nks.len(),
        nks[nk_index(nks, name)].name == name,
    decreases nks.len(),
{
    if nks.len() > 0 && nks[0].name != name {
        assert(forall|j: int|
            0 <= j < nks.drop_first().len() ==> (#[trigger] nks.drop_first()[j]) == nks[j + 1]);
        let i = choose|i: int| 0 <= i < nks.len() && (#[trigger] nks[i]).name == name;
        assert(nks.drop_first()[i - 1].name == name);
        lemma_nk_index_props(nks.drop_first(), name);
    }
}

/// Looks `name` up among the named keys.
fn find_named_exec(nks: &Vec<NamedKeyEntry>, name: u64) -> (r: Option<Key>)
    ensures
        r == find_named(nks@, name),
{
    let mut i: usize = 0;
    while i < nks.len()
        invariant
            i <= nks.len(),
            forall|j: int| 0 <= j < i ==> (#[trigger] nks@[j]).name != name,
        decreases nks.len() - i,
    {
        if nks[i].name == name {
            proof {
                assert(nks@[i as int].name == name);
                assert(nk_contains(nks@, name));
                lemma_nk_first_occurrence(nks@, name, i as int);
            }
            return Some(nks[i].key);
        }
        i = i + 1;
    }
    proof {
        assert(!nk_contains(nks@, name));
    }
    None
}

/// If nothing before `j` has this name and `nks[j]` has it, `j` is the first
/// occurrence.
proof fn lemma_nk_first_occurrence(nks: Seq<NamedKeyEntry>, name: u64, j: int)
    requires
        0 <= j < nks.len(),
        nks[j].name == name,
        forall|a: int| 0 <= a < j ==> (#[trigger] nks[a]).name != name,
    ensures
        nk_contains(nks, name),
        nk_index(nks, name) == j,
    decreases j,
{
    if j > 0 {
        assert(forall|a: int|
            0 <= a < nks.drop_first().len() ==> (#[trigger] nks.drop_first()[a]) == nks[a + 1]);
        lemma_nk_first_occurrence(nks.drop_first(), name, j - 1);
    }
}

impl TrackingCopy {
    /// What a query resolves to, from `k` along `path[idx..]`: at each step
    /// the value must be an entity (whose named keys are separate records)
    /// or a legacy account (whose named keys are embedded); a missing record
    /// stops with the depth reached, and any other value is non-traversable.
    pub open spec fn spec_query(self, k: Key, path: Seq<u64>, idx: int) -> QueryOutcomeV
        recommends
            0 <= idx <= path.len(),
        decreases path.len() - idx,
    {
        if idx >= path.len() {
            match self.spec_read(k) {
                Some(v) => QueryOutcomeV::Success(v),
                None => QueryOutcomeV::ValueNotFound(idx as usize),
            }
        } else {
            match self.spec_read(k) {
                None => QueryOutcomeV::ValueNotFound(idx as usize),
                Some(ValueV::Entity(_)) => match k {
                    Key::Entity(a) => match self.spec_read(Key::NamedKey(a, path[idx])) {
                        Some(ValueV::NamedKey(e)) => self.spec_query(e.key, path, idx + 1),
                        _ => QueryOutcomeV::ValueNotFound((idx + 1) as usize),
                    },
                    _ => QueryOutcomeV::NonTraversable(idx as usize),
                },
                Some(ValueV::Account(acct)) => match find_named(acct.named_keys, path[idx]) {
                    Some(k2) => self.spec_query(k2, path, idx + 1),
                    None => QueryOutcomeV::ValueNotFound((idx + 1) as usize),
                },
                Some(_) => QueryOutcomeV::NonTraversable(idx as usize),
            }
        }
    }

    /// Resolves a root key plus a sequence of named-key path segments.
    /// A path longer than the configured maximum query depth is refused
    /// outright, preventing unbounded traversal.
    pub fn query(&self, key: Key, path: &Vec<u64>) -> (r: QueryOutcome)
        requires
            self.wf(),
        ensures
            path@.len() > self.spec_max_query_depth() ==> r@ == QueryOutcomeV::DepthExceeded,
            path@.len() <= self.spec_max_query_depth() ==> r@ == self.spec_query(key, path@, 0),
    {
        if path.len() as u64 > self.max_query_depth {
            return QueryOutcome::DepthExceeded;
        }
        let mut cur: Key = key;
        let mut idx: usize = 0;
        while idx < path.len()
            invariant
                self.wf(),
                idx <= path.len(),
                path@.len() <= self.spec_max_query_depth(),
                self.spec_query(key, path@, 0) == self.spec_query(cur, path@, idx as int),
            decreases path.len() - idx,
        {
            match self.read(cur) {
                None => {
                    return QueryOutcome::ValueNotFound(idx);
                },
                Some(StoredValue::Entity(_)) => {
                    match cur {
                        Key::Entity(a) => {
                            match self.read(Key::NamedKey(a, path[idx])) {
                                Some(StoredValue::NamedKey(e)) => {
                                    cur = e.key;
                                    idx = idx + 1;
                                },
                                _ => {
                                    return QueryOutcome::ValueNotFound(idx + 1);
                                },
                            }
                        },
                        _ => {
                            return QueryOutcome::NonTraversable(idx);
                        },
                    }
                },
                Some(StoredValue::Account(acct)) => {
                    match find_named_exec(&acct.named_keys, path[idx]) {
                        Some(k2) => {
                            cur = k2;
                            idx = idx + 1;
                        },
                        None => {
                            return QueryOutcome::ValueNotFound(idx + 1);
                        },
                    }
                },
                Some(_) => {
                    return QueryOutcome::NonTraversable(idx);
                },
            }
        }
        match self.read(cur) {
            Some(v) => QueryOutcome::Success(v),
            None => QueryOutcome::ValueNotFound(idx),
        }
    }
}

/// Applying a log of writes and prunes with pairwise-distinct keys never
/// fails, and the outcome at each key is what the log's transform for that
/// key says — or the starting map where the log has none.
pub proof fn lemma_apply_write_prune_log(m0: Map<Key, ValueV>, o: Seq<TransformV>)
    requires
        forall|i: int|
            0 <= i < o.len() ==> ((#[trigger] o[i]).kind is Write || o[i].kind is Prune),
        forall|i: int, j: int| 0 <= i < j < o.len() ==> (#[trigger] o[i]).key != (#[trigger] o[j]).key,
    ensures
        crate::store::apply_all(m0, o) is Some,
        forall|k: Key|
            match #[trigger] find_transform(o, k) {
                Some(TransformKindV::Write(v)) => crate::store::apply_all(
                    m0,
                    o,
                ).unwrap().contains_key(k) && crate::store::apply_all(m0, o).unwrap()[k] == v,
                Some(TransformKindV::Prune) => !crate::store::apply_all(
                    m0,
                    o,
                ).unwrap().contains_key(k),
                _ => crate::store::apply_all(m0, o).unwrap().contains_key(k) == m0.contains_key(k)
                    && (m0.contains_key(k) ==> crate::store::apply_all(m0, o).unwrap()[k] == m0[k]),
            },
    decreases o.len(),
{
    if o.len() == 0 {
        assert(forall|k: Key| !ov_contains_key(o, k));
    } else {
        let t = o[0];
        let m1 = crate::store::apply_one(m0, t).unwrap();
        let rest = o.drop_first();
        assert(forall|j: int| 0 <= j < rest.len() ==> (#[trigger] rest[j]) == o[j + 1]);
        lemma_apply_write_prune_log(m1, rest);
        let m = crate::store::apply_all(m1, rest).unwrap();
        assert(crate::store::apply_all(m0, o) == Some(m));
        assert forall|k: Key| true implies match #[trigger] find_transform(o, k) {
            Some(TransformKindV::Write(v)) => m.contains_key(k) && m[k] == v,
            Some(TransformKindV::Prune) => !m.contains_key(k),
            _ => m.contains_key(k) == m0.contains_key(k) && (m0.contains_key(k) ==> m[k]
                == m0[k]),
        } by {
            if k == t.key {
                assert(ov_contains_key(o, k));
                lemma_ov_index_props(o, k);
                assert(ov_index(o, k) == 0);
                assert(find_transform(o, k) == Some(t.kind));
                if ov_contains_key(rest, k) {
                    lemma_ov_index_props(rest, k);
                    let j = ov_index(rest, k);
                    assert(rest[j] == o[j + 1]);
                    assert(false);
                }
                assert(find_transform(rest, k) is None);
            } else {
                if ov_contains_key(o, k) {
                    lemma_ov_index_props(o, k);
                    let j = ov_index(o, k);
                    assert(j > 0);
                    assert(rest[j - 1] == o[j]);
                    lemma_first_occurrence(rest, k, j - 1);
                    assert(find_transform(rest, k) == Some(o[j].kind));
                    assert(find_transform(o, k) == Some(o[j].kind));
                } else {
                    assert(!ov_contains_key(rest, k)) by {
                        if ov_contains_key(rest, k) {
                            let j = choose|j: int|
                                0 <= j < rest.len() && (#[trigger] rest[j]).key == k;
                            assert(o[j + 1].key == k);
                        }
                    }
                }
            }
        }
    }
}

impl TrackingCopy {
    /// The accumulated overlay, applied as an effect log to the underlying
    /// snapshot, reproduces exactly what this tracking copy reads: committing
    /// `effects()` onto the checked-out root yields the view seen here.
    pub proof fn lemma_overlay_effects_apply(self)
        requires
            self.wf(),
        ensures
            crate::store::apply_all(self.reader_map(), self.ov()) matches Some(m) && forall|k: Key|
                match #[trigger] self.spec_read(k) {
                    Some(v) => m.contains_key(k) && m[k] == v,
                    None => !m.contains_key(k),
                },
    {
        lemma_apply_write_prune_log(self.reader_map(), self.ov());
        let m = crate::store::apply_all(self.reader_map(), self.ov()).unwrap();
        assert forall|k: Key| true implies match #[trigger] self.spec_read(k) {
            Some(v) => m.contains_key(k) && m[k] == v,
            None => !m.contains_key(k),
        } by {
            assert(match find_transform(self.ov(), k) {
                Some(TransformKindV::Write(v)) => m.contains_key(k) && m[k] == v,
                Some(TransformKindV::Prune) => !m.contains_key(k),
                _ => m.contains_key(k) == self.reader_map().contains_key(k) && (
                self.reader_map().contains_key(k) ==> m[k] == self.reader_map()[k]),
            });
        }
    }
}

/// What a query resolves to against a committed map: `spec_query` for a
/// view with no buffered transforms.
pub open spec fn spec_query_map(
    m: Map<Key, ValueV>,
    k: Key,
    path: Seq<u64>,
    idx: int,
) -> QueryOutcomeV
    recommends
        0 <= idx <= path.len(),
    decreases path.len() - idx,
{
    let cur = if m.contains_key(k) {
        Some(m[k])
    } else {
        None
    };
    if idx >= path.len() {
        match cur {
            Some(v) => QueryOutcomeV::Success(v),
            None => QueryOutcomeV::ValueNotFound(idx as usize),
        }
    } else {
        match cur {
            None => QueryOutcomeV::ValueNotFound(idx as usize),
            Some(ValueV::Entity(_)) => match k {
                Key::Entity(a) => match (if m.contains_key(Key::NamedKey(a, path[idx])) {
                    Some(m[Key::NamedKey(a, path[idx])])
                } else {
                    None
                }) {
                    Some(ValueV::NamedKey(e)) => spec_query_map(m, e.key, path, idx + 1),
                    _ => QueryOutcomeV::ValueNotFound((idx + 1) as usize),
                },
                _ => QueryOutcomeV::NonTraversable(idx as usize),
            },
            Some(ValueV::Account(acct)) => match find_named(acct.named_keys, path[idx]) {
                Some(k2) => spec_query_map(m, k2, path, idx + 1),
                None => QueryOutcomeV::ValueNotFound((idx + 1) as usize),
            },
            Some(_) => QueryOutcomeV::NonTraversable(idx as usize),
        }
    }
}

/// The outcome of a query with migration compensation: a query under an
/// entity key whose value is not found is retried once under the legacy
/// hash address of the same record.
pub open spec fn spec_query_migrated(m: Map<Key, ValueV>, k: Key, path: Seq<u64>) -> QueryOutcomeV {
    let first = spec_query_map(m, k, path, 0);
    match k {
        Key::Entity(a) => if first is ValueNotFound {
            spec_query_map(m, Key::Hash(a), path, 0)
        } else {
            first
        },
        _ => first,
    }
}


impl TrackingCopy {
    /// Over an empty overlay, a query is a function of the underlying map
    /// alone.
    pub proof fn lemma_query_map(self, k: Key, path: Seq<u64>, idx: int)
        requires
            self.ov().len() == 0,
            0 <= idx <= path.len(),
        ensures
            self.spec_query(k, path, idx) == spec_query_map(self.reader_map(), k, path, idx),
        decreases path.len() - idx,
    {
        assert(forall|kk: Key| !ov_contains_key(self.ov(), kk));
        let m = self.reader_map();
        if idx < path.len() {
            match self.spec_read(k) {
                Some(ValueV::Entity(_)) => {
                    match k {
                        Key::Entity(a) => {
                            match self.spec_read(Key::NamedKey(a, path[idx])) {
                                Some(ValueV::NamedKey(e)) => {
                                    self.lemma_query_map(e.key, path, idx + 1);
                                },
                                _ => {},
                            }
                        },
                        _ => {},
                    }
                },
                Some(ValueV::Account(acct)) => {
                    match find_named(acct.named_keys, path[idx]) {
                        Some(k2) => {
                            self.lemma_query_map(k2, path, idx + 1);
                        },
                        None => {},
                    }
                },
                _ => {},
            }
        }
    }
}

/// After recording `t`, a read of `t.key` sees `t`, and reads of other keys
/// are unchanged.
proof fn lemma_record_read(o: Seq<TransformV>, t: TransformV)
    ensures
        ov_contains_key(spec_record(o, t), t.key),
        spec_record(o, t)[ov_index(spec_record(o, t), t.key)] == t,
        forall|k2: Key| k2 != t.key ==> find_transform(spec_record(o, t), k2) == find_transform(
            o,
            k2,
        ),
{
    let o1 = spec_record(o, t);
    if ov_contains_key(o, t.key) {
        lemma_ov_index_props(o, t.key);
        let i = ov_index(o, t.key);
        assert(o1[i].key == t.key);
        assert(ov_contains_key(o1, t.key));
        lemma_ov_index_props(o1, t.key);
        assert(ov_index(o1, t.key) == i);
    } else {
        let i = o.len() as int;
        assert(o1[i].key == t.key);
        assert(ov_contains_key(o1, t.key));
        lemma_ov_index_props(o1, t.key);
        assert(ov_index(o1, t.key) == i);
    }
    assert forall|k2: Key| k2 != t.key implies find_transform(o1, k2) == find_transform(
        o,
        k2,
    ) by {
        if ov_contains_key(o, k2) {
            lemma_ov_index_props(o, k2);
            let j = ov_index(o, k2);
            if ov_contains_key(o, t.key) {
                let i = ov_index(o, t.key);
                assert(o1[j] == o[j]);
                assert(forall|a: int| 0 <= a < j ==> (#[trigger] o1[a]).key == o[a].key);
                assert(ov_contains_key(o1, k2));
                lemma_ov_index_props(o1, k2);
                assert(ov_index(o1, k2) == j) by {
                    lemma_first_occurrence(o1, k2, j);
                }
            } else {
                assert(o1[j] == o[j]);
                assert(ov_contains_key(o1, k2));
                lemma_first_occurrence(o1, k2, j);
            }
        } else {
            if ov_contains_key(o1, k2) {
                lemma_ov_index_props(o1, k2);
                let j = ov_index(o1, k2);
                if ov_contains_key(o, t.key) {
                    assert(o1[j].key == k2 && j != ov_index(o, t.key) ==> o[j].key == k2);
                    assert(false);
                } else {
                    assert(j < o.len() ==> o[j].key == k2);
                    assert(false);
                }
            }
        }
    }
}

/// If nothing before `j` has key `k` and `o[j]` has key `k`, then `j` is the
/// first occurrence.
proof fn lemma_first_occurrence(o: Seq<TransformV>, k: Key, j: int)
    requires
        0 <= j < o.len(),
        o[j].key == k,
        forall|a: int| 0 <= a < j ==> (#[trigger] o[a]).key != k,
    ensures
        ov_contains_key(o, k),
        ov_index(o, k) == j,
    decreases j,
{
    if j > 0 {
        assert(forall|a: int|
            0 <= a < o.drop_first().len() ==> (#[trigger] o.drop_first()[a]) == o[a + 1]);
        lemma_first_occurrence(o.drop_first(), k, j - 1);
    }
}

} // verus!

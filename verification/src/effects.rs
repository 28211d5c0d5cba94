//! The effect log: the ordered diff that one execution produces and that a
//! commit applies atomically.

use vstd::prelude::*;

use crate::keys::Key;
use crate::values::{StoredValue, ValueV};

verus! {

/// What one transform does to the record under its key.
#[derive(Clone, PartialEq, Eq, Debug)]
pub enum TransformKind {
    /// The record was read but not changed.
    Identity,
    /// The record is overwritten with the value.
    Write(StoredValue),
    /// The amount is added to the record, which must hold an amount.
    Add(u128),
    /// The record is removed.
    Prune,
}

/// The spec view of a `TransformKind`.
#[verifier::ext_equal]
pub enum TransformKindV {
    Identity,
    Write(ValueV),
    Add(u128),
    Prune,
}

impl View for TransformKind {
    type V = TransformKindV;

    open spec fn view(&self) -> TransformKindV {
        match self {
            TransformKind::Identity => TransformKindV::Identity,
            TransformKind::Write(v) => TransformKindV::Write(v@),
            TransformKind::Add(a) => TransformKindV::Add(*a),
            TransformKind::Prune => TransformKindV::Prune,
        }
    }
}

/// One entry of the effect log.
#[derive(Clone, PartialEq, Eq, Debug)]
pub struct Transform {
    pub key: Key,
    pub kind: TransformKind,
}

/// The spec view of a `Transform`.
#[verifier::ext_equal]
pub struct TransformV {
    pub key: Key,
    pub kind: TransformKindV,
}

impl View for Transform {
    type V = TransformV;

    open spec fn view(&self) -> TransformV {
        TransformV { key: self.key, kind: self.kind@ }
    }
}

impl Transform {
    /// Copies the transform, preserving its view.
    pub fn duplicate(&self) -> (r: Transform)
        ensures
            r@ == self@,
    {
        let kind = match &self.kind {
            TransformKind::Identity => TransformKind::Identity,
            TransformKind::Write(v) => TransformKind::Write(v.duplicate()),
            TransformKind::Add(a) => TransformKind::Add(*a),
            TransformKind::Prune => TransformKind::Prune,
        };
        Transform { key: self.key, kind }
    }
}

/// An ordered log of transforms, the unit of atomic commit.
#[derive(Clone, PartialEq, Eq, Debug)]
pub struct Effects {
    pub transforms: Vec<Transform>,
}

impl View for Effects {
    type V = Seq<TransformV>;

    open spec fn view(&self) -> Seq<TransformV> {
        Seq::new(self.transforms@.len(), |i: int| self.transforms@[i]@)
    }
}

impl Effects {
    /// The empty log.
    pub fn new() -> (r: Effects)
        ensures
            r@ =~= Seq::<TransformV>::empty(),
    {
        Effects { transforms: Vec::new() }
    }

    /// The number of transforms in the log.
    pub fn len(&self) -> (r: usize)
        ensures
            r == self@.len(),
    {
        self.transforms.len()
    }

    /// Appends one transform.
    pub fn push(&mut self, t: Transform)
        ensures
            final(self)@ =~= old(self)@.push(t@),
    {
        self.transforms.push(t);
    }

    /// Copies the log, preserving its view.
    pub fn duplicate(&self) -> (r: Effects)
        ensures
            r@ == self@,
    {
        let mut transforms: Vec<Transform> = Vec::new();
        let mut i: usize = 0;
        while i < self.transforms.len()
            invariant
                i <= self.transforms.len(),
                transforms@.len() == i,
                forall|j: int| 0 <= j < i ==> transforms@[j]@ == self.transforms@[j]@,
            decreases self.transforms.len() - i,
        {
            transforms.push(self.transforms[i].duplicate());
            i = i + 1;
        }
        let r = Effects { transforms };
        proof {
            assert(r@ =~= self@);
        }
        r
    }

    /// Appends all transforms of `other` after those of `self`.
    pub fn append(&mut self, other: &Effects)
        ensures
            final(self)@ =~= old(self)@ + other@,
    {
        let mut i: usize = 0;
        while i < other.transforms.len()
            invariant
                i <= other.transforms.len(),
                self.transforms@.len() == old(self).transforms@.len() + i,
                forall|j: int|
                    0 <= j < old(self).transforms@.len() ==> self.transforms@[j]@ == old(self).transforms@[j]@,
                forall|j: int|
                    0 <= j < i ==> self.transforms@[old(self).transforms@.len() + j]@
                        == other.transforms@[j]@,
            decreases other.transforms.len() - i,
        {
            self.transforms.push(other.transforms[i].duplicate());
            i = i + 1;
        }
    }
}

} // verus!

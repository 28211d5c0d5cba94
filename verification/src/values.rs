//! Persistable values of global state.
//!
//! A `StoredValue` is a tagged union of all record kinds the engine writes.
//! Exactly one variant is valid per key tag; a mismatch is a type-mismatch
//! error, never a silent coercion.  Records holding vectors carry a spec-level
//! view (`ValueV`) over which all contracts are stated.

use vstd::prelude::*;

use crate::keys::{Addr, Key};
use crate::vec_util::clone_copy_vec;

verus! {

/// One associated key of an account or entity: a signer and its weight.
#[derive(Clone, Copy, PartialEq, Eq, Debug)]
pub struct AssociatedKey {
    pub account: Addr,
    pub weight: u8,
}

/// The signature-weight thresholds of an account or entity.
#[derive(Clone, Copy, PartialEq, Eq, Debug)]
pub struct ActionThresholds {
    pub deployment: u8,
    pub key_management: u8,
}

/// One named key: a name id bound to a key.
#[derive(Clone, Copy, PartialEq, Eq, Debug)]
pub struct NamedKeyEntry {
    pub name: u64,
    pub key: Key,
}

/// What an addressable entity stands for.
#[derive(Clone, Copy, PartialEq, Eq, Debug)]
pub enum EntityKind {
    Account(Addr),
    System(Addr),
    SmartContract,
}

/// One validator and its weight in a seigniorage snapshot.
#[derive(Clone, Copy, PartialEq, Eq, Debug)]
pub struct ValidatorWeight {
    pub validator: Addr,
    pub weight: u128,
}

/// A validator's bid in its current form.
#[derive(Clone, Copy, PartialEq, Eq, Debug)]
pub struct ValidatorBid {
    pub validator: Addr,
    pub stake: u128,
    /// Whether the validator was evicted: the stake stays, marked, never
    /// silently carried forward.
    pub inactive: bool,
}

/// A delegator's bid in its current form.
#[derive(Clone, Copy, PartialEq, Eq, Debug)]
pub struct DelegatorBid {
    pub validator: Addr,
    pub delegator: Addr,
    pub stake: u128,
}

/// A bid record in its current form.
#[derive(Clone, Copy, PartialEq, Eq, Debug)]
pub enum BidKind {
    Validator(ValidatorBid),
    Delegator(DelegatorBid),
}

/// The registry of system contract hashes.
#[derive(Clone, Copy, PartialEq, Eq, Debug)]
pub struct SystemContractRegistry {
    pub mint: Addr,
    pub auction: Addr,
    pub handle_payment: Addr,
    pub standard_payment: Option<Addr>,
}

/// The registry of block-level checksums.
#[derive(Clone, Copy, PartialEq, Eq, Debug)]
pub struct ChecksumRegistry {
    pub approvals_checksum: u64,
    pub execution_results_checksum: u64,
}

/// A reduced fraction of two 64-bit integers (the round seigniorage rate).
#[derive(Clone, Copy, PartialEq, Eq, Debug)]
pub struct Ratio64 {
    pub numer: u64,
    pub denom: u64,
}

/// A package record, reduced to what the engine reads of it.
#[derive(Clone, Copy, PartialEq, Eq, Debug)]
pub struct Package {
    pub access_uref: Addr,
    pub newest_entity: Addr,
    pub locked: bool,
}

/// A gas hold placed against a purse.
#[derive(Clone, Copy, PartialEq, Eq, Debug)]
pub struct BalanceHold {
    pub amount: u128,
    pub block_time: u64,
}

/// A legacy account record.
#[derive(Clone, PartialEq, Eq, Debug)]
pub struct Account {
    pub account_hash: Addr,
    pub main_purse: Addr,
    pub named_keys: Vec<NamedKeyEntry>,
    pub associated_keys: Vec<AssociatedKey>,
    pub action_thresholds: ActionThresholds,
}

/// The spec view of an `Account`.
#[verifier::ext_equal]
pub struct AccountV {
    pub account_hash: Addr,
    pub main_purse: Addr,
    pub named_keys: Seq<NamedKeyEntry>,
    pub associated_keys: Seq<AssociatedKey>,
    pub action_thresholds: ActionThresholds,
}

impl View for Account {
    type V = AccountV;

    open spec fn view(&self) -> AccountV {
        AccountV {
            account_hash: self.account_hash,
            main_purse: self.main_purse,
            named_keys: self.named_keys@,
            associated_keys: self.associated_keys@,
            action_thresholds: self.action_thresholds,
        }
    }
}

/// An account or contract's on-chain identity in its current form.
#[derive(Clone, PartialEq, Eq, Debug)]
pub struct AddressableEntity {
    pub package_hash: Addr,
    pub byte_code_hash: Addr,
    pub main_purse: Addr,
    pub associated_keys: Vec<AssociatedKey>,
    pub action_thresholds: ActionThresholds,
    pub kind: EntityKind,
}

/// The spec view of an `AddressableEntity`.
#[verifier::ext_equal]
pub struct AddressableEntityV {
    pub package_hash: Addr,
    pub byte_code_hash: Addr,
    pub main_purse: Addr,
    pub associated_keys: Seq<AssociatedKey>,
    pub action_thresholds: ActionThresholds,
    pub kind: EntityKind,
}

impl View for AddressableEntity {
    type V = AddressableEntityV;

    open spec fn view(&self) -> AddressableEntityV {
        AddressableEntityV {
            package_hash: self.package_hash,
            byte_code_hash: self.byte_code_hash,
            main_purse: self.main_purse,
            associated_keys: self.associated_keys@,
            action_thresholds: self.action_thresholds,
            kind: self.kind,
        }
    }
}

/// A legacy bid record: a validator's stake and its delegators.
#[derive(Clone, PartialEq, Eq, Debug)]
pub struct LegacyBid {
    pub validator: Addr,
    pub stake: u128,
    pub delegators: Vec<DelegatorBid>,
}

/// The spec view of a `LegacyBid`.
#[verifier::ext_equal]
pub struct LegacyBidV {
    pub validator: Addr,
    pub stake: u128,
    pub delegators: Seq<DelegatorBid>,
}

impl View for LegacyBid {
    type V = LegacyBidV;

    open spec fn view(&self) -> LegacyBidV {
        LegacyBidV {
            validator: self.validator,
            stake: self.stake,
            delegators: self.delegators@,
        }
    }
}

/// The receipt of one executed deploy: its cost and transfers, persisted win
/// or lose.
#[derive(Clone, PartialEq, Eq, Debug)]
pub struct DeployInfo {
    pub deploy_hash: Addr,
    pub from: Addr,
    pub source: Addr,
    pub gas: u128,
    pub transfers: Vec<Addr>,
}

/// The spec view of a `DeployInfo`.
#[verifier::ext_equal]
pub struct DeployInfoV {
    pub deploy_hash: Addr,
    pub from: Addr,
    pub source: Addr,
    pub gas: u128,
    pub transfers: Seq<Addr>,
}

impl View for DeployInfo {
    type V = DeployInfoV;

    open spec fn view(&self) -> DeployInfoV {
        DeployInfoV {
            deploy_hash: self.deploy_hash,
            from: self.from,
            source: self.source,
            gas: self.gas,
            transfers: self.transfers@,
        }
    }
}

/// The validator set of one era.
#[derive(Clone, PartialEq, Eq, Debug)]
pub struct EraValidators {
    pub era_id: u64,
    pub validators: Vec<ValidatorWeight>,
}

/// The spec view of an `EraValidators`.
#[verifier::ext_equal]
pub struct EraValidatorsV {
    pub era_id: u64,
    pub validators: Seq<ValidatorWeight>,
}

impl View for EraValidators {
    type V = EraValidatorsV;

    open spec fn view(&self) -> EraValidatorsV {
        EraValidatorsV { era_id: self.era_id, validators: self.validators@ }
    }
}

/// The seigniorage-recipients snapshot: the validator sets of the upcoming
/// eras, rotated by the auction at each era boundary.
#[derive(Clone, PartialEq, Eq, Debug)]
pub struct SeigniorageSnapshot {
    pub eras: Vec<EraValidators>,
}

/// The spec view of a `SeigniorageSnapshot`.
#[verifier::ext_equal]
pub struct SeigniorageSnapshotV {
    pub eras: Seq<EraValidatorsV>,
}

impl View for SeigniorageSnapshot {
    type V = SeigniorageSnapshotV;

    open spec fn view(&self) -> SeigniorageSnapshotV {
        SeigniorageSnapshotV { eras: Seq::new(self.eras@.len(), |i: int| self.eras@[i]@) }
    }
}

/// A persistable value of global state.
#[derive(Clone, PartialEq, Eq, Debug)]
pub enum StoredValue {
    /// A typed value holding unit.
    Unit,
    /// A typed value holding a 64-bit integer (validator slots and the like).
    U64(u64),
    /// A typed value holding an amount of motes (purse balances).
    Amount(u128),
    /// A typed value holding a key (the account-to-entity indirection).
    Key(Key),
    /// The round seigniorage rate.
    Ratio(Ratio64),
    /// A legacy account record.
    Account(Account),
    /// An addressable-entity record.
    Entity(AddressableEntity),
    /// A package record.
    Package(Package),
    /// A legacy bid record.
    Bid(LegacyBid),
    /// A bid record in its current form.
    BidKind(BidKind),
    /// A deploy receipt.
    DeployInfo(DeployInfo),
    /// The record of one era, reduced to its id.
    EraInfo(u64),
    /// A gas hold.
    Hold(BalanceHold),
    /// The system contract registry.
    Registry(SystemContractRegistry),
    /// The checksum registry.
    Checksums(ChecksumRegistry),
    /// A named key of an entity.
    NamedKey(NamedKeyEntry),
    /// The seigniorage snapshot.
    Snapshot(SeigniorageSnapshot),
}

/// The spec view of a `StoredValue`.
#[verifier::ext_equal]
pub enum ValueV {
    Unit,
    U64(u64),
    Amount(u128),
    Key(Key),
    Ratio(Ratio64),
    Account(AccountV),
    Entity(AddressableEntityV),
    Package(Package),
    Bid(LegacyBidV),
    BidKind(BidKind),
    DeployInfo(DeployInfoV),
    EraInfo(u64),
    Hold(BalanceHold),
    Registry(SystemContractRegistry),
    Checksums(ChecksumRegistry),
    NamedKey(NamedKeyEntry),
    Snapshot(SeigniorageSnapshotV),
}

impl View for StoredValue {
    type V = ValueV;

    open spec fn view(&self) -> ValueV {
        match self {
            StoredValue::Unit => ValueV::Unit,
            StoredValue::U64(x) => ValueV::U64(*x),
            StoredValue::Amount(x) => ValueV::Amount(*x),
            StoredValue::Key(k) => ValueV::Key(*k),
            StoredValue::Ratio(r) => ValueV::Ratio(*r),
            StoredValue::Account(a) => ValueV::Account(a@),
            StoredValue::Entity(e) => ValueV::Entity(e@),
            StoredValue::Package(p) => ValueV::Package(*p),
            StoredValue::Bid(b) => ValueV::Bid(b@),
            StoredValue::BidKind(b) => ValueV::BidKind(*b),
            StoredValue::DeployInfo(d) => ValueV::DeployInfo(d@),
            StoredValue::EraInfo(e) => ValueV::EraInfo(*e),
            StoredValue::Hold(h) => ValueV::Hold(*h),
            StoredValue::Registry(r) => ValueV::Registry(*r),
            StoredValue::Checksums(c) => ValueV::Checksums(*c),
            StoredValue::NamedKey(n) => ValueV::NamedKey(*n),
            StoredValue::Snapshot(s) => ValueV::Snapshot(s@),
        }
    }
}

impl Account {
    /// Copies the record, preserving its view.
    pub fn duplicate(&self) -> (r: Account)
        ensures
            r@ == self@,
    {
        let r = Account {
            account_hash: self.account_hash,
            main_purse: self.main_purse,
            named_keys: clone_copy_vec(&self.named_keys),
            associated_keys: clone_copy_vec(&self.associated_keys),
            action_thresholds: self.action_thresholds,
        };
        proof {
            assert(r@ =~= self@);
        }
        r
    }
}

impl AddressableEntity {
    /// Copies the record, preserving its view.
    pub fn duplicate(&self) -> (r: AddressableEntity)
        ensures
            r@ == self@,
    {
        let r = AddressableEntity {
            package_hash: self.package_hash,
            byte_code_hash: self.byte_code_hash,
            main_purse: self.main_purse,
            associated_keys: clone_copy_vec(&self.associated_keys),
            action_thresholds: self.action_thresholds,
            kind: self.kind,
        };
        proof {
            assert(r@ =~= self@);
        }
        r
    }
}

impl LegacyBid {
    /// Copies the record, preserving its view.
    pub fn duplicate(&self) -> (r: LegacyBid)
        ensures
            r@ == self@,
    {
        let r = LegacyBid {
            validator: self.validator,
            stake: self.stake,
            delegators: clone_copy_vec(&self.delegators),
        };
        proof {
            assert(r@ =~= self@);
        }
        r
    }
}

impl DeployInfo {
    /// Copies the record, preserving its view.
    pub fn duplicate(&self) -> (r: DeployInfo)
        ensures
            r@ == self@,
    {
        let r = DeployInfo {
            deploy_hash: self.deploy_hash,
            from: self.from,
            source: self.source,
            gas: self.gas,
            transfers: clone_copy_vec(&self.transfers),
        };
        proof {
            assert(r@ =~= self@);
        }
        r
    }
}

impl SeigniorageSnapshot {
    /// Copies the record, preserving its view.
    pub fn duplicate(&self) -> (r: SeigniorageSnapshot)
        ensures
            r@ == self@,
    {
        let mut eras: Vec<EraValidators> = Vec::new();
        let mut i: usize = 0;
        while i < self.eras.len()
            invariant
                i <= self.eras.len(),
                eras@.len() == i,
                forall|j: int| 0 <= j < i ==> eras@[j]@ == self.eras@[j]@,
            decreases self.eras.len() - i,
        {
            let era = EraValidators {
                era_id: self.eras[i].era_id,
                validators: clone_copy_vec(&self.eras[i].validators),
            };
            proof {
                assert(era@ =~= self.eras@[i as int]@);
            }
            eras.push(era);
            i = i + 1;
        }
        let r = SeigniorageSnapshot { eras };
        proof {
            assert(r@ =~= self@);
        }
        r
    }
}

impl StoredValue {
    /// Copies the value, preserving its view.
    pub fn duplicate(&self) -> (r: StoredValue)
        ensures
            r@ == self@,
    {
        match self {
            StoredValue::Unit => StoredValue::Unit,
            StoredValue::U64(x) => StoredValue::U64(*x),
            StoredValue::Amount(x) => StoredValue::Amount(*x),
            StoredValue::Key(k) => StoredValue::Key(*k),
            StoredValue::Ratio(r) => StoredValue::Ratio(*r),
            StoredValue::Account(a) => StoredValue::Account(a.duplicate()),
            StoredValue::Entity(e) => StoredValue::Entity(e.duplicate()),
            StoredValue::Package(p) => StoredValue::Package(*p),
            StoredValue::Bid(b) => StoredValue::Bid(b.duplicate()),
            StoredValue::BidKind(b) => StoredValue::BidKind(*b),
            StoredValue::DeployInfo(d) => StoredValue::DeployInfo(d.duplicate()),
            StoredValue::EraInfo(e) => StoredValue::EraInfo(*e),
            StoredValue::Hold(h) => StoredValue::Hold(*h),
            StoredValue::Registry(r) => StoredValue::Registry(*r),
            StoredValue::Checksums(c) => StoredValue::Checksums(*c),
            StoredValue::NamedKey(n) => StoredValue::NamedKey(*n),
            StoredValue::Snapshot(s) => StoredValue::Snapshot(s.duplicate()),
        }
    }
}

/// The total weight of the associated keys that appear in the authorizing
/// set.  Keys are weighed once each; an associated-keys list never repeats a
/// signer.
pub open spec fn spec_authorized_weight(keys: Seq<AssociatedKey>, auth: Seq<Addr>) -> int
    decreases keys.len(),
{
    if keys.len() == 0 {
        0
    } else {
        (if auth.contains(keys[0].account) {
            keys[0].weight as int
        } else {
            0
        }) + spec_authorized_weight(keys.drop_first(), auth)
    }
}

/// Whether `addr` is one of the associated keys.
pub open spec fn spec_is_associated(keys: Seq<AssociatedKey>, addr: Addr) -> bool {
    exists|j: int| 0 <= j < keys.len() && #[trigger] keys[j].account == addr
}

/// Whether every authorizing key is an associated key.
pub open spec fn spec_all_associated(keys: Seq<AssociatedKey>, auth: Seq<Addr>) -> bool {
    forall|i: int| 0 <= i < auth.len() ==> spec_is_associated(keys, #[trigger] auth[i])
}

/// Whether `addr` appears in `auth`.
fn vec_contains_addr(auth: &Vec<Addr>, addr: Addr) -> (r: bool)
    ensures
        r == auth@.contains(addr),
{
    let mut i: usize = 0;
    while i < auth.len()
        invariant
            i <= auth.len(),
            forall|j: int| 0 <= j < i ==> auth@[j] != addr,
        decreases auth.len() - i,
    {
        if auth[i] == addr {
            proof {
                assert(auth@[i as int] == addr);
            }
            return true;
        }
        i = i + 1;
    }
    proof {
        assert(forall|j: int| 0 <= j < auth@.len() ==> auth@[j] != addr);
    }
    false
}

/// Computes the total weight of the authorizing keys among `keys`.
fn authorized_weight(keys: &Vec<AssociatedKey>, auth: &Vec<Addr>) -> (r: u64)
    requires
        keys@.len() <= 255,
    ensures
        r == spec_authorized_weight(keys@, auth@),
{
    let mut total: u64 = 0;
    let mut i: usize = 0;
    proof {
        lemma_authorized_weight_bounds(keys@, auth@);
    }
    while i < keys.len()
        invariant
            i <= keys.len(),
            keys@.len() <= 255,
            total == spec_authorized_weight(keys@.subrange(0, i as int), auth@),
            total <= i * 255,
        decreases keys.len() - i,
    {
        proof {
            lemma_authorized_weight_snoc(keys@.subrange(0, i as int + 1), auth@);
            assert(keys@.subrange(0, i as int + 1).drop_last() =~= keys@.subrange(0, i as int));
            assert(keys@.subrange(0, i as int + 1).last() == keys@[i as int]);
        }
        if vec_contains_addr(auth, keys[i].account) {
            total = total + keys[i].weight as u64;
        }
        i = i + 1;
    }
    proof {
        assert(keys@.subrange(0, keys@.len() as int) =~= keys@);
    }
    total
}

/// Splitting off the last key splits the sum.
proof fn lemma_authorized_weight_snoc(keys: Seq<AssociatedKey>, auth: Seq<Addr>)
    requires
        keys.len() > 0,
    ensures
        spec_authorized_weight(keys, auth) == spec_authorized_weight(keys.drop_last(), auth) + (
        if auth.contains(keys.last().account) {
            keys.last().weight as int
        } else {
            0
        }),
    decreases keys.len(),
{
    if keys.len() == 1 {
        assert(keys.drop_first() =~= Seq::<AssociatedKey>::empty());
        assert(keys.drop_last() =~= Seq::<AssociatedKey>::empty());
    } else {
        lemma_authorized_weight_snoc(keys.drop_first(), auth);
        assert(keys.drop_first().drop_last() =~= keys.drop_last().drop_first());
        assert(keys.drop_first().last() == keys.last());
    }
}

/// The authorized weight is at most 255 per key.
proof fn lemma_authorized_weight_bounds(keys: Seq<AssociatedKey>, auth: Seq<Addr>)
    ensures
        0 <= spec_authorized_weight(keys, auth) <= keys.len() * 255,
    decreases keys.len(),
{
    if keys.len() > 0 {
        lemma_authorized_weight_bounds(keys.drop_first(), auth);
    }
}

impl AddressableEntity {
    /// Whether every authorizing key is an associated key of this entity,
    /// and at least one authorizing key was given.
    pub fn can_authorize(&self, auth: &Vec<Addr>) -> (r: bool)
        ensures
            r == (auth@.len() > 0 && spec_all_associated(self.associated_keys@, auth@)),
    {
        if auth.len() == 0 {
            return false;
        }
        let mut i: usize = 0;
        while i < auth.len()
            invariant
                i <= auth.len(),
                forall|ii: int|
                    0 <= ii < i ==> spec_is_associated(self.associated_keys@, #[trigger] auth@[ii]),
            decreases auth.len() - i,
        {
            let mut j: usize = 0;
            let mut found = false;
            while j < self.associated_keys.len()
                invariant
                    i < auth.len(),
                    j <= self.associated_keys.len(),
                    found ==> spec_is_associated(self.associated_keys@, auth@[i as int]),
                    !found ==> forall|jj: int|
                        0 <= jj < j ==> self.associated_keys@[jj].account != auth@[i as int],
                decreases self.associated_keys.len() - j,
            {
                if self.associated_keys[j].account == auth[i] {
                    found = true;
                }
                j = j + 1;
            }
            if !found {
                proof {
                    assert(!spec_is_associated(self.associated_keys@, auth@[i as int]));
                }
                return false;
            }
            i = i + 1;
        }
        true
    }

    /// Whether the total weight of the authorizing keys meets the deployment
    /// threshold.
    pub fn can_deploy_with(&self, auth: &Vec<Addr>) -> (r: bool)
        requires
            self.associated_keys@.len() <= 255,
        ensures
            r == (spec_authorized_weight(self.associated_keys@, auth@)
                >= self.action_thresholds.deployment as int),
    {
        let total = authorized_weight(&self.associated_keys, auth);
        total >= self.action_thresholds.deployment as u64
    }
}

} // verus!

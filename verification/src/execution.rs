//! The per-transaction pipeline: preflight (migration and authorization),
//! the payment, session and finalization stages, and the wasmless-transfer
//! fast path.

use vstd::prelude::*;

use crate::amounts::{Gas, Motes};
use crate::config::{FeeHandling, MAX_PAYMENT_AMOUNT};
use crate::effects::Effects;
use crate::engine_state::{EngineState, ACCUMULATION_PURSE_NAME, PAYMENT_PURSE_NAME};
use crate::handle_payment::finalize_payment;
use crate::keys::{Addr, Key};
use crate::mint;
use crate::result::{Error, ExecError, ExecutionResult, ExecutionResultBuilder};
use crate::tracking_copy::TrackingCopy;
use crate::values::{
    ActionThresholds, AddressableEntity, AssociatedKey, DeployInfo, EntityKind, Package,
    StoredValue, ValueV,
};

verus! {

/// The gas consumed by the built-in standard payment.
pub const STANDARD_PAYMENT_GAS: u64 = 10_000;

/// The address a generator yields at the given step.
pub open spec fn spec_gen_addr(seed: u64, counter: u64) -> u64 {
    vstd::wrapping::u64_specs::wrapping_mul(
        vstd::wrapping::u64_specs::wrapping_add(seed, counter),
        0x9E37_79B9_7F4A_7C15,
    )
}

/// A deterministic generator of fresh addresses, seeded per execution.
pub struct AddressGenerator {
    pub seed: Addr,
    pub counter: u64,
}

impl AddressGenerator {
    /// A generator seeded from a deploy hash.
    pub fn new(seed: Addr) -> (r: AddressGenerator)
        ensures
            r.seed == seed,
            r.counter == 0,
    {
        AddressGenerator { seed, counter: 0 }
    }

    /// The next fresh address.
    pub fn new_hash_address(&mut self) -> (r: Addr)
        ensures
            r == spec_gen_addr(old(self).seed, old(self).counter),
            final(self).seed == old(self).seed,
            final(self).counter == vstd::wrapping::u64_specs::wrapping_add(
                old(self).counter,
                1,
            ),
    {
        let r = self.seed.wrapping_add(self.counter).wrapping_mul(0x9E37_79B9_7F4A_7C15);
        self.counter = self.counter.wrapping_add(1);
        r
    }
}

/// The target of a native transfer.
#[derive(Clone, Copy, PartialEq, Eq, Debug)]
pub enum TransferTarget {
    /// An account, looked up — and created if absent.
    AccountHash(Addr),
    /// An existing purse.
    Purse(Addr),
}

/// The arguments of a native transfer.
#[derive(Clone, Copy, PartialEq, Eq, Debug)]
pub struct TransferArgs {
    pub source: Option<Addr>,
    pub target: TransferTarget,
    pub amount: u128,
    pub id: Option<u64>,
}

/// What an opaque session or payment execution came back with: consumed gas
/// and either an error or a set of writes to apply.  The executor itself is
/// an external collaborator; the engine validates and applies its outcome.
#[derive(Clone, PartialEq, Eq, Debug)]
pub struct WasmOutcome {
    pub consumed: u128,
    pub error: Option<ExecError>,
    pub writes: Vec<(Key, StoredValue)>,
}

/// The payment half of a deploy.
#[derive(Clone, PartialEq, Eq, Debug)]
pub struct PaymentItem {
    /// Standard payment moves `amount` into the payment purse natively;
    /// custom payment runs bytecode whose outcome stands here.
    pub standard: bool,
    pub amount: u128,
    pub outcome: Option<WasmOutcome>,
}

/// One deploy as handed to the engine.
#[derive(Clone, PartialEq, Eq, Debug)]
pub struct DeployItem {
    pub address: Addr,
    pub deploy_hash: Addr,
    pub authorization_keys: Vec<Addr>,
    pub gas_price: u64,
    pub payment: PaymentItem,
    pub session_outcome: WasmOutcome,
}

/// The purse a transfer target resolves to through a tracking copy.
pub open spec fn spec_target_purse_of(tc: TrackingCopy, t: TransferTarget) -> Option<Addr> {
    match t {
        TransferTarget::Purse(p) => Some(p),
        TransferTarget::AccountHash(a) => match tc.spec_read(Key::Account(a)) {
            Some(ValueV::Account(acct)) => Some(acct.main_purse),
            Some(ValueV::Key(k)) => match tc.spec_read(k) {
                Some(ValueV::Entity(e)) => Some(e.main_purse),
                _ => None,
            },
            _ => None,
        },
    }
}

/// The purse a transfer target resolves to in `m`, where it exists.
pub open spec fn spec_target_purse(m: Map<Key, ValueV>, t: TransferTarget) -> Option<Addr> {
    match t {
        TransferTarget::Purse(p) => Some(p),
        TransferTarget::AccountHash(a) => spec_main_purse(m, a),
    }
}

/// The registry of system contracts in `m`, where present.
pub open spec fn spec_registry(m: Map<Key, ValueV>) -> Option<
    crate::values::SystemContractRegistry,
> {
    if m.contains_key(Key::SystemContractRegistry) {
        match m[Key::SystemContractRegistry] {
            ValueV::Registry(reg) => Some(reg),
            _ => None,
        }
    } else {
        None
    }
}

/// The payment purse in `m`: handle payment's named key.
pub open spec fn spec_payment_purse(m: Map<Key, ValueV>) -> Option<Addr> {
    match spec_registry(m) {
        Some(reg) => if m.contains_key(Key::NamedKey(reg.handle_payment, PAYMENT_PURSE_NAME)) {
            match m[Key::NamedKey(reg.handle_payment, PAYMENT_PURSE_NAME)] {
                ValueV::NamedKey(nk) => match nk.key {
                    Key::Uref(p) => Some(p),
                    _ => None,
                },
                _ => None,
            }
        } else {
            None
        },
        None => None,
    }
}

/// The plain shape of a wasmless transfer, in which its money flow is pinned
/// exactly: the payer is already migrated and pays from its main purse, the
/// target resolves in the pre-state, all purses involved are pairwise
/// distinct with well-formed balances, the payment purse starts empty, and
/// fees go to the proposer's distinct main purse.  Yields
/// (payer purse, target purse, payer balance, target balance, proposer
/// purse, proposer balance).
pub open spec fn spec_plain_transfer(
    m: Map<Key, ValueV>,
    fee_handling: FeeHandling,
    address: Addr,
    args: TransferArgs,
    proposer: Addr,
    cost: u128,
) -> Option<(Addr, Addr, u128, u128, Addr, u128)> {
    if ({
        &&& fee_handling == FeeHandling::PayToProposer
        &&& spec_account_record(m, address) matches Some(ValueV::Key(_))
        &&& spec_main_purse(m, address) is Some
        &&& args.source is None
        &&& spec_target_purse(m, args.target) is Some
        &&& spec_payment_purse(m) is Some
        &&& spec_account_record(m, proposer) matches Some(ValueV::Key(_))
        &&& spec_main_purse(m, proposer) is Some
        &&& spec_balance(m, spec_main_purse(m, address).unwrap()) is Some
        &&& spec_balance(m, spec_target_purse(m, args.target).unwrap()) is Some
        &&& spec_balance(m, spec_payment_purse(m).unwrap()) == Some(0u128)
        &&& spec_balance(m, spec_main_purse(m, proposer).unwrap()) is Some
        &&& spec_main_purse(m, address).unwrap() != spec_target_purse(m, args.target).unwrap()
        &&& spec_main_purse(m, address).unwrap() != spec_payment_purse(m).unwrap()
        &&& spec_main_purse(m, address).unwrap() != spec_main_purse(m, proposer).unwrap()
        &&& spec_target_purse(m, args.target).unwrap() != spec_payment_purse(m).unwrap()
        &&& spec_target_purse(m, args.target).unwrap() != spec_main_purse(m, proposer).unwrap()
        &&& spec_payment_purse(m).unwrap() != spec_main_purse(m, proposer).unwrap()
        &&& spec_balance(m, spec_target_purse(m, args.target).unwrap()).unwrap() + args.amount
            <= u128::MAX
        &&& spec_balance(m, spec_main_purse(m, proposer).unwrap()).unwrap() + cost <= u128::MAX
    }) {
        Some(
            (
                spec_main_purse(m, address).unwrap(),
                spec_target_purse(m, args.target).unwrap(),
                spec_balance(m, spec_main_purse(m, address).unwrap()).unwrap(),
                spec_balance(m, spec_target_purse(m, args.target).unwrap()).unwrap(),
                spec_main_purse(m, proposer).unwrap(),
                spec_balance(m, spec_main_purse(m, proposer).unwrap()).unwrap(),
            ),
        )
    } else {
        None
    }
}

/// The record under the account key of `a`.
pub open spec fn spec_account_record(m: Map<Key, ValueV>, a: Addr) -> Option<ValueV> {
    if m.contains_key(Key::Account(a)) {
        Some(m[Key::Account(a)])
    } else {
        None
    }
}

/// The main purse of account `a` in `m`, whether the record is still a
/// legacy account or already an entity indirection.
pub open spec fn spec_main_purse(m: Map<Key, ValueV>, a: Addr) -> Option<Addr> {
    match spec_account_record(m, a) {
        Some(ValueV::Account(acct)) => Some(acct.main_purse),
        Some(ValueV::Key(k)) => if m.contains_key(k) {
            match m[k] {
                ValueV::Entity(e) => Some(e.main_purse),
                _ => None,
            }
        } else {
            None
        },
        _ => None,
    }
}

/// The balance of purse `p` in `m`, where its record is present and valid.
pub open spec fn spec_balance(m: Map<Key, ValueV>, p: Addr) -> Option<u128> {
    if m.contains_key(Key::Balance(p)) {
        match m[Key::Balance(p)] {
            ValueV::Amount(x) => Some(x),
            _ => None,
        }
    } else {
        None
    }
}

/// The entity view an account record resolves to in `m`, where migrated.
pub open spec fn spec_entity_record(m: Map<Key, ValueV>, a: Addr) -> Option<
    crate::values::AddressableEntityV,
> {
    match spec_account_record(m, a) {
        Some(ValueV::Key(k)) => if m.contains_key(k) {
            match m[k] {
                ValueV::Entity(e) => Some(e),
                _ => None,
            }
        } else {
            None
        },
        _ => None,
    }
}

/// Whether the authorizing set carries an administrative account.
pub open spec fn spec_has_admin(admins: Seq<Addr>, auth: Seq<Addr>) -> bool {
    exists|i: int| 0 <= i < auth.len() && admins.contains(#[trigger] auth[i])
}

/// The entity view an account record resolves to through a tracking copy,
/// where already migrated.
pub open spec fn spec_entity_of(tc: TrackingCopy, a: Addr) -> Option<
    crate::values::AddressableEntityV,
> {
    match tc.spec_read(Key::Account(a)) {
        Some(ValueV::Key(k)) => match tc.spec_read(k) {
            Some(ValueV::Entity(e)) => Some(e),
            _ => None,
        },
        _ => None,
    }
}

/// Whether `auth` may deploy for the entity without administrator bypass:
/// keys were given, each is associated, the associated-keys list fits the
/// weight computation, and the summed weight meets the deployment
/// threshold.
pub open spec fn spec_authorized_for_deploy(
    e: crate::values::AddressableEntityV,
    auth: Seq<Addr>,
) -> bool {
    &&& auth.len() > 0
    &&& crate::values::spec_all_associated(e.associated_keys, auth)
    &&& e.associated_keys.len() <= 255
    &&& crate::values::spec_authorized_weight(e.associated_keys, auth)
        >= e.action_thresholds.deployment as int
}

/// The shape of a wasmless transfer to an account that does not exist yet:
/// as the plain shape, except that the target account is absent and its
/// purse and entity will be created at the generator's first two addresses,
/// clear of the three fee purses.  Yields (payer purse, payer balance,
/// proposer purse, proposer balance).
pub open spec fn spec_create_transfer(
    m: Map<Key, ValueV>,
    fee_handling: FeeHandling,
    address: Addr,
    args: TransferArgs,
    proposer: Addr,
    cost: u128,
    deploy_hash: Addr,
) -> Option<(Addr, u128, Addr, u128)> {
    if ({
        &&& fee_handling == FeeHandling::PayToProposer
        &&& spec_account_record(m, address) matches Some(ValueV::Key(_))
        &&& spec_main_purse(m, address) is Some
        &&& args.source is None
        &&& (match args.target {
            TransferTarget::AccountHash(a) => !m.contains_key(Key::Account(a)),
            _ => false,
        })
        &&& spec_payment_purse(m) is Some
        &&& spec_account_record(m, proposer) matches Some(ValueV::Key(_))
        &&& spec_main_purse(m, proposer) is Some
        &&& spec_balance(m, spec_main_purse(m, address).unwrap()) is Some
        &&& spec_balance(m, spec_payment_purse(m).unwrap()) == Some(0u128)
        &&& spec_balance(m, spec_main_purse(m, proposer).unwrap()) is Some
        &&& spec_main_purse(m, address).unwrap() != spec_payment_purse(m).unwrap()
        &&& spec_main_purse(m, address).unwrap() != spec_main_purse(m, proposer).unwrap()
        &&& spec_payment_purse(m).unwrap() != spec_main_purse(m, proposer).unwrap()
        &&& spec_gen_addr(deploy_hash, 0) != spec_main_purse(m, address).unwrap()
        &&& spec_gen_addr(deploy_hash, 0) != spec_payment_purse(m).unwrap()
        &&& spec_gen_addr(deploy_hash, 0) != spec_main_purse(m, proposer).unwrap()
        &&& spec_balance(m, spec_main_purse(m, proposer).unwrap()).unwrap() + cost <= u128::MAX
    }) {
        Some(
            (
                spec_main_purse(m, address).unwrap(),
                spec_balance(m, spec_main_purse(m, address).unwrap()).unwrap(),
                spec_main_purse(m, proposer).unwrap(),
                spec_balance(m, spec_main_purse(m, proposer).unwrap()).unwrap(),
            ),
        )
    } else {
        None
    }
}

/// The plain shape of a standard-payment deploy, in which its outcome is
/// pinned exactly: the payer is migrated, system purses resolve, all three
/// purses are pairwise distinct with well-formed balances — the payment
/// purse empty — the payer holds the full collateral and the deposit, the
/// deposit covers the standard payment cost at the offered price, and the
/// proposer can absorb it.
pub open spec fn spec_plain_deploy(
    m: Map<Key, ValueV>,
    fee_handling: FeeHandling,
    address: Addr,
    payment_amount: u128,
    gas_price: u64,
    proposer: Addr,
) -> bool {
    &&& fee_handling == FeeHandling::PayToProposer
    &&& spec_entity_record(m, address) is Some
    &&& spec_main_purse(m, address) is Some
    &&& spec_payment_purse(m) is Some
    &&& spec_entity_record(m, proposer) is Some
    &&& spec_main_purse(m, proposer) is Some
    &&& spec_balance(m, spec_main_purse(m, address).unwrap()) is Some
    &&& spec_balance(m, spec_payment_purse(m).unwrap()) == Some(0u128)
    &&& spec_balance(m, spec_main_purse(m, proposer).unwrap()) is Some
    &&& spec_main_purse(m, address).unwrap() != spec_payment_purse(m).unwrap()
    &&& spec_main_purse(m, address).unwrap() != spec_main_purse(m, proposer).unwrap()
    &&& spec_payment_purse(m).unwrap() != spec_main_purse(m, proposer).unwrap()
    &&& spec_balance(m, spec_main_purse(m, address).unwrap()).unwrap() >= MAX_PAYMENT_AMOUNT
        as u128
    &&& spec_balance(m, spec_main_purse(m, address).unwrap()).unwrap() >= payment_amount
    &&& gas_price >= 1
    &&& payment_amount >= STANDARD_PAYMENT_GAS as u128 * gas_price as u128
    &&& spec_balance(m, spec_main_purse(m, proposer).unwrap()).unwrap() + payment_amount
        <= u128::MAX
}

/// Whether `m2` agrees with `m` on every key outside the exceptions: the
/// frame of an execution whose effects are confined to the listed keys.
pub open spec fn spec_untouched_except(
    m: Map<Key, ValueV>,
    m2: Map<Key, ValueV>,
    ex: Seq<Key>,
) -> bool {
    forall|k: Key|
        !ex.contains(k) ==> ((#[trigger] m2.contains_key(k)) == m.contains_key(k) && (
        m.contains_key(k) ==> m2[k] == m[k]))
}

/// Whether the session outcome's writes keep clear of the three fee purses,
/// so that settlement is unaffected by session effects.
pub open spec fn spec_writes_spare_purses(
    writes: Seq<(Key, StoredValue)>,
    payer: Addr,
    payment: Addr,
    proposer: Addr,
) -> bool {
    forall|i: int|
        0 <= i < writes.len() ==> ({
            &&& (#[trigger] writes[i]).0 != Key::Balance(payer)
            &&& writes[i].0 != Key::Balance(payment)
            &&& writes[i].0 != Key::Balance(proposer)
        })
}

impl EngineState {
    /// Migrates a legacy account record to the entity representation the
    /// first time it is touched: idempotent, a no-op once migrated.  The
    /// entity keeps the account's main purse, associated keys and
    /// thresholds.  A missing or malformed account record is an
    /// authorization error.
    pub fn migrate_account(
        &self,
        tc: &mut TrackingCopy,
        account_hash: Addr,
        generator: &mut AddressGenerator,
    ) -> (r: Result<(), Error>)
        requires
            old(tc).wf(),
        ensures
            final(tc).wf(),
            final(tc).reader_map() == old(tc).reader_map(),
            final(tc).spec_max_query_depth() == old(tc).spec_max_query_depth(),
            r is Ok ==> ({
                &&& final(tc).spec_read(Key::Account(account_hash)) matches Some(ValueV::Key(ek))
                &&& final(tc).spec_read(ek) matches Some(ValueV::Entity(e))
                &&& (match old(tc).spec_read(Key::Account(account_hash)) {
                    Some(ValueV::Account(acct)) => e.main_purse == acct.main_purse
                        && e.associated_keys == acct.associated_keys && e.action_thresholds
                        == acct.action_thresholds,
                    _ => true,
                })
            }),
            r is Err ==> r == Err::<(), Error>(Error::Authorization),
            spec_entity_of(*old(tc), account_hash) is Some ==> (r is Ok && *final(tc) == *old(tc)),
            old(tc).spec_read(Key::Account(account_hash)) matches Some(ValueV::Account(_)) ==> r
                is Ok,
            (r is Ok && old(tc).spec_read(Key::Account(account_hash)) matches Some(ValueV::Key(_)))
                ==> *final(tc) == *old(tc),
            (old(tc).spec_read(Key::Account(account_hash)) matches Some(ValueV::Key(_)))
                ==> *final(generator) == *old(generator),
            forall|p: Addr| #[trigger]
                final(tc).spec_read(Key::Balance(p)) == old(tc).spec_read(Key::Balance(p)),
            (r is Ok && old(tc).spec_read(Key::Account(account_hash)) matches Some(
                ValueV::Account(_),
            )) ==> ({
                &&& final(tc).spec_read(Key::Account(account_hash)) matches Some(
                    ValueV::Key(Key::Entity(ea)),
                )
                &&& final(tc).spec_read(Key::Entity(ea)) matches Some(ValueV::Entity(e))
                &&& final(tc).spec_read(Key::Package(e.package_hash)) matches Some(
                    ValueV::Package(p),
                )
                &&& p.newest_entity == ea
            }),
    {
        let record = tc.read(Key::Account(account_hash));
        match record {
            Some(StoredValue::Key(ek)) => {
                match tc.read(ek) {
                    Some(StoredValue::Entity(_)) => Ok(()),
                    _ => Err(Error::Authorization),
                }
            },
            Some(StoredValue::Account(account)) => {
                let entity_addr = generator.new_hash_address();
                let package_addr = generator.new_hash_address();
                let entity = AddressableEntity {
                    package_hash: package_addr,
                    byte_code_hash: 0,
                    main_purse: account.main_purse,
                    associated_keys: crate::vec_util::clone_copy_vec(&account.associated_keys),
                    action_thresholds: account.action_thresholds,
                    kind: EntityKind::Account(account_hash),
                };
                let ghost ev = entity@;
                let entity_key = Key::Entity(entity_addr);
                let mut i: usize = 0;
                while i < account.named_keys.len()
                    invariant
                        tc.wf(),
                        tc.reader_map() == old(tc).reader_map(),
                        tc.spec_max_query_depth() == old(tc).spec_max_query_depth(),
                        forall|p: Addr| #[trigger]
                            tc.spec_read(Key::Balance(p)) == old(tc).spec_read(Key::Balance(p)),
                    decreases account.named_keys.len() - i,
                {
                    let nk = account.named_keys[i];
                    tc.write(Key::NamedKey(entity_addr, nk.name), StoredValue::NamedKey(nk));
                    i = i + 1;
                }
                tc.write(entity_key, StoredValue::Entity(entity));
                tc.write(
                    Key::Package(package_addr),
                    StoredValue::Package(
                        Package { access_uref: 0, newest_entity: entity_addr, locked: true },
                    ),
                );
                tc.write(Key::Account(account_hash), StoredValue::Key(entity_key));
                proof {
                    assert(tc.spec_read(Key::Account(account_hash)) == Some(
                        ValueV::Key(entity_key),
                    ));
                    assert(tc.spec_read(entity_key) == Some(ValueV::Entity(ev)));
                    assert(ev.main_purse == account.main_purse);
                    assert(ev.associated_keys =~= account.associated_keys@);
                }
                Ok(())
            },
            _ => Err(Error::Authorization),
        }
    }

    /// Reads the migrated entity of `account_hash` and checks that the
    /// authorization keys are associated and together meet the deployment
    /// threshold — administrators bypass both checks.
    pub fn get_authorized_addressable_entity(
        &self,
        tc: &TrackingCopy,
        account_hash: Addr,
        authorization_keys: &Vec<Addr>,
    ) -> (r: Result<AddressableEntity, Error>)
        requires
            tc.wf(),
        ensures
            r matches Ok(e) ==> (spec_entity_of(*tc, account_hash) matches Some(ev) && e@ == ev),
            (match spec_entity_of(*tc, account_hash) {
                Some(ev) => ({
                    let admins = self.config@.administrative_accounts;
                    let auth = authorization_keys@;
                    &&& ((spec_has_admin(admins, auth) || spec_authorized_for_deploy(ev, auth))
                        ==> r is Ok)
                    &&& ((!spec_has_admin(admins, auth) && !(auth.len() > 0
                        && crate::values::spec_all_associated(ev.associated_keys, auth))) ==> r
                        == Err::<AddressableEntity, Error>(Error::Authorization))
                    &&& ((!spec_has_admin(admins, auth) && auth.len() > 0
                        && crate::values::spec_all_associated(ev.associated_keys, auth)
                        && ev.associated_keys.len() > 255) ==> r == Err::<
                        AddressableEntity,
                        Error,
                    >(Error::Authorization))
                    &&& ((!spec_has_admin(admins, auth) && auth.len() > 0
                        && crate::values::spec_all_associated(ev.associated_keys, auth)
                        && ev.associated_keys.len() <= 255
                        && crate::values::spec_authorized_weight(ev.associated_keys, auth)
                        < ev.action_thresholds.deployment as int) ==> r == Err::<
                        AddressableEntity,
                        Error,
                    >(Error::Exec(ExecError::DeploymentAuthorizationFailure)))
                }),
                None => r == Err::<AddressableEntity, Error>(
                    Error::MissingContractByAccountHash(account_hash),
                ),
            }),
    {
        let entity_key = match tc.read(Key::Account(account_hash)) {
            Some(StoredValue::Key(k)) => k,
            _ => {
                return Err(Error::MissingContractByAccountHash(account_hash));
            },
        };
        let entity = match tc.read(entity_key) {
            Some(StoredValue::Entity(e)) => e,
            _ => {
                return Err(Error::MissingContractByAccountHash(account_hash));
            },
        };
        let mut i: usize = 0;
        let mut has_admin = false;
        while i < authorization_keys.len()
            invariant
                i <= authorization_keys.len(),
                has_admin ==> spec_has_admin(
                    self.config@.administrative_accounts,
                    authorization_keys@,
                ),
                !has_admin ==> forall|j: int|
                    0 <= j < i ==> !self.config@.administrative_accounts.contains(
                        #[trigger] authorization_keys@[j],
                    ),
            decreases authorization_keys.len() - i,
        {
            if self.config.is_administrator(authorization_keys[i]) {
                proof {
                    assert(self.config@.administrative_accounts.contains(
                        authorization_keys@[i as int],
                    ));
                }
                has_admin = true;
            }
            i = i + 1;
        }
        proof {
            if !has_admin {
                assert(!spec_has_admin(
                    self.config@.administrative_accounts,
                    authorization_keys@,
                ));
            }
        }
        if has_admin {
            return Ok(entity);
        }
        if !entity.can_authorize(authorization_keys) {
            return Err(Error::Authorization);
        }
        if entity.associated_keys.len() > 255 {
            return Err(Error::Authorization);
        }
        if !entity.can_deploy_with(authorization_keys) {
            return Err(Error::Exec(ExecError::DeploymentAuthorizationFailure));
        }
        Ok(entity)
    }

    /// The purse that collects this execution's fee, per the configured fee
    /// handling: the proposer's main purse, the shared accumulation purse,
    /// or nothing at all when fees burn.
    pub fn get_rewards_purse(&self, tc: &TrackingCopy, proposer: Addr) -> (r: Result<
        Option<Addr>,
        Error,
    >)
        requires
            tc.wf(),
        ensures
            self.config.fee_handling == FeeHandling::Burn ==> r == Ok::<Option<Addr>, Error>(
                None,
            ),
            r matches Ok(Some(_)) ==> self.config.fee_handling != FeeHandling::Burn,
            (self.config.fee_handling == FeeHandling::PayToProposer || self.config.fee_handling
                == FeeHandling::NoFee) ==> !(r == Ok::<Option<Addr>, Error>(None)),
            r matches Ok(Some(rp)) ==> ((self.config.fee_handling == FeeHandling::PayToProposer
                || self.config.fee_handling == FeeHandling::NoFee) ==> (match tc.spec_read(
                Key::Account(proposer),
            ) {
                Some(ValueV::Key(ek)) => (tc.spec_read(ek) matches Some(ValueV::Entity(e))
                    && e.main_purse == rp),
                Some(ValueV::Account(a)) => a.main_purse == rp,
                _ => false,
            })),
            ((self.config.fee_handling == FeeHandling::PayToProposer || self.config.fee_handling
                == FeeHandling::NoFee) && spec_entity_of(*tc, proposer) is Some) ==> r is Ok,
    {
        match self.config.fee_handling {
            FeeHandling::PayToProposer | FeeHandling::NoFee => {
                match tc.read(Key::Account(proposer)) {
                    Some(StoredValue::Key(ek)) => match tc.read(ek) {
                        Some(StoredValue::Entity(e)) => Ok(Some(e.main_purse)),
                        _ => Err(Error::MissingContractByAccountHash(proposer)),
                    },
                    Some(StoredValue::Account(a)) => Ok(Some(a.main_purse)),
                    _ => Err(Error::MissingContractByAccountHash(proposer)),
                }
            },
            FeeHandling::Accumulate => {
                let hp = match self.registry_of(tc) {
                    Ok(reg) => reg.handle_payment,
                    Err(e) => {
                        return Err(e);
                    },
                };
                match tc.read(Key::NamedKey(hp, ACCUMULATION_PURSE_NAME)) {
                    Some(StoredValue::NamedKey(nk)) => match nk.key {
                        Key::Uref(p) => Ok(Some(p)),
                        _ => Err(Error::FailedToRetrieveAccumulationPurse),
                    },
                    _ => Err(Error::FailedToRetrieveAccumulationPurse),
                }
            },
            FeeHandling::Burn => Ok(None),
        }
    }

    /// Reads the system contract registry through the tracking copy.
    fn registry_of(&self, tc: &TrackingCopy) -> (r: Result<
        crate::values::SystemContractRegistry,
        Error,
    >)
        requires
            tc.wf(),
        ensures
            r matches Ok(reg) ==> tc.spec_read(Key::SystemContractRegistry) == Some(
                ValueV::Registry(reg),
            ),
            (tc.spec_read(Key::SystemContractRegistry) matches Some(ValueV::Registry(_))) ==> r
                is Ok,
    {
        match tc.read(Key::SystemContractRegistry) {
            Some(StoredValue::Registry(reg)) => Ok(reg),
            _ => Err(Error::MissingSystemContractRegistry),
        }
    }

    /// Resolves the target of a transfer to a purse, creating the target
    /// account — with an empty main purse — where it does not exist yet.
    fn resolve_target_purse(
        &self,
        tc: &mut TrackingCopy,
        target: TransferTarget,
        generator: &mut AddressGenerator,
    ) -> (r: Result<Addr, Error>)
        requires
            old(tc).wf(),
        ensures
            final(tc).wf(),
            final(tc).reader_map() == old(tc).reader_map(),
            final(tc).spec_max_query_depth() == old(tc).spec_max_query_depth(),
            spec_target_purse_of(*old(tc), target) matches Some(p) ==> (r == Ok::<Addr, Error>(p)
                && *final(tc) == *old(tc)),
            (match target {
                TransferTarget::AccountHash(a) => old(tc).spec_read(Key::Account(a)) is None
                    ==> ({
                    let p = spec_gen_addr(old(generator).seed, old(generator).counter);
                    let e = spec_gen_addr(
                        old(generator).seed,
                        vstd::wrapping::u64_specs::wrapping_add(old(generator).counter, 1),
                    );
                    &&& r == Ok::<Addr, Error>(p)
                    &&& final(tc).spec_read(Key::Balance(p)) == Some(ValueV::Amount(0))
                    &&& final(tc).spec_read(Key::Account(a)) == Some(ValueV::Key(Key::Entity(e)))
                    &&& (final(tc).spec_read(Key::Entity(e)) matches Some(ValueV::Entity(env))
                        && env.main_purse == p)
                    &&& forall|k: Key|
                        (k != Key::Balance(p) && k != Key::Account(a) && k != Key::Entity(e))
                            ==> final(tc).spec_read(k) == old(tc).spec_read(k)
                }),
                _ => true,
            }),
    {
        match target {
            TransferTarget::Purse(p) => Ok(p),
            TransferTarget::AccountHash(a) => {
                match tc.read(Key::Account(a)) {
                    Some(StoredValue::Key(ek)) => {
                        match tc.read(ek) {
                            Some(StoredValue::Entity(e)) => Ok(e.main_purse),
                            _ => Err(Error::MissingContractByAccountHash(a)),
                        }
                    },
                    Some(StoredValue::Account(acct)) => Ok(acct.main_purse),
                    Some(_) => Err(Error::Authorization),
                    None => {
                        let purse = generator.new_hash_address();
                        let entity_addr = generator.new_hash_address();
                        tc.write(Key::Balance(purse), StoredValue::Amount(0));
                        let entity = AddressableEntity {
                            package_hash: 0,
                            byte_code_hash: 0,
                            main_purse: purse,
                            associated_keys: vec![AssociatedKey { account: a, weight: 1 }],
                            action_thresholds: ActionThresholds {
                                deployment: 1,
                                key_management: 1,
                            },
                            kind: EntityKind::Account(a),
                        };
                        tc.write(Key::Entity(entity_addr), StoredValue::Entity(entity));
                        tc.write(Key::Account(a), StoredValue::Key(Key::Entity(entity_addr)));
                        Ok(purse)
                    },
                }
            },
        }
    }

    /// Executes a native transfer: the wasmless fast path that skips
    /// bytecode entirely but follows the payment → session → finalization
    /// shape, at the fixed gas price of 1.
    ///
    /// The returned result carries a complete taxonomy: a zero-cost,
    /// zero-effect precondition failure; a charged failure whose two
    /// transforms move the collected cost to the fee target; or a charged
    /// failure after payment, in which the session's cost is zero, the
    /// receipt is persisted with the payment cost, and only payment effects
    /// survive.  In the plain shape, a success moves exactly
    /// `amount + cost` out of the payer's purse: `amount` to the target and
    /// `cost` to the proposer.
    pub fn transfer(
        &self,
        prestate_hash: u64,
        address: Addr,
        deploy_hash: Addr,
        authorization_keys: &Vec<Addr>,
        args: TransferArgs,
        proposer: Addr,
    ) -> (r: Result<ExecutionResult, Error>)
        ensures
            !self.state.has_root(prestate_hash) ==> r == Err::<ExecutionResult, Error>(
                Error::RootNotFound(prestate_hash),
            ),
            self.state.has_root(prestate_hash) ==> r is Ok,
            r matches Ok(res) ==> ({
                let m = self.state.root_map(prestate_hash);
                let wl = self.config.wasmless_transfer_cost as u128;
                &&& (res@ is Failure ==> ({
                    ||| (res@.cost().value == 0 && res@.effects().len() == 0)
                    ||| (res@.cost().value == wl && res@.effects().len() == 2)
                    ||| ({
                        &&& res@.cost().value == wl
                        &&& crate::store::apply_all(m, res@.effects()) matches Some(m2)
                        &&& m2.contains_key(Key::DeployInfo(deploy_hash))
                        &&& m2[Key::DeployInfo(deploy_hash)] matches ValueV::DeployInfo(d)
                        &&& d.gas == wl
                    })
                }))
                &&& (res@ is Success ==> res@.cost().value == wl)
                &&& (({
                    &&& spec_plain_transfer(
                        m,
                        self.config.fee_handling,
                        address,
                        args,
                        proposer,
                        wl,
                    ) matches Some(t)
                    &&& t.2 >= args.amount + wl
                    &&& spec_entity_record(m, address) matches Some(ev)
                    &&& (spec_has_admin(
                        self.config@.administrative_accounts,
                        authorization_keys@,
                    ) || spec_authorized_for_deploy(ev, authorization_keys@))
                }) ==> res@ is Success)
                &&& (({
                    &&& spec_create_transfer(
                        m,
                        self.config.fee_handling,
                        address,
                        args,
                        proposer,
                        wl,
                        deploy_hash,
                    ) matches Some(t)
                    &&& t.1 >= args.amount + wl
                    &&& spec_entity_record(m, address) matches Some(ev)
                    &&& (spec_has_admin(
                        self.config@.administrative_accounts,
                        authorization_keys@,
                    ) || spec_authorized_for_deploy(ev, authorization_keys@))
                }) ==> res@ is Success)
                &&& ((res@ is Success && spec_create_transfer(
                    m,
                    self.config.fee_handling,
                    address,
                    args,
                    proposer,
                    wl,
                    deploy_hash,
                ) is Some) ==> ({
                    let (payer, sb, rp, rpb) = spec_create_transfer(
                        m,
                        self.config.fee_handling,
                        address,
                        args,
                        proposer,
                        wl,
                        deploy_hash,
                    ).unwrap();
                    let p = spec_gen_addr(deploy_hash, 0);
                    let e1 = spec_gen_addr(deploy_hash, 1);
                    &&& sb >= args.amount + wl
                    &&& crate::store::apply_all(m, res@.effects()) matches Some(m2)
                    &&& m2[Key::Balance(payer)] == ValueV::Amount((sb - args.amount - wl) as u128)
                    &&& m2[Key::Balance(p)] == ValueV::Amount(args.amount)
                    &&& m2[Key::Balance(rp)] == ValueV::Amount((rpb + wl) as u128)
                    &&& (match args.target {
                        TransferTarget::AccountHash(a) => m2.contains_key(Key::Account(a))
                            && m2[Key::Account(a)] == ValueV::Key(Key::Entity(e1)),
                        _ => false,
                    })
                    &&& m2.contains_key(Key::Entity(e1))
                    &&& (m2[Key::Entity(e1)] matches ValueV::Entity(env) && env.main_purse == p)
                    &&& m2.contains_key(Key::DeployInfo(deploy_hash))
                    &&& m2[Key::DeployInfo(deploy_hash)] matches ValueV::DeployInfo(d)
                    &&& d.gas == wl
                    &&& d.from == address
                }))
                &&& ((res@ is Success && spec_plain_transfer(
                    m,
                    self.config.fee_handling,
                    address,
                    args,
                    proposer,
                    wl,
                ) is Some) ==> ({
                    let (payer, tp, sb, tb, rp, rpb) = spec_plain_transfer(
                        m,
                        self.config.fee_handling,
                        address,
                        args,
                        proposer,
                        wl,
                    ).unwrap();
                    &&& sb >= args.amount + wl
                    &&& crate::store::apply_all(m, res@.effects()) matches Some(m2)
                    &&& m2[Key::Balance(payer)] == ValueV::Amount((sb - args.amount - wl) as u128)
                    &&& m2[Key::Balance(tp)] == ValueV::Amount((tb + args.amount) as u128)
                    &&& m2[Key::Balance(rp)] == ValueV::Amount((rpb + wl) as u128)
                    &&& m2.contains_key(Key::DeployInfo(deploy_hash))
                    &&& m2[Key::DeployInfo(deploy_hash)] matches ValueV::DeployInfo(d)
                    &&& d.gas == wl
                    &&& d.from == address
                }))
            }),
    {
        let mut tc = match self.tracking_copy(prestate_hash) {
            Some(tc) => tc,
            None => {
                return Err(Error::RootNotFound(prestate_hash));
            },
        };
        let ghost m = self.state.root_map(prestate_hash);
        let ghost plain = spec_plain_transfer(
            m,
            self.config.fee_handling,
            address,
            args,
            proposer,
            self.config.wasmless_transfer_cost as u128,
        );
        let ghost crt = spec_create_transfer(
            m,
            self.config.fee_handling,
            address,
            args,
            proposer,
            self.config.wasmless_transfer_cost as u128,
            deploy_hash,
        );
        proof {
            assert(forall|k: Key| !crate::tracking_copy::ov_contains_key(tc.ov(), k));
            if plain is Some {
                assert(spec_entity_of(tc, address) is Some);
                assert(spec_entity_of(tc, proposer) is Some);
            }
            if crt is Some {
                assert(spec_entity_of(tc, address) is Some);
                assert(spec_entity_of(tc, proposer) is Some);
            }
        }
        let mut generator = AddressGenerator::new(deploy_hash);
        if let Err(e) = self.migrate_account(&mut tc, address, &mut generator) {
            return Ok(ExecutionResult::precondition_failure(e));
        }
        let entity = match self.get_authorized_addressable_entity(
            &tc,
            address,
            authorization_keys,
        ) {
            Ok(e) => e,
            Err(e) => {
                return Ok(ExecutionResult::precondition_failure(e));
            },
        };
        proof {
            if plain is Some {
                assert(entity.main_purse == spec_main_purse(m, address).unwrap());
            }
            if crt is Some {
                assert(entity.main_purse == spec_main_purse(m, address).unwrap());
            }
        }
        let payment_purse = match self.payment_purse_of(&tc) {
            Ok(p) => p,
            Err(e) => {
                return Ok(ExecutionResult::precondition_failure(e));
            },
        };
        proof {
            if plain is Some {
                assert(payment_purse == spec_payment_purse(m).unwrap());
            }
            if crt is Some {
                assert(payment_purse == spec_payment_purse(m).unwrap());
            }
        }
        let rewards_purse = match self.get_rewards_purse(&tc, proposer) {
            Ok(rp) => rp,
            Err(e) => {
                return Ok(ExecutionResult::precondition_failure(e));
            },
        };
        proof {
            if plain is Some {
                assert(rewards_purse == Some(spec_main_purse(m, proposer).unwrap()));
            }
            if crt is Some {
                assert(rewards_purse == Some(spec_main_purse(m, proposer).unwrap()));
            }
        }
        let wasmless_cost: u128 = self.config.wasmless_transfer_cost as u128;
        let wasmless_gas = Gas::new(wasmless_cost);
        let main_purse = entity.main_purse;
        let main_balance = match mint::read_balance(&tc, main_purse) {
            Ok(b) => b,
            Err(_) => {
                return Ok(ExecutionResult::precondition_failure(Error::InsufficientPayment));
            },
        };
        if main_balance < wasmless_cost {
            // Below the minimum balance the engine cannot even charge for a
            // user error, so this stays a precondition failure.
            return Ok(ExecutionResult::precondition_failure(Error::InsufficientPayment));
        }
        let main_balance_key = Key::Balance(main_purse);
        let rewards_balance_key = match rewards_purse {
            Some(rp) => Key::Balance(rp),
            None => Key::Balance(0),
        };
        // Any failure past this point is charged for.
        let source = match args.source {
            Some(s) => s,
            None => main_purse,
        };
        let source_balance = match mint::read_balance(&tc, source) {
            Ok(b) => b,
            Err(_) => {
                return self.charged_failure(
                    Error::InsufficientPayment,
                    wasmless_cost,
                    main_balance,
                    wasmless_gas,
                    main_balance_key,
                    rewards_balance_key,
                );
            },
        };
        let total_needed = match args.amount.checked_add(wasmless_cost) {
            Some(t) => t,
            None => {
                return self.charged_failure(
                    Error::InsufficientPayment,
                    wasmless_cost,
                    main_balance,
                    wasmless_gas,
                    main_balance_key,
                    rewards_balance_key,
                );
            },
        };
        if source_balance < total_needed {
            return self.charged_failure(
                Error::InsufficientPayment,
                wasmless_cost,
                main_balance,
                wasmless_gas,
                main_balance_key,
                rewards_balance_key,
            );
        }
        let target_purse = match self.resolve_target_purse(&mut tc, args.target, &mut generator) {
            Ok(tp) => tp,
            Err(e) => {
                return self.charged_failure(
                    e,
                    wasmless_cost,
                    main_balance,
                    wasmless_gas,
                    main_balance_key,
                    rewards_balance_key,
                );
            },
        };
        proof {
            if crt is Some {
                let (payer, sb, rp, rpb) = crt.unwrap();
                assert(vstd::wrapping::u64_specs::wrapping_add(0u64, 1u64) == 1u64);
                match args.target {
                    TransferTarget::AccountHash(a) => {
                        assert(target_purse == spec_gen_addr(deploy_hash, 0));
                        assert(tc.spec_read(Key::Balance(target_purse)) == Some(
                            ValueV::Amount(0),
                        ));
                        assert(tc.spec_read(Key::Account(a)) == Some(
                            ValueV::Key(Key::Entity(spec_gen_addr(deploy_hash, 1))),
                        ));
                        assert(tc.spec_read(Key::Entity(spec_gen_addr(deploy_hash, 1)))
                            matches Some(ValueV::Entity(env)) && env.main_purse == target_purse);
                        assert(tc.spec_read(Key::Balance(payer)) == Some(ValueV::Amount(sb)));
                        assert(tc.spec_read(Key::Balance(payment_purse)) == Some(
                            ValueV::Amount(0),
                        ));
                        assert(tc.spec_read(Key::Balance(rp)) == Some(ValueV::Amount(rpb)));
                    },
                    TransferTarget::Purse(_) => {
                        assert(false);
                    },
                }
            }
        }
        // Payment stage: move the fixed wasmless cost into the payment
        // purse.
        if let Err(e) = mint::transfer(&mut tc, source, payment_purse, wasmless_cost) {
            return self.charged_failure(
                Error::Exec(e),
                wasmless_cost,
                main_balance,
                wasmless_gas,
                main_balance_key,
                rewards_balance_key,
            );
        }
        proof {
            if plain is Some {
                let (payer, tp, sb, tb, rp, rpb) = plain.unwrap();
                assert(tc.spec_read(Key::Balance(payer)) == Some(
                    ValueV::Amount((sb - wasmless_cost) as u128),
                ));
                assert(tc.spec_read(Key::Balance(payment_purse)) == Some(
                    ValueV::Amount(wasmless_cost as u128),
                ));
                assert(tc.spec_read(Key::Balance(tp)) == Some(ValueV::Amount(tb)));
                assert(tc.spec_read(Key::Balance(rp)) == Some(ValueV::Amount(rpb)));
            }
            if crt is Some {
                let (payer, sb, rp, rpb) = crt.unwrap();
                assert(tc.spec_read(Key::Balance(payer)) == Some(
                    ValueV::Amount((sb - wasmless_cost) as u128),
                ));
                assert(tc.spec_read(Key::Balance(payment_purse)) == Some(
                    ValueV::Amount(wasmless_cost as u128),
                ));
                assert(tc.spec_read(Key::Balance(target_purse)) == Some(ValueV::Amount(0)));
                assert(tc.spec_read(Key::Balance(rp)) == Some(ValueV::Amount(rpb)));
                match args.target {
                    TransferTarget::AccountHash(a) => {
                        assert(tc.spec_read(Key::Account(a)) == Some(
                            ValueV::Key(Key::Entity(spec_gen_addr(deploy_hash, 1))),
                        ));
                        assert(tc.spec_read(Key::Entity(spec_gen_addr(deploy_hash, 1)))
                            matches Some(ValueV::Entity(env)) && env.main_purse == target_purse);
                    },
                    TransferTarget::Purse(_) => {},
                }
            }
        }
        let payment_result = ExecutionResult::Success {
            transfers: Vec::new(),
            cost: wasmless_gas,
            effects: Effects::new(),
        };
        // Session stage, on a fork: the transfer itself.  A failed session
        // leaves no session effects behind.
        let mut session_tc = tc.fork();
        let session_failed: Option<ExecError> = match mint::transfer(
            &mut session_tc,
            source,
            target_purse,
            args.amount,
        ) {
            Ok(()) => None,
            Err(e) => Some(e),
        };
        proof {
            if plain is Some && session_failed is None {
                let (payer, tp, sb, tb, rp, rpb) = plain.unwrap();
                assert(session_tc.spec_read(Key::Balance(payer)) == Some(
                    ValueV::Amount((sb - wasmless_cost - args.amount) as u128),
                ));
                assert(session_tc.spec_read(Key::Balance(tp)) == Some(
                    ValueV::Amount((tb + args.amount) as u128),
                ));
                assert(session_tc.spec_read(Key::Balance(payment_purse)) == Some(
                    ValueV::Amount(wasmless_cost as u128),
                ));
                assert(session_tc.spec_read(Key::Balance(rp)) == Some(ValueV::Amount(rpb)));
            }
            if crt is Some && session_failed is None {
                let (payer, sb, rp, rpb) = crt.unwrap();
                assert(session_tc.spec_read(Key::Balance(payer)) == Some(
                    ValueV::Amount((sb - wasmless_cost - args.amount) as u128),
                ));
                assert(session_tc.spec_read(Key::Balance(target_purse)) == Some(
                    ValueV::Amount(args.amount),
                ));
                assert(session_tc.spec_read(Key::Balance(payment_purse)) == Some(
                    ValueV::Amount(wasmless_cost as u128),
                ));
                assert(session_tc.spec_read(Key::Balance(rp)) == Some(ValueV::Amount(rpb)));
                match args.target {
                    TransferTarget::AccountHash(a) => {
                        assert(session_tc.spec_read(Key::Account(a)) == Some(
                            ValueV::Key(Key::Entity(spec_gen_addr(deploy_hash, 1))),
                        ));
                        assert(session_tc.spec_read(Key::Entity(spec_gen_addr(deploy_hash, 1)))
                            matches Some(ValueV::Entity(env)) && env.main_purse == target_purse);
                    },
                    TransferTarget::Purse(_) => {},
                }
            }
        }
        let mut chosen = if session_failed.is_none() {
            session_tc
        } else {
            tc
        };
        // The receipt is persisted win or lose.
        let mut transfers: Vec<Addr> = Vec::new();
        if session_failed.is_none() {
            transfers.push(target_purse);
        }
        let deploy_info = DeployInfo {
            deploy_hash,
            from: address,
            source,
            gas: wasmless_cost,
            transfers,
        };
        chosen.write(Key::DeployInfo(deploy_hash), StoredValue::DeployInfo(deploy_info));
        // Finalization, on a fork of the post-session (or post-payment)
        // view: release the remainder and route the cost.
        let mut finalize_tc = chosen.fork();
        let purses_distinct = main_purse != payment_purse && (match rewards_purse {
            Some(rp) => rp != main_purse && rp != payment_purse,
            None => true,
        });
        let finalize_failed: Option<Error> = if purses_distinct {
            match finalize_payment(
                &mut finalize_tc,
                wasmless_cost,
                main_purse,
                payment_purse,
                rewards_purse,
            ) {
                Ok(()) => None,
                Err(e) => Some(e),
            }
        } else {
            Some(Error::Finalization)
        };
        proof {
            if plain is Some && session_failed is None && finalize_failed is None {
                let (payer, tp, sb, tb, rp, rpb) = plain.unwrap();
                assert(finalize_tc.spec_read(Key::Balance(payment_purse)) == Some(
                    ValueV::Amount(0),
                ));
                assert(finalize_tc.spec_read(Key::Balance(payer)) == Some(
                    ValueV::Amount((sb - args.amount - wasmless_cost) as u128),
                ));
                assert(finalize_tc.spec_read(Key::Balance(rp)) == Some(
                    ValueV::Amount((rpb + wasmless_cost) as u128),
                ));
                assert(finalize_tc.spec_read(Key::Balance(tp)) == Some(
                    ValueV::Amount((tb + args.amount) as u128),
                ));
            }
            if crt is Some && session_failed is None && finalize_failed is None {
                let (payer, sb, rp, rpb) = crt.unwrap();
                assert(finalize_tc.spec_read(Key::Balance(payment_purse)) == Some(
                    ValueV::Amount(0),
                ));
                assert(finalize_tc.spec_read(Key::Balance(payer)) == Some(
                    ValueV::Amount((sb - args.amount - wasmless_cost) as u128),
                ));
                assert(finalize_tc.spec_read(Key::Balance(rp)) == Some(
                    ValueV::Amount((rpb + wasmless_cost) as u128),
                ));
                assert(finalize_tc.spec_read(Key::Balance(target_purse)) == Some(
                    ValueV::Amount(args.amount),
                ));
            }
        }
        let session_result = match session_failed {
            None => ExecutionResult::Success {
                transfers: Vec::new(),
                cost: Gas::zero(),
                effects: Effects::new(),
            },
            Some(e) => ExecutionResult::Failure {
                error: Error::Exec(e),
                transfers: Vec::new(),
                cost: Gas::zero(),
                effects: Effects::new(),
            },
        };
        let finalize_result = match finalize_failed {
            None => ExecutionResult::Success {
                transfers: Vec::new(),
                cost: Gas::zero(),
                effects: Effects::new(),
            },
            Some(e) => ExecutionResult::Failure {
                error: e,
                transfers: Vec::new(),
                cost: Gas::zero(),
                effects: Effects::new(),
            },
        };
        let final_effects = if finalize_failed.is_none() {
            finalize_tc.effects()
        } else {
            chosen.effects()
        };
        let mut builder = ExecutionResultBuilder::new();
        builder.set_payment_execution_result(payment_result);
        builder.set_session_execution_result(session_result);
        builder.set_finalize_execution_result(finalize_result);
        let built = builder.build();
        let result = built.with_effects(final_effects);
        proof {
            let the_tc = if finalize_failed is None {
                finalize_tc
            } else {
                chosen
            };
            the_tc.lemma_overlay_effects_apply();
            assert(the_tc.reader_map() == m);
            assert(result@.effects() == the_tc.ov());
            assert(result@.cost().value == wasmless_cost);
            assert(the_tc.spec_read(Key::DeployInfo(deploy_hash)) matches Some(
                ValueV::DeployInfo(dv),
            ) && dv.gas == wasmless_cost);
            if result@ is Success {
                assert(session_failed is None && finalize_failed is None);
            }
            if result@ is Success && plain is Some {
                let (payer, tp, sb, tb, rp, rpb) = plain.unwrap();
                assert(payer == main_purse);
                assert(source == main_purse);
                assert(tp == target_purse);
                assert(sb == source_balance);
                assert(rewards_purse == Some(rp));
                assert(sb >= args.amount + wasmless_cost);
                assert(the_tc.spec_read(Key::Balance(payer)) == Some(
                    ValueV::Amount((sb - args.amount - wasmless_cost) as u128),
                ));
                assert(the_tc.spec_read(Key::Balance(tp)) == Some(
                    ValueV::Amount((tb + args.amount) as u128),
                ));
                assert(the_tc.spec_read(Key::Balance(rp)) == Some(
                    ValueV::Amount((rpb + wasmless_cost) as u128),
                ));
            }
            if result@ is Success && crt is Some {
                let (payer, sb, rp, rpb) = crt.unwrap();
                assert(payer == main_purse);
                assert(source == main_purse);
                assert(target_purse == spec_gen_addr(deploy_hash, 0));
                assert(sb == source_balance);
                assert(rewards_purse == Some(rp));
                assert(sb >= args.amount + wasmless_cost);
                assert(the_tc.spec_read(Key::Balance(payer)) == Some(
                    ValueV::Amount((sb - args.amount - wasmless_cost) as u128),
                ));
                assert(the_tc.spec_read(Key::Balance(target_purse)) == Some(
                    ValueV::Amount(args.amount),
                ));
                assert(the_tc.spec_read(Key::Balance(rp)) == Some(
                    ValueV::Amount((rpb + wasmless_cost) as u128),
                ));
                match args.target {
                    TransferTarget::AccountHash(a) => {
                        assert(the_tc.spec_read(Key::Account(a)) == Some(
                            ValueV::Key(Key::Entity(spec_gen_addr(deploy_hash, 1))),
                        ));
                        assert(the_tc.spec_read(Key::Entity(spec_gen_addr(deploy_hash, 1)))
                            matches Some(ValueV::Entity(env)) && env.main_purse == target_purse);
                    },
                    TransferTarget::Purse(_) => {},
                }
            }
        }
        Ok(result)
    }

    /// Executes a deploy: runs the payment logic — a native deposit for
    /// standard payment, or the supplied custom-payment outcome — then the
    /// session outcome against a forked view, and finalizes by releasing
    /// the unspent remainder and routing the consumed cost.
    ///
    /// The result carries the same taxonomy as a transfer: a zero-cost
    /// precondition failure (in particular, a main purse below the maximum
    /// payment collateral is rejected with no effects); a charged
    /// short-circuit of two transforms; or a charged result whose persisted
    /// receipt holds exactly `cost * gas_price`.  A standard-payment deploy
    /// whose session fails keeps no session effects and no session cost:
    /// its receipt holds exactly the payment cost times the gas price.
    pub fn deploy(&self, prestate_hash: u64, deploy: &DeployItem, proposer: Addr) -> (r: Result<
        ExecutionResult,
        Error,
    >)
        ensures
            !self.state.has_root(prestate_hash) ==> r == Err::<ExecutionResult, Error>(
                Error::RootNotFound(prestate_hash),
            ),
            self.state.has_root(prestate_hash) ==> r is Ok,
            r matches Ok(res) ==> ({
                let m = self.state.root_map(prestate_hash);
                let admins = self.config@.administrative_accounts;
                let auth = deploy.authorization_keys@;
                let authorized = (match spec_entity_record(m, deploy.address) {
                    Some(ev) => spec_has_admin(admins, auth) || spec_authorized_for_deploy(
                        ev,
                        auth,
                    ),
                    None => false,
                });
                let preflight = ({
                    &&& spec_entity_record(m, deploy.address) is Some
                    &&& authorized
                    &&& spec_payment_purse(m) is Some
                    &&& self.config.fee_handling == FeeHandling::PayToProposer
                    &&& spec_entity_record(m, proposer) is Some
                    &&& spec_balance(m, spec_main_purse(m, deploy.address).unwrap()) is Some
                });
                &&& ((spec_main_purse(m, deploy.address) matches Some(payer)
                    && spec_account_record(m, deploy.address) matches Some(ValueV::Key(_))
                    && spec_balance(m, payer) matches Some(b) && b < MAX_PAYMENT_AMOUNT as u128)
                    ==> (res@ is Failure && res@.cost().value == 0 && res@.effects().len() == 0))
                &&& ((spec_account_record(m, deploy.address) matches Some(ValueV::Account(acct))
                    && spec_balance(m, acct.main_purse) matches Some(b) && b < MAX_PAYMENT_AMOUNT
                    as u128) ==> (res@ is Failure && res@.cost().value == 0 && res@.effects().len()
                    == 0))
                &&& (preflight ==> (spec_balance(m, spec_main_purse(m, deploy.address).unwrap())
                    matches Some(b) ==> (b < MAX_PAYMENT_AMOUNT as u128 ==> res@.error() == Some(
                    Error::InsufficientPayment,
                ))))
                &&& (preflight ==> (spec_balance(m, spec_main_purse(m, deploy.address).unwrap())
                    matches Some(b) ==> ((b >= MAX_PAYMENT_AMOUNT as u128 && deploy.gas_price
                    == 0) ==> (res@.error() == Some(Error::GasConversionOverflow)
                    && res@.cost().value == 0 && res@.effects().len() == 0))))
                &&& ((spec_plain_deploy(
                    m,
                    self.config.fee_handling,
                    deploy.address,
                    deploy.payment.amount,
                    deploy.gas_price,
                    proposer,
                ) && authorized && deploy.payment.standard && deploy.session_outcome.error is None
                    && deploy.session_outcome.consumed == 0 && deploy.payment.amount
                    < MAX_PAYMENT_AMOUNT as u128) ==> (res@ is Failure && res@.error() == Some(
                    Error::InsufficientPayment,
                )))
                &&& ((spec_plain_deploy(
                    m,
                    self.config.fee_handling,
                    deploy.address,
                    deploy.payment.amount,
                    deploy.gas_price,
                    proposer,
                ) && authorized && deploy.payment.standard && deploy.session_outcome.error
                    is Some) ==> ({
                    &&& res@ is Failure
                    &&& res@.cost().value == STANDARD_PAYMENT_GAS as u128
                    &&& crate::store::apply_all(m, res@.effects()) matches Some(m2)
                    &&& m2.contains_key(Key::DeployInfo(deploy.deploy_hash))
                    &&& m2[Key::DeployInfo(deploy.deploy_hash)] matches ValueV::DeployInfo(d)
                    &&& d.gas == STANDARD_PAYMENT_GAS as u128 * deploy.gas_price
                }))
                &&& ((spec_plain_deploy(
                    m,
                    self.config.fee_handling,
                    deploy.address,
                    deploy.payment.amount,
                    deploy.gas_price,
                    proposer,
                ) && authorized && deploy.payment.standard && deploy.session_outcome.error is None
                    && deploy.session_outcome.consumed + STANDARD_PAYMENT_GAS as u128
                    <= deploy.payment.amount / deploy.gas_price as u128 && (
                deploy.session_outcome.consumed > 0 || deploy.payment.amount >= MAX_PAYMENT_AMOUNT
                    as u128) && spec_writes_spare_purses(
                    deploy.session_outcome.writes@,
                    spec_main_purse(m, deploy.address).unwrap(),
                    spec_payment_purse(m).unwrap(),
                    spec_main_purse(m, proposer).unwrap(),
                )) ==> res@ is Success)
                &&& (res@ is Failure ==> ({
                    ||| (res@.cost().value == 0 && res@.effects().len() == 0)
                    ||| res@.effects().len() == 2
                    ||| ({
                        &&& crate::store::apply_all(m, res@.effects()) matches Some(m2)
                        &&& m2.contains_key(Key::DeployInfo(deploy.deploy_hash))
                        &&& m2[Key::DeployInfo(deploy.deploy_hash)] matches ValueV::DeployInfo(d)
                        &&& d.gas == res@.cost().value * deploy.gas_price
                        &&& ((deploy.payment.standard && deploy.session_outcome.error is Some)
                            ==> res@.cost().value == STANDARD_PAYMENT_GAS as u128)
                    })
                }))
                &&& (res@ is Success ==> ({
                    &&& deploy.payment.standard ==> res@.cost().value == STANDARD_PAYMENT_GAS
                        as u128 + deploy.session_outcome.consumed
                    &&& crate::store::apply_all(m, res@.effects()) matches Some(m2)
                    &&& m2.contains_key(Key::DeployInfo(deploy.deploy_hash))
                    &&& m2[Key::DeployInfo(deploy.deploy_hash)] matches ValueV::DeployInfo(d)
                    &&& d.gas == res@.cost().value * deploy.gas_price
                }))
                &&& ((spec_plain_deploy(
                    m,
                    self.config.fee_handling,
                    deploy.address,
                    deploy.payment.amount,
                    deploy.gas_price,
                    proposer,
                ) && authorized && deploy.payment.standard && deploy.session_outcome.error is None
                    && deploy.session_outcome.consumed + STANDARD_PAYMENT_GAS as u128
                    <= deploy.payment.amount / deploy.gas_price as u128 && (
                deploy.session_outcome.consumed > 0 || deploy.payment.amount >= MAX_PAYMENT_AMOUNT
                    as u128) && spec_writes_spare_purses(
                    deploy.session_outcome.writes@,
                    spec_main_purse(m, deploy.address).unwrap(),
                    spec_payment_purse(m).unwrap(),
                    spec_main_purse(m, proposer).unwrap(),
                )) ==> ({
                    let payer = spec_main_purse(m, deploy.address).unwrap();
                    let pp = spec_payment_purse(m).unwrap();
                    let rp = spec_main_purse(m, proposer).unwrap();
                    let cost_motes = (STANDARD_PAYMENT_GAS as u128
                        + deploy.session_outcome.consumed) * deploy.gas_price as u128;
                    &&& crate::store::apply_all(m, res@.effects()) matches Some(m2)
                    &&& m2[Key::Balance(payer)] == ValueV::Amount(
                        (spec_balance(m, payer).unwrap() - cost_motes) as u128,
                    )
                    &&& m2[Key::Balance(pp)] == ValueV::Amount(0)
                    &&& m2[Key::Balance(rp)] == ValueV::Amount(
                        (spec_balance(m, rp).unwrap() + cost_motes) as u128,
                    )
                }))
                &&& ((spec_plain_deploy(
                    m,
                    self.config.fee_handling,
                    deploy.address,
                    deploy.payment.amount,
                    deploy.gas_price,
                    proposer,
                ) && authorized && deploy.payment.standard && deploy.session_outcome.error
                    is Some) ==> ({
                    let payer = spec_main_purse(m, deploy.address).unwrap();
                    let pp = spec_payment_purse(m).unwrap();
                    let rp = spec_main_purse(m, proposer).unwrap();
                    let cost_motes = STANDARD_PAYMENT_GAS as u128 * deploy.gas_price as u128;
                    &&& crate::store::apply_all(m, res@.effects()) matches Some(m2)
                    &&& m2[Key::Balance(payer)] == ValueV::Amount(
                        (spec_balance(m, payer).unwrap() - cost_motes) as u128,
                    )
                    &&& m2[Key::Balance(pp)] == ValueV::Amount(0)
                    &&& m2[Key::Balance(rp)] == ValueV::Amount(
                        (spec_balance(m, rp).unwrap() + cost_motes) as u128,
                    )
                    &&& spec_untouched_except(
                        m,
                        m2,
                        seq![
                            Key::Balance(payer),
                            Key::Balance(pp),
                            Key::Balance(rp),
                            Key::DeployInfo(deploy.deploy_hash),
                        ],
                    )
                }))
            }),
    {
        let mut tc = match self.tracking_copy(prestate_hash) {
            Some(tc) => tc,
            None => {
                return Err(Error::RootNotFound(prestate_hash));
            },
        };
        let ghost m = self.state.root_map(prestate_hash);
        let ghost admins = self.config@.administrative_accounts;
        let ghost auth = deploy.authorization_keys@;
        let ghost authorized = (match spec_entity_record(m, deploy.address) {
            Some(ev) => spec_has_admin(admins, auth) || spec_authorized_for_deploy(ev, auth),
            None => false,
        });
        let ghost preflight = spec_entity_record(m, deploy.address) is Some && authorized
            && spec_payment_purse(m) is Some && self.config.fee_handling
            == FeeHandling::PayToProposer && spec_entity_record(m, proposer) is Some
            && spec_balance(m, spec_main_purse(m, deploy.address).unwrap()) is Some;
        let ghost plaind = spec_plain_deploy(
            m,
            self.config.fee_handling,
            deploy.address,
            deploy.payment.amount,
            deploy.gas_price,
            proposer,
        );
        let ghost owed_err = plaind && authorized && deploy.payment.standard
            && deploy.session_outcome.error is Some;
        let ghost owed_ok = plaind && authorized && deploy.payment.standard
            && deploy.session_outcome.error is None && deploy.session_outcome.consumed
            + STANDARD_PAYMENT_GAS as u128 <= deploy.payment.amount / deploy.gas_price as u128 && (
        deploy.session_outcome.consumed > 0 || deploy.payment.amount >= MAX_PAYMENT_AMOUNT as u128)
            && spec_writes_spare_purses(
            deploy.session_outcome.writes@,
            spec_main_purse(m, deploy.address).unwrap(),
            spec_payment_purse(m).unwrap(),
            spec_main_purse(m, proposer).unwrap(),
        );
        let ghost tie = plaind && authorized && deploy.payment.standard
            && deploy.session_outcome.error is None && deploy.session_outcome.consumed == 0
            && deploy.payment.amount < MAX_PAYMENT_AMOUNT as u128;
        let ghost legacy = (match spec_account_record(m, deploy.address) {
            Some(ValueV::Account(acct)) => (match spec_balance(m, acct.main_purse) {
                Some(b) => b < MAX_PAYMENT_AMOUNT as u128,
                None => false,
            }),
            _ => false,
        });
        proof {
            assert(forall|k: Key| !crate::tracking_copy::ov_contains_key(tc.ov(), k));
            if plaind || preflight {
                assert(spec_entity_of(tc, deploy.address) is Some);
                assert(spec_entity_of(tc, proposer) is Some);
            }
        }
        let ghost tc0 = tc;
        let mut generator = AddressGenerator::new(deploy.deploy_hash);
        if let Err(e) = self.migrate_account(&mut tc, deploy.address, &mut generator) {
            return Ok(ExecutionResult::precondition_failure(e));
        }
        proof {
            if legacy {
                match spec_account_record(m, deploy.address) {
                    Some(ValueV::Account(acct)) => {
                        assert(spec_entity_of(tc, deploy.address) matches Some(ev)
                            && ev.main_purse == acct.main_purse);
                        assert(tc.spec_read(Key::Balance(acct.main_purse)) == tc0.spec_read(
                            Key::Balance(acct.main_purse),
                        ));
                    },
                    _ => {
                        assert(false);
                    },
                }
            }
        }
        let entity = match self.get_authorized_addressable_entity(
            &tc,
            deploy.address,
            &deploy.authorization_keys,
        ) {
            Ok(e) => e,
            Err(e) => {
                return Ok(ExecutionResult::precondition_failure(e));
            },
        };
        proof {
            if plaind || preflight {
                assert(entity.main_purse == spec_main_purse(m, deploy.address).unwrap());
            }
            if legacy {
                match spec_account_record(m, deploy.address) {
                    Some(ValueV::Account(acct)) => {
                        assert(entity.main_purse == acct.main_purse);
                    },
                    _ => {},
                }
            }
        }
        let payment_purse = match self.payment_purse_of(&tc) {
            Ok(p) => p,
            Err(e) => {
                return Ok(ExecutionResult::precondition_failure(e));
            },
        };
        proof {
            if plaind || preflight {
                assert(payment_purse == spec_payment_purse(m).unwrap());
            }
        }
        let rewards_purse = match self.get_rewards_purse(&tc, proposer) {
            Ok(rp) => rp,
            Err(e) => {
                return Ok(ExecutionResult::precondition_failure(e));
            },
        };
        proof {
            if plaind || preflight {
                assert(rewards_purse == Some(spec_main_purse(m, proposer).unwrap()));
            }
        }
        let main_purse = entity.main_purse;
        let main_balance = match mint::read_balance(&tc, main_purse) {
            Ok(b) => b,
            Err(_) => {
                return Ok(ExecutionResult::precondition_failure(Error::InsufficientPayment));
            },
        };
        // The main purse must hold the full payment collateral before any
        // payment logic runs.
        if main_balance < MAX_PAYMENT_AMOUNT as u128 {
            return Ok(ExecutionResult::precondition_failure(Error::InsufficientPayment));
        }
        if deploy.gas_price == 0 {
            return Ok(ExecutionResult::precondition_failure(Error::GasConversionOverflow));
        }
        let max_payment_gas = Gas::new(MAX_PAYMENT_AMOUNT as u128 / deploy.gas_price as u128);
        let main_balance_key = Key::Balance(main_purse);
        let rewards_balance_key = match rewards_purse {
            Some(rp) => Key::Balance(rp),
            None => Key::Balance(0),
        };
        // Payment stage.
        let payment_consumed: u128;
        if deploy.payment.standard {
            match mint::transfer(&mut tc, main_purse, payment_purse, deploy.payment.amount) {
                Ok(()) => {},
                Err(e) => {
                    return self.charged_failure(
                        Error::Exec(e),
                        MAX_PAYMENT_AMOUNT as u128,
                        main_balance,
                        max_payment_gas,
                        main_balance_key,
                        rewards_balance_key,
                    );
                },
            }
            payment_consumed = STANDARD_PAYMENT_GAS as u128;
        } else {
            let outcome = match &deploy.payment.outcome {
                Some(o) => o,
                None => {
                    return Ok(ExecutionResult::precondition_failure(Error::Deploy));
                },
            };
            match &outcome.error {
                Some(e) => {
                    // Malformed or failing custom payment is charged in
                    // full: the payer's collateral covers it.
                    return self.charged_failure(
                        Error::Exec(*e),
                        MAX_PAYMENT_AMOUNT as u128,
                        main_balance,
                        max_payment_gas,
                        main_balance_key,
                        rewards_balance_key,
                    );
                },
                None => {},
            }
            let ghost rm = tc.reader_map();
            let mut i: usize = 0;
            while i < outcome.writes.len()
                invariant
                    i <= outcome.writes.len(),
                    tc.wf(),
                    tc.reader_map() == rm,
                decreases outcome.writes.len() - i,
            {
                let (k, v) = (outcome.writes[i].0, outcome.writes[i].1.duplicate());
                tc.write(k, v);
                i = i + 1;
            }
            payment_consumed = outcome.consumed;
        }
        let ghost post_payment_tc = tc;
        // Forced-transfer check: what reached the payment purse must cover
        // the payment cost at the offered price.
        let pb = match mint::read_balance(&tc, payment_purse) {
            Ok(b) => b,
            Err(_) => {
                return self.charged_failure(
                    Error::InsufficientPayment,
                    MAX_PAYMENT_AMOUNT as u128,
                    main_balance,
                    max_payment_gas,
                    main_balance_key,
                    rewards_balance_key,
                );
            },
        };
        let payment_cost_motes = match payment_consumed.checked_mul(deploy.gas_price as u128) {
            Some(v) => v,
            None => {
                return Ok(ExecutionResult::precondition_failure(Error::GasConversionOverflow));
            },
        };
        if pb < payment_cost_motes {
            return self.charged_failure(
                Error::InsufficientPayment,
                MAX_PAYMENT_AMOUNT as u128,
                main_balance,
                max_payment_gas,
                main_balance_key,
                rewards_balance_key,
            );
        }
        // Session stage, on a fork, with the gas limit derived from the
        // collected payment.
        let session_gas_limit = pb / deploy.gas_price as u128;
        proof {
            if owed_err || owed_ok || tie {
                assert(pb == deploy.payment.amount);
                assert(deploy.payment.amount / (deploy.gas_price as u128)
                    >= STANDARD_PAYMENT_GAS as u128) by (nonlinear_arith)
                    requires
                        owed_err || owed_ok || tie,
                        deploy.payment.amount >= STANDARD_PAYMENT_GAS as u128
                            * deploy.gas_price as u128,
                        deploy.gas_price >= 1,
                ;
            }
        }
        let session_gas_limit = if session_gas_limit >= payment_consumed {
            session_gas_limit - payment_consumed
        } else {
            0
        };
        let mut session_tc = tc.fork();
        let session_error: Option<Error> = if deploy.session_outcome.consumed
            > session_gas_limit {
            Some(Error::Exec(ExecError::GasLimit))
        } else {
            match &deploy.session_outcome.error {
                Some(e) => Some(Error::Exec(*e)),
                None => None,
            }
        };
        let session_consumed: u128 = if session_error.is_none() {
            deploy.session_outcome.consumed
        } else {
            // A failed session's cost is discarded along with its effects.
            0
        };
        let ghost rm2 = session_tc.reader_map();
        let ghost pre_session = session_tc;
        let ghost rpa = match rewards_purse {
            Some(x) => x,
            None => 0,
        };
        if session_error.is_none() {
            let mut i: usize = 0;
            while i < deploy.session_outcome.writes.len()
                invariant
                    i <= deploy.session_outcome.writes.len(),
                    session_tc.wf(),
                    session_tc.reader_map() == rm2,
                    spec_writes_spare_purses(
                        deploy.session_outcome.writes@,
                        main_purse,
                        payment_purse,
                        rpa,
                    ) ==> ({
                        &&& session_tc.spec_read(Key::Balance(main_purse)) == pre_session.spec_read(
                            Key::Balance(main_purse),
                        )
                        &&& session_tc.spec_read(Key::Balance(payment_purse))
                            == pre_session.spec_read(Key::Balance(payment_purse))
                        &&& session_tc.spec_read(Key::Balance(rpa)) == pre_session.spec_read(
                            Key::Balance(rpa),
                        )
                    }),
                decreases deploy.session_outcome.writes.len() - i,
            {
                let (k, v) = (
                    deploy.session_outcome.writes[i].0,
                    deploy.session_outcome.writes[i].1.duplicate(),
                );
                session_tc.write(k, v);
                i = i + 1;
            }
        }
        proof {
            if owed_err || owed_ok {
                assert(rpa == spec_main_purse(m, proposer).unwrap());
                assert(tc.spec_read(Key::Balance(rpa)) == Some(
                    ValueV::Amount(spec_balance(m, rpa).unwrap()),
                ));
            }
            if owed_ok {
                assert(session_error is None);
                assert(spec_writes_spare_purses(
                    deploy.session_outcome.writes@,
                    main_purse,
                    payment_purse,
                    rpa,
                ));
                assert(pre_session.spec_read(Key::Balance(rpa)) == tc.spec_read(
                    Key::Balance(rpa),
                ));
                assert(session_tc.spec_read(Key::Balance(payment_purse)) == pre_session.spec_read(
                    Key::Balance(payment_purse),
                ));
                assert(session_tc.spec_read(Key::Balance(rpa)) == pre_session.spec_read(
                    Key::Balance(rpa),
                ));
            }
            if owed_err {
                assert(session_error is Some);
            }
        }
        let mut chosen = if session_error.is_none() {
            session_tc
        } else {
            tc
        };
        proof {
            if owed_err || owed_ok {
                let rp = spec_main_purse(m, proposer).unwrap();
                assert(chosen.spec_read(Key::Balance(payment_purse)) == Some(
                    ValueV::Amount(deploy.payment.amount),
                ));
                assert(chosen.spec_read(Key::Balance(main_purse)) matches Some(
                    ValueV::Amount(_),
                ));
                assert(chosen.spec_read(Key::Balance(rp)) == Some(
                    ValueV::Amount(spec_balance(m, rp).unwrap()),
                ));
            }
        }
        // Zero-cost success is only valid when full payment collateral was
        // present: otherwise the user is charged for the failed attempt.
        if session_error.is_none() && session_consumed == 0 && pb < MAX_PAYMENT_AMOUNT as u128 {
            return self.charged_failure(
                Error::InsufficientPayment,
                MAX_PAYMENT_AMOUNT as u128,
                main_balance,
                Gas::zero(),
                main_balance_key,
                rewards_balance_key,
            );
        }
        // The receipt is persisted win or lose.
        proof {
            if owed_ok {
                assert((STANDARD_PAYMENT_GAS as u128 + deploy.session_outcome.consumed) * (
                deploy.gas_price as u128) <= (deploy.payment.amount / (deploy.gas_price as u128))
                    * (deploy.gas_price as u128)) by (nonlinear_arith)
                    requires
                        STANDARD_PAYMENT_GAS as u128 + deploy.session_outcome.consumed
                            <= deploy.payment.amount / (deploy.gas_price as u128),
                        deploy.gas_price >= 1,
                ;
            }
            if owed_err || owed_ok {
                assert((deploy.payment.amount / (deploy.gas_price as u128)) * (
                deploy.gas_price as u128) <= deploy.payment.amount) by (nonlinear_arith)
                    requires
                        deploy.gas_price >= 1,
                ;
                assert(STANDARD_PAYMENT_GAS as u128 * (deploy.gas_price as u128)
                    <= (deploy.payment.amount / (deploy.gas_price as u128)) * (
                deploy.gas_price as u128)) by (nonlinear_arith)
                    requires
                        STANDARD_PAYMENT_GAS as u128 <= deploy.payment.amount / (
                        deploy.gas_price as u128),
                        deploy.gas_price >= 1,
                ;
            }
        }
        let total_gas = match payment_consumed.checked_add(session_consumed) {
            Some(v) => v,
            None => {
                return Ok(ExecutionResult::precondition_failure(Error::GasConversionOverflow));
            },
        };
        let total_cost_motes = match total_gas.checked_mul(deploy.gas_price as u128) {
            Some(v) => v,
            None => {
                return Ok(ExecutionResult::precondition_failure(Error::GasConversionOverflow));
            },
        };
        let deploy_info = DeployInfo {
            deploy_hash: deploy.deploy_hash,
            from: deploy.address,
            source: main_purse,
            gas: total_cost_motes,
            transfers: Vec::new(),
        };
        chosen.write(Key::DeployInfo(deploy.deploy_hash), StoredValue::DeployInfo(deploy_info));
        let ghost pre_finalize_tc = chosen;
        proof {
            if owed_err || owed_ok {
                assert(total_cost_motes <= deploy.payment.amount);
                assert(chosen.spec_read(Key::Balance(payment_purse)) == Some(
                    ValueV::Amount(deploy.payment.amount),
                ));
                assert(chosen.spec_read(Key::Balance(main_purse)) matches Some(
                    ValueV::Amount(ab),
                ) && ab + (deploy.payment.amount - total_cost_motes) <= u128::MAX);
                assert(rewards_purse matches Some(rp) && chosen.spec_read(Key::Balance(rp))
                    matches Some(ValueV::Amount(rb)) && rb + total_cost_motes <= u128::MAX);
            }
        }
        // Finalization, on a fork of the post-session (or post-payment)
        // view.
        let mut finalize_tc = chosen.fork();
        let purses_distinct = main_purse != payment_purse && (match rewards_purse {
            Some(rp) => rp != main_purse && rp != payment_purse,
            None => true,
        });
        let finalize_failed: Option<Error> = if purses_distinct {
            match finalize_payment(
                &mut finalize_tc,
                total_cost_motes,
                main_purse,
                payment_purse,
                rewards_purse,
            ) {
                Ok(()) => None,
                Err(e) => Some(e),
            }
        } else {
            Some(Error::Finalization)
        };
        proof {
            if owed_err || owed_ok {
                assert(finalize_failed is None);
            }
        }
        let payment_result = ExecutionResult::Success {
            transfers: Vec::new(),
            cost: Gas::new(payment_consumed),
            effects: Effects::new(),
        };
        let session_result = match session_error {
            None => ExecutionResult::Success {
                transfers: Vec::new(),
                cost: Gas::new(session_consumed),
                effects: Effects::new(),
            },
            Some(e) => ExecutionResult::Failure {
                error: e,
                transfers: Vec::new(),
                cost: Gas::new(session_consumed),
                effects: Effects::new(),
            },
        };
        let finalize_result = match finalize_failed {
            None => ExecutionResult::Success {
                transfers: Vec::new(),
                cost: Gas::zero(),
                effects: Effects::new(),
            },
            Some(e) => ExecutionResult::Failure {
                error: e,
                transfers: Vec::new(),
                cost: Gas::zero(),
                effects: Effects::new(),
            },
        };
        let final_effects = if finalize_failed.is_none() {
            finalize_tc.effects()
        } else {
            chosen.effects()
        };
        let mut builder = ExecutionResultBuilder::new();
        builder.set_payment_execution_result(payment_result);
        builder.set_session_execution_result(session_result);
        builder.set_finalize_execution_result(finalize_result);
        let built = builder.build();
        let result = built.with_effects(final_effects);
        proof {
            let the_tc = if finalize_failed is None {
                finalize_tc
            } else {
                chosen
            };
            the_tc.lemma_overlay_effects_apply();
            assert(the_tc.reader_map() == m);
            assert(result@.effects() == the_tc.ov());
            assert(result@.cost().value == payment_consumed + session_consumed);
            assert(the_tc.spec_read(Key::DeployInfo(deploy.deploy_hash)) matches Some(
                ValueV::DeployInfo(dv),
            ) && dv.gas == total_cost_motes);
            if owed_err || owed_ok {
                let payer = spec_main_purse(m, deploy.address).unwrap();
                let pp = spec_payment_purse(m).unwrap();
                let rp = spec_main_purse(m, proposer).unwrap();
                assert(payer == main_purse);
                assert(pp == payment_purse);
                assert(rewards_purse == Some(rp));
                assert(payment_consumed == STANDARD_PAYMENT_GAS as u128);
                assert(total_cost_motes == (STANDARD_PAYMENT_GAS as u128 + session_consumed)
                    * deploy.gas_price as u128);
                assert(the_tc.spec_read(Key::Balance(payment_purse)) == Some(ValueV::Amount(0)));
                assert(the_tc.spec_read(Key::Balance(payer)) == Some(
                    ValueV::Amount((spec_balance(m, payer).unwrap() - total_cost_motes) as u128),
                ));
                assert(the_tc.spec_read(Key::Balance(rp)) == Some(
                    ValueV::Amount((spec_balance(m, rp).unwrap() + total_cost_motes) as u128),
                ));
            }
            if owed_err {
                let payer = spec_main_purse(m, deploy.address).unwrap();
                let pp = spec_payment_purse(m).unwrap();
                let rp = spec_main_purse(m, proposer).unwrap();
                assert(session_consumed == 0);
                assert(crate::store::apply_all(m, result@.effects()) == crate::store::apply_all(
                    m,
                    the_tc.ov(),
                ));
                let m2 = crate::store::apply_all(m, result@.effects()).unwrap();
                let ex = seq![
                    Key::Balance(payer),
                    Key::Balance(pp),
                    Key::Balance(rp),
                    Key::DeployInfo(deploy.deploy_hash),
                ];
                assert forall|k: Key| !ex.contains(k) implies ((#[trigger] m2.contains_key(k))
                    == m.contains_key(k) && (m.contains_key(k) ==> m2[k] == m[k])) by {
                    assert(ex[0] == Key::Balance(payer));
                    assert(ex[1] == Key::Balance(pp));
                    assert(ex[2] == Key::Balance(rp));
                    assert(ex[3] == Key::DeployInfo(deploy.deploy_hash));
                    assert(!crate::tracking_copy::ov_contains_key(tc0.ov(), k));
                    assert(post_payment_tc.spec_read(k) == tc0.spec_read(k));
                    assert(pre_finalize_tc.spec_read(k) == post_payment_tc.spec_read(k));
                    assert(the_tc.spec_read(k) == pre_finalize_tc.spec_read(k));
                    assert(match the_tc.spec_read(k) {
                        Some(v) => m2.contains_key(k) && m2[k] == v,
                        None => !m2.contains_key(k),
                    });
                }
                assert(spec_untouched_except(m, m2, ex));
            }
        }
        Ok(result)
    }

    /// Runs an execution request: each deploy in order, native transfers
    /// through the fast path and everything else through the deploy
    /// pipeline.  One result per deploy; a fatal error — a missing
    /// pre-state root — aborts the whole request.
    pub fn run_execute(
        &self,
        prestate_hash: u64,
        transfers: &Vec<(DeployItem, TransferArgs)>,
        deploys: &Vec<DeployItem>,
        proposer: Addr,
    ) -> (r: Result<Vec<ExecutionResult>, Error>)
        ensures
            (!self.state.has_root(prestate_hash) && transfers@.len() + deploys@.len() > 0) ==> r
                == Err::<Vec<ExecutionResult>, Error>(Error::RootNotFound(prestate_hash)),
            self.state.has_root(prestate_hash) ==> r is Ok,
            r matches Ok(results) ==> results@.len() == transfers@.len() + deploys@.len(),
    {
        let mut results: Vec<ExecutionResult> = Vec::new();
        let mut i: usize = 0;
        while i < transfers.len()
            invariant
                i <= transfers.len(),
                results@.len() == i,
                i > 0 ==> self.state.has_root(prestate_hash),
            decreases transfers.len() - i,
        {
            let (item, args) = (&transfers[i].0, transfers[i].1);
            let result = match self.transfer(
                prestate_hash,
                item.address,
                item.deploy_hash,
                &item.authorization_keys,
                args,
                proposer,
            ) {
                Ok(result) => result,
                Err(e) => {
                    return Err(e);
                },
            };
            results.push(result);
            i = i + 1;
        }
        let mut i: usize = 0;
        while i < deploys.len()
            invariant
                i <= deploys.len(),
                results@.len() == transfers@.len() + i,
                transfers@.len() + i > 0 ==> self.state.has_root(prestate_hash),
            decreases deploys.len() - i,
        {
            let result = match self.deploy(prestate_hash, &deploys[i], proposer) {
                Ok(result) => result,
                Err(e) => {
                    return Err(e);
                },
            };
            results.push(result);
            i = i + 1;
        }
        Ok(results)
    }

    /// A charged failure: the collected amount leaves the payer and reaches
    /// the fee target, wrapped as a whole-transaction result.
    fn charged_failure(
        &self,
        error: Error,
        payment_amount: u128,
        account_main_purse_balance: u128,
        gas_cost: Gas,
        account_main_purse_balance_key: Key,
        rewards_target_purse_balance_key: Key,
    ) -> (r: Result<ExecutionResult, Error>)
        requires
            payment_amount <= account_main_purse_balance,
        ensures
            r matches Ok(res) && res@ is Failure && res@.cost() == gas_cost && res@.effects().len()
                == 2 && res@.error() == Some(error),
    {
        match ExecutionResult::new_payment_code_error(
            error,
            Motes::new(payment_amount),
            Motes::new(account_main_purse_balance),
            gas_cost,
            account_main_purse_balance_key,
            rewards_target_purse_balance_key,
        ) {
            Ok(res) => Ok(res),
            Err(e) => {
                proof {
                    assert(false);
                }
                Ok(ExecutionResult::precondition_failure(e))
            },
        }
    }

    /// Resolves the payment purse: the handle-payment contract's named key.
    fn payment_purse_of(&self, tc: &TrackingCopy) -> (r: Result<Addr, Error>)
        requires
            tc.wf(),
        ensures
            r matches Ok(p) ==> ({
                &&& tc.spec_read(Key::SystemContractRegistry) matches Some(ValueV::Registry(reg))
                &&& tc.spec_read(Key::NamedKey(reg.handle_payment, PAYMENT_PURSE_NAME))
                    matches Some(ValueV::NamedKey(nk))
                &&& nk.key == Key::Uref(p)
            }),
            ({
                &&& tc.spec_read(Key::SystemContractRegistry) matches Some(ValueV::Registry(reg))
                &&& tc.spec_read(Key::NamedKey(reg.handle_payment, PAYMENT_PURSE_NAME))
                    matches Some(ValueV::NamedKey(nk))
                &&& nk.key is Uref
            }) ==> r is Ok,
    {
        let reg = match self.registry_of(tc) {
            Ok(reg) => reg,
            Err(e) => {
                return Err(e);
            },
        };
        match tc.read(Key::NamedKey(reg.handle_payment, PAYMENT_PURSE_NAME)) {
            Some(StoredValue::NamedKey(nk)) => match nk.key {
                Key::Uref(p) => Ok(p),
                _ => Err(Error::Deploy),
            },
            _ => Err(Error::Deploy),
        }
    }
}

} // verus!

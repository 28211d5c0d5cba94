//! The engine's top-level entry points: checkout/commit plumbing, queries,
//! genesis and upgrade, the era-boundary step, and reward distribution.

use vstd::prelude::*;

use crate::auction;
use crate::auction::era_has_validator;
use crate::config::EngineConfig;
use crate::effects::Effects;
use crate::keys::{Addr, Key};
use crate::result::Error;
use crate::store::{CommitError, GlobalState};
use crate::tracking_copy::{KeyTag, QueryOutcome, TrackingCopy};
use crate::values::{
    BidKind, ChecksumRegistry, SeigniorageSnapshot, StoredValue, SystemContractRegistry,
    ValidatorBid, ValueV,
};

verus! {

/// The name id of the payment purse among handle payment's named keys.
pub const PAYMENT_PURSE_NAME: u64 = 1;

/// The name id of the accumulation purse among handle payment's named keys.
pub const ACCUMULATION_PURSE_NAME: u64 = 2;

/// The outcome of a balance request.
#[derive(Clone, Copy, PartialEq, Eq, Debug)]
pub enum BalanceResult {
    RootNotFound,
    Success { motes: u128 },
}

/// The outcome of a step request.
pub struct StepSuccess {
    pub post_state_hash: u64,
    pub effects: Effects,
}

/// A request to run the era-boundary step.
pub struct StepRequest {
    pub pre_state_hash: u64,
    pub protocol_version: u64,
    pub slashed_validators: Vec<Addr>,
    pub evict_items: Vec<Addr>,
    pub next_era_id: u64,
    pub era_end_timestamp_millis: u64,
}

/// An error of the era-boundary step.
#[derive(Clone, Copy, PartialEq, Eq, Debug)]
pub enum StepError {
    RootNotFound(u64),
    SlashingError(Error),
    AuctionError(Error),
    DistributeError(Error),
    DistributeAccumulatedFeesError(Error),
    CommitError,
    OtherEngineStateError(Error),
}

/// The outcome of a successful genesis run.
pub struct GenesisSuccess {
    pub post_state_hash: u64,
    pub effects: Effects,
}

/// The outcome of a successful upgrade.
pub struct UpgradeSuccess {
    pub post_state_hash: u64,
    pub effects: Effects,
}

/// The bid record of `a` in `m`, where present and well-formed.
pub open spec fn spec_bid_record(m: Map<Key, ValueV>, a: Addr) -> Option<BidKind> {
    if m.contains_key(Key::BidAddr(a)) {
        match m[Key::BidAddr(a)] {
            ValueV::BidKind(b) => Some(b),
            _ => None,
        }
    } else {
        None
    }
}

/// Main implementation of an execution engine state.
///
/// Takes an engine configuration and the global state to operate on.  The
/// methods on this structure are the external API of the engine.
pub struct EngineState {
    pub config: EngineConfig,
    pub state: GlobalState,
}

impl EngineState {
    /// Creates a new engine state.
    pub fn new(state: GlobalState, config: EngineConfig) -> (r: EngineState)
        ensures
            r.config@ == config@,
            r.state == state,
    {
        EngineState { config, state }
    }

    /// Returns the engine config.
    pub fn config(&self) -> (r: &EngineConfig)
        ensures
            r@ == self.config@,
    {
        &self.config
    }

    /// Updates the current engine config with a new instance.
    pub fn update_config(&mut self, new_config: EngineConfig)
        ensures
            final(self).config@ == new_config@,
            final(self).state == old(self).state,
    {
        self.config = new_config
    }

    /// Flushes the global state to durable storage.
    pub fn flush_environment(&mut self) -> (r: Result<(), Error>)
        requires
            old(self).state.spec_flush_count() < u64::MAX,
        ensures
            r is Ok,
            final(self).state.spec_flush_count() == old(self).state.spec_flush_count() + 1,
            final(self).state.spec_root_count() == old(self).state.spec_root_count(),
            forall|q: u64|
                old(self).state.has_root(q) ==> final(self).state.has_root(q) && final(self).state.root_map(q) == old(self).state.root_map(q),
            final(self).config == old(self).config,
    {
        self.state.flush();
        Ok(())
    }

    /// Creates a new tracking copy instance over the snapshot under `hash`.
    pub fn tracking_copy(&self, hash: u64) -> (r: Option<TrackingCopy>)
        ensures
            self.state.has_root(hash) ==> ({
                &&& r matches Some(tc)
                &&& tc.wf()
                &&& tc.reader_map() == self.state.root_map(hash)
                &&& tc.ov().len() == 0
                &&& tc.spec_max_query_depth() == self.config.max_query_depth
            }),
            !self.state.has_root(hash) ==> r is None,
    {
        match self.state.checkout(hash) {
            Some(store) => Some(TrackingCopy::new(store, self.config.max_query_depth)),
            None => None,
        }
    }

    /// Commits the effects of an execution onto `pre_state_hash`, returning
    /// the new state root.
    pub fn commit_effects(&mut self, pre_state_hash: u64, effects: &Effects) -> (r: Result<
        u64,
        Error,
    >)
        requires
            old(self).state.spec_root_count() < u64::MAX,
        ensures
            final(self).config == old(self).config,
            !old(self).state.has_root(pre_state_hash) ==> r == Err::<u64, Error>(
                Error::RootNotFound(pre_state_hash),
            ) && final(self).state == old(self).state,
            old(self).state.has_root(pre_state_hash) ==> (match crate::store::apply_all(
                old(self).state.root_map(pre_state_hash),
                effects@,
            ) {
                Some(m) => {
                    &&& r is Ok
                    &&& final(self).state.has_root(r.unwrap())
                    &&& final(self).state.root_map(r.unwrap()) == m
                    &&& final(self).state.spec_root_count() == old(self).state.spec_root_count()
                        + 1
                    &&& forall|q: u64|
                        old(self).state.has_root(q) ==> final(self).state.has_root(q) && final(self).state.root_map(q) == old(self).state.root_map(q)
                    &&& final(self).state.spec_flush_count() == old(self).state.spec_flush_count()
                },
                None => r == Err::<u64, Error>(Error::CommitError) && final(self).state == old(self).state,
            }),
    {
        match self.state.commit(pre_state_hash, effects) {
            Ok(root) => Ok(root),
            Err(CommitError::RootNotFound(h)) => Err(Error::RootNotFound(h)),
            Err(CommitError::TransformFailure(_)) => Err(Error::CommitError),
        }
    }

    /// Executes a query: a root key plus named-key path segments against the
    /// snapshot under `state_hash`.
    pub fn run_query(&self, state_hash: u64, key: Key, path: &Vec<u64>) -> (r: Option<
        QueryOutcome,
    >)
        ensures
            !self.state.has_root(state_hash) ==> r is None,
            self.state.has_root(state_hash) ==> (r matches Some(q) && (path@.len()
                > self.config.max_query_depth ==> q@ is DepthExceeded)),
            (self.state.has_root(state_hash) && path@.len() <= self.config.max_query_depth) ==> (r
                matches Some(q) && q@ == crate::tracking_copy::spec_query_migrated(
                self.state.root_map(state_hash),
                key,
                path@,
            )),
    {
        match self.tracking_copy(state_hash) {
            Some(tc) => {
                proof {
                    tc.lemma_query_map(key, path@, 0);
                }
                let first = tc.query(key, path);
                // Migration compensation: a miss under an entity key is
                // retried once under the legacy hash address.
                let retry: Option<Addr> = match (&first, key) {
                    (QueryOutcome::ValueNotFound(_), Key::Entity(a)) => Some(a),
                    _ => None,
                };
                match retry {
                    Some(a) => {
                        proof {
                            tc.lemma_query_map(Key::Hash(a), path@, 0);
                        }
                        Some(tc.query(Key::Hash(a), path))
                    },
                    None => Some(first),
                }
            },
            None => None,
        }
    }

    /// Gets the balance of the purse `purse` at `state_hash`.
    pub fn get_purse_balance(&self, state_hash: u64, purse: Addr) -> (r: Result<
        BalanceResult,
        Error,
    >)
        ensures
            !self.state.has_root(state_hash) ==> r == Ok::<BalanceResult, Error>(
                BalanceResult::RootNotFound,
            ),
            self.state.has_root(state_hash) ==> (match self.state.root_map(state_hash).contains_key(
                Key::Balance(purse),
            ) {
                true => (match self.state.root_map(state_hash)[Key::Balance(purse)] {
                    ValueV::Amount(x) => r == Ok::<BalanceResult, Error>(
                        BalanceResult::Success { motes: x },
                    ),
                    _ => r is Err,
                }),
                false => r is Err,
            }),
    {
        let tc = match self.tracking_copy(state_hash) {
            Some(tc) => tc,
            None => {
                return Ok(BalanceResult::RootNotFound);
            },
        };
        match crate::mint::get_purse_balance(&tc, Key::Balance(purse)) {
            Ok(motes) => Ok(BalanceResult::Success { motes: motes.value }),
            Err(e) => Err(Error::Exec(e)),
        }
    }

    /// Obtains the system contract registry at `state_hash`.
    pub fn get_system_contract_registry(&self, state_hash: u64) -> (r: Result<
        SystemContractRegistry,
        Error,
    >)
        ensures
            !self.state.has_root(state_hash) ==> r == Err::<SystemContractRegistry, Error>(
                Error::RootNotFound(state_hash),
            ),
            self.state.has_root(state_hash) ==> (match self.state.root_map(state_hash).contains_key(
                Key::SystemContractRegistry,
            ) {
                true => (match self.state.root_map(state_hash)[Key::SystemContractRegistry] {
                    ValueV::Registry(reg) => r == Ok::<SystemContractRegistry, Error>(reg),
                    _ => r == Err::<SystemContractRegistry, Error>(
                        Error::MissingSystemContractRegistry,
                    ),
                }),
                false => r == Err::<SystemContractRegistry, Error>(
                    Error::MissingSystemContractRegistry,
                ),
            }),
    {
        let tc = match self.tracking_copy(state_hash) {
            Some(tc) => tc,
            None => {
                return Err(Error::RootNotFound(state_hash));
            },
        };
        match tc.read(Key::SystemContractRegistry) {
            Some(StoredValue::Registry(reg)) => Ok(reg),
            _ => Err(Error::MissingSystemContractRegistry),
        }
    }

    /// Returns the mint system contract hash.
    pub fn get_system_mint_hash(&self, state_hash: u64) -> (r: Result<Addr, Error>)
        ensures
            r matches Ok(a) ==> ({
                &&& self.state.has_root(state_hash)
                &&& self.state.root_map(state_hash)[Key::SystemContractRegistry] matches ValueV::Registry(reg)
                &&& reg.mint == a
            }),
            (self.state.has_root(state_hash) && crate::execution::spec_registry(
                self.state.root_map(state_hash),
            ) is Some) ==> r is Ok,
    {
        match self.get_system_contract_registry(state_hash) {
            Ok(reg) => Ok(reg.mint),
            Err(e) => Err(e),
        }
    }

    /// Returns the auction system contract hash.
    pub fn get_system_auction_hash(&self, state_hash: u64) -> (r: Result<Addr, Error>)
        ensures
            r matches Ok(a) ==> ({
                &&& self.state.has_root(state_hash)
                &&& self.state.root_map(state_hash)[Key::SystemContractRegistry] matches ValueV::Registry(reg)
                &&& reg.auction == a
            }),
            (self.state.has_root(state_hash) && crate::execution::spec_registry(
                self.state.root_map(state_hash),
            ) is Some) ==> r is Ok,
    {
        match self.get_system_contract_registry(state_hash) {
            Ok(reg) => Ok(reg.auction),
            Err(e) => Err(e),
        }
    }

    /// Returns the handle payment system contract hash.
    pub fn get_handle_payment_hash(&self, state_hash: u64) -> (r: Result<Addr, Error>)
        ensures
            r matches Ok(a) ==> ({
                &&& self.state.has_root(state_hash)
                &&& self.state.root_map(state_hash)[Key::SystemContractRegistry] matches ValueV::Registry(reg)
                &&& reg.handle_payment == a
            }),
            (self.state.has_root(state_hash) && crate::execution::spec_registry(
                self.state.root_map(state_hash),
            ) is Some) ==> r is Ok,
    {
        match self.get_system_contract_registry(state_hash) {
            Ok(reg) => Ok(reg.handle_payment),
            Err(e) => Err(e),
        }
    }

    /// Returns the checksum registry at the given state root hash, if any.
    pub fn get_checksum_registry(&self, state_hash: u64) -> (r: Result<
        Option<ChecksumRegistry>,
        Error,
    >)
        ensures
            !self.state.has_root(state_hash) ==> r == Err::<Option<ChecksumRegistry>, Error>(
                Error::RootNotFound(state_hash),
            ),
            self.state.has_root(state_hash) ==> (match self.state.root_map(state_hash).contains_key(
                Key::ChecksumRegistry,
            ) {
                true => (match self.state.root_map(state_hash)[Key::ChecksumRegistry] {
                    ValueV::Checksums(c) => r == Ok::<Option<ChecksumRegistry>, Error>(Some(c)),
                    _ => r is Err,
                }),
                false => r == Ok::<Option<ChecksumRegistry>, Error>(None),
            }),
    {
        let tc = match self.tracking_copy(state_hash) {
            Some(tc) => tc,
            None => {
                return Err(Error::RootNotFound(state_hash));
            },
        };
        match tc.read(Key::ChecksumRegistry) {
            Some(StoredValue::Checksums(c)) => Ok(Some(c)),
            Some(_) => Err(Error::MissingChecksumRegistry),
            None => Ok(None),
        }
    }

    /// Obtains the validator sets of the upcoming eras: the seigniorage
    /// snapshot at `state_hash`.
    pub fn get_era_validators(&self, state_hash: u64) -> (r: Result<SeigniorageSnapshot, Error>)
        ensures
            !self.state.has_root(state_hash) ==> r == Err::<SeigniorageSnapshot, Error>(
                Error::RootNotFound(state_hash),
            ),
            r matches Ok(snap) ==> ({
                &&& self.state.has_root(state_hash)
                &&& self.state.root_map(state_hash).contains_key(Key::SeigniorageSnapshot)
                &&& self.state.root_map(state_hash)[Key::SeigniorageSnapshot] == ValueV::Snapshot(snap@)
            }),
            (self.state.has_root(state_hash) && self.state.root_map(state_hash).contains_key(
                Key::SeigniorageSnapshot,
            ) && self.state.root_map(state_hash)[Key::SeigniorageSnapshot] is Snapshot) ==> r
                is Ok,
    {
        let tc = match self.tracking_copy(state_hash) {
            Some(tc) => tc,
            None => {
                return Err(Error::RootNotFound(state_hash));
            },
        };
        match tc.read(Key::SeigniorageSnapshot) {
            Some(StoredValue::Snapshot(s)) => Ok(s),
            _ => Err(Error::MissingSystemContractRegistry),
        }
    }

    /// Gets the balance of a given public key's account: the account record
    /// resolves to its entity, the entity to its main purse, the purse to
    /// its balance.
    pub fn get_balance(&self, state_hash: u64, public_key: Addr) -> (r: Result<
        BalanceResult,
        Error,
    >)
        ensures
            !self.state.has_root(state_hash) ==> r == Ok::<BalanceResult, Error>(
                BalanceResult::RootNotFound,
            ),
            r matches Ok(BalanceResult::Success { motes }) ==> ({
                let m = self.state.root_map(state_hash);
                &&& crate::execution::spec_main_purse(m, public_key) matches Some(p)
                &&& crate::execution::spec_balance(m, p) == Some(motes)
            }),
            self.state.has_root(state_hash) ==> (match crate::execution::spec_main_purse(
                self.state.root_map(state_hash),
                public_key,
            ) {
                Some(p) => crate::execution::spec_balance(self.state.root_map(state_hash), p)
                    is Some ==> r matches Ok(BalanceResult::Success { .. }),
                None => true,
            }),
    {
        let tc = match self.tracking_copy(state_hash) {
            Some(tc) => tc,
            None => {
                return Ok(BalanceResult::RootNotFound);
            },
        };
        proof {
            assert(forall|k: Key| !crate::tracking_copy::ov_contains_key(tc.ov(), k));
        }
        let main_purse = match tc.read(Key::Account(public_key)) {
            Some(StoredValue::Key(entity_key)) => match tc.read(entity_key) {
                Some(StoredValue::Entity(entity)) => entity.main_purse,
                _ => {
                    return Err(Error::InvalidKeyVariant);
                },
            },
            Some(StoredValue::Account(account)) => account.main_purse,
            _ => {
                return Err(Error::InvalidKeyVariant);
            },
        };
        match crate::mint::read_balance(&tc, main_purse) {
            Ok(motes) => Ok(BalanceResult::Success { motes }),
            Err(e) => Err(Error::Exec(e)),
        }
    }

    /// Gets the current bids from the auction system: exactly the values of
    /// the well-formed bid records present at `state_hash`.
    pub fn get_bids(&self, state_hash: u64) -> (r: Result<Vec<BidKind>, Error>)
        ensures
            !self.state.has_root(state_hash) ==> r == Err::<Vec<BidKind>, Error>(
                Error::RootNotFound(state_hash),
            ),
            self.state.has_root(state_hash) ==> r is Ok,
            r matches Ok(bids) ==> ({
                let m = self.state.root_map(state_hash);
                &&& forall|j: int|
                    0 <= j < bids@.len() ==> exists|a: Addr|
                        #[trigger] spec_bid_record(m, a) == Some(#[trigger] bids@[j])
                &&& forall|a: Addr|
                    (match #[trigger] spec_bid_record(m, a) {
                        Some(b) => bids@.contains(b),
                        None => true,
                    })
            }),
    {
        let tc = match self.tracking_copy(state_hash) {
            Some(tc) => tc,
            None => {
                return Err(Error::RootNotFound(state_hash));
            },
        };
        let ghost m = self.state.root_map(state_hash);
        proof {
            assert(forall|k: Key| !crate::tracking_copy::ov_contains_key(tc.ov(), k));
        }
        let keys = tc.get_keys(KeyTag::BidAddr);
        let mut bids: Vec<BidKind> = Vec::new();
        let mut i: usize = 0;
        while i < keys.len()
            invariant
                i <= keys.len(),
                tc.wf(),
                tc.ov().len() == 0,
                tc.reader_map() == m,
                forall|k: Key|
                    keys@.contains(k) <==> (crate::tracking_copy::tag_matches(
                        k,
                        KeyTag::BidAddr,
                    ) && (#[trigger] tc.spec_read(k)) is Some),
                forall|j: int|
                    0 <= j < bids@.len() ==> exists|a: Addr|
                        #[trigger] spec_bid_record(m, a) == Some(#[trigger] bids@[j]),
                forall|j: int|
                    0 <= j < i ==> (match #[trigger] keys@[j] {
                        Key::BidAddr(a) => (match spec_bid_record(m, a) {
                            Some(b) => bids@.contains(b),
                            None => true,
                        }),
                        _ => true,
                    }),
            decreases keys.len() - i,
        {
            proof {
                assert(forall|k: Key| !crate::tracking_copy::ov_contains_key(tc.ov(), k));
            }
            let ghost before = bids@;
            match tc.read(keys[i]) {
                Some(StoredValue::BidKind(b)) => {
                    proof {
                        assert(tc.spec_read(keys@[i as int]) == Some(ValueV::BidKind(b)));
                        match keys@[i as int] {
                            Key::BidAddr(a) => {
                                assert(spec_bid_record(m, a) == Some(b));
                            },
                            _ => {},
                        }
                    }
                    bids.push(b);
                    proof {
                        assert(forall|j: int|
                            0 <= j < before.len() ==> bids@[j] == #[trigger] before[j]);
                        assert(bids@[before.len() as int] == b);
                        assert(bids@.contains(b)) by {
                            assert(bids@[before.len() as int] == b);
                        }
                        assert(forall|x: BidKind|
                            before.contains(x) ==> #[trigger] bids@.contains(x)) by {
                            assert(forall|j: int|
                                0 <= j < before.len() ==> bids@[j] == #[trigger] before[j]);
                        }
                    }
                },
                _ => {},
            }
            i = i + 1;
        }
        proof {
            assert forall|a: Addr| true implies (match #[trigger] spec_bid_record(m, a) {
                Some(b) => bids@.contains(b),
                None => true,
            }) by {
                match spec_bid_record(m, a) {
                    Some(b) => {
                        assert(tc.spec_read(Key::BidAddr(a)) == Some(ValueV::BidKind(b)));
                        assert(keys@.contains(Key::BidAddr(a)));
                        let j = choose|j: int|
                            0 <= j < keys@.len() && keys@[j] == Key::BidAddr(a);
                        assert(keys@[j] == Key::BidAddr(a));
                    },
                    None => {},
                }
            }
        }
        Ok(bids)
    }

    /// Executes a step request: at the era boundary, slash the listed
    /// validators, run the auction to rotate the validator set — evicting
    /// the evict list — and commit.  A failure in any sub-step aborts the
    /// era transition; no state is committed on failure.
    pub fn commit_step(&mut self, step_request: StepRequest) -> (r: Result<StepSuccess, StepError>)
        requires
            old(self).state.spec_root_count() < u64::MAX,
        ensures
            final(self).config == old(self).config,
            !old(self).state.has_root(step_request.pre_state_hash) ==> ({
                &&& r matches Err(StepError::RootNotFound(h))
                &&& h == step_request.pre_state_hash
                &&& final(self).state == old(self).state
            }),
            r is Err ==> final(self).state == old(self).state,
            r matches Err(StepError::RootNotFound(_)) ==> !old(self).state.has_root(
                step_request.pre_state_hash,
            ),
            r is Err ==> (r matches Err(StepError::RootNotFound(_)) || r matches Err(
                StepError::AuctionError(_),
            )),
            r matches Err(StepError::AuctionError(_)) ==> ({
                let m = old(self).state.root_map(step_request.pre_state_hash);
                &&& m.contains_key(Key::SeigniorageSnapshot)
                &&& !(m[Key::SeigniorageSnapshot] is Snapshot)
            }),
            (old(self).state.has_root(step_request.pre_state_hash) && (match old(
                self,
            ).state.root_map(step_request.pre_state_hash).contains_key(Key::SeigniorageSnapshot) {
                true => old(self).state.root_map(step_request.pre_state_hash)[
                    Key::SeigniorageSnapshot] is Snapshot,
                false => true,
            })) ==> r is Ok,
            r matches Ok(s) ==> ({
                &&& final(self).state.has_root(s.post_state_hash)
                &&& final(self).state.root_map(s.post_state_hash).contains_key(
                    Key::SeigniorageSnapshot,
                )
                &&& final(self).state.root_map(s.post_state_hash)[Key::SeigniorageSnapshot]
                    matches ValueV::Snapshot(snap)
                &&& snap.eras.len() >= 1
                &&& snap.eras.last().era_id == step_request.next_era_id
                &&& forall|a: Addr|
                    step_request.evict_items@.contains(a) || step_request.slashed_validators@
                        .contains(a) ==> !era_has_validator(snap.eras.last(), a)
                &&& forall|a: Addr|
                    step_request.slashed_validators@.contains(a)
                        ==> !final(self).state.root_map(s.post_state_hash).contains_key(
                        Key::BidAddr(a),
                    )
                &&& forall|a: Addr|
                    step_request.evict_items@.contains(a) ==> (match final(self).state.root_map(s.post_state_hash).contains_key(Key::BidAddr(a)) {
                        true => (match final(self).state.root_map(s.post_state_hash)[
                            Key::BidAddr(a)] {
                            ValueV::BidKind(BidKind::Validator(vb)) => vb.inactive,
                            _ => true,
                        }),
                        false => true,
                    })
            }),
    {
        let tc = match self.tracking_copy(step_request.pre_state_hash) {
            Some(tc) => tc,
            None => {
                return Err(StepError::RootNotFound(step_request.pre_state_hash));
            },
        };
        let mut tc = tc;
        auction::slash(&mut tc, &step_request.slashed_validators);
        // Mark the evicted validators' bids inactive: an evicted stake is
        // never silently carried forward at tip.
        proof {
            assert(tc.spec_read(Key::SeigniorageSnapshot) == (if old(self).state.root_map(
                step_request.pre_state_hash,
            ).contains_key(Key::SeigniorageSnapshot) {
                Some(
                    old(self).state.root_map(step_request.pre_state_hash)[
                        Key::SeigniorageSnapshot],
                )
            } else {
                None
            }));
        }
        let mut d: usize = 0;
        while d < step_request.evict_items.len()
            invariant
                d <= step_request.evict_items.len(),
                tc.wf(),
                tc.reader_map() == old(self).state.root_map(step_request.pre_state_hash),
                tc.spec_read(Key::SeigniorageSnapshot) == (if old(self).state.root_map(
                    step_request.pre_state_hash,
                ).contains_key(Key::SeigniorageSnapshot) {
                    Some(
                        old(self).state.root_map(step_request.pre_state_hash)[
                            Key::SeigniorageSnapshot],
                    )
                } else {
                    None
                }),
                forall|a: Addr|
                    step_request.slashed_validators@.contains(a) ==> (
                    #[trigger] tc.spec_read(Key::BidAddr(a))) is None,
                forall|j: int|
                    0 <= j < d ==> (match tc.spec_read(
                        Key::BidAddr(#[trigger] step_request.evict_items@[j]),
                    ) {
                        Some(ValueV::BidKind(BidKind::Validator(vb))) => vb.inactive,
                        _ => true,
                    }),
            decreases step_request.evict_items.len() - d,
        {
            let v = step_request.evict_items[d];
            match tc.read(Key::BidAddr(v)) {
                Some(StoredValue::BidKind(BidKind::Validator(vb))) => {
                    if !vb.inactive {
                        tc.write(
                            Key::BidAddr(v),
                            StoredValue::BidKind(
                                BidKind::Validator(
                                    ValidatorBid {
                                        validator: vb.validator,
                                        stake: vb.stake,
                                        inactive: true,
                                    },
                                ),
                            ),
                        );
                    }
                },
                _ => {},
            }
            d = d + 1;
        }
        proof {
            assert forall|a: Addr| step_request.evict_items@.contains(a) implies (match
                tc.spec_read(Key::BidAddr(a)) {
                Some(ValueV::BidKind(BidKind::Validator(vb))) => vb.inactive,
                _ => true,
            }) by {
                let j = choose|j: int|
                    0 <= j < step_request.evict_items@.len() && step_request.evict_items@[j] == a;
                assert(step_request.evict_items@[j] == a);
            }
        }
        match auction::run_auction(&mut tc, &step_request.evict_items, step_request.next_era_id) {
            Ok(()) => {},
            Err(e) => {
                return Err(StepError::AuctionError(e));
            },
        }
        proof {
            assert forall|a: Addr|
                step_request.slashed_validators@.contains(a) implies tc.spec_read(
                Key::BidAddr(a),
            ) is None by {
            }
        }
        let effects = tc.effects();
        proof {
            tc.lemma_overlay_effects_apply();
        }
        let post_state_hash = match self.state.commit(step_request.pre_state_hash, &effects) {
            Ok(h) => h,
            Err(_) => {
                proof {
                    assert(false);
                }
                return Err(StepError::CommitError);
            },
        };
        proof {
            let m = self.state.root_map(post_state_hash);
            assert(tc.spec_read(Key::SeigniorageSnapshot) is Some);
            assert(m.contains_key(Key::SeigniorageSnapshot));
            assert forall|a: Addr|
                step_request.slashed_validators@.contains(a) implies !m.contains_key(
                Key::BidAddr(a),
            ) by {
                assert(tc.spec_read(Key::BidAddr(a)) is None);
            }
        }
        Ok(StepSuccess { post_state_hash, effects })
    }

    /// Distributes era rewards to the listed validators' bids, after first
    /// distributing any accumulated fees, and commits.
    pub fn distribute_block_rewards(
        &mut self,
        pre_state_hash: u64,
        rewards: &Vec<(Addr, u128)>,
    ) -> (r: Result<u64, StepError>)
        requires
            old(self).state.spec_root_count() < u64::MAX,
            forall|i: int, j: int|
                0 <= i < j < rewards@.len() ==> (#[trigger] rewards@[i]).0 != (
                #[trigger] rewards@[j]).0,
        ensures
            final(self).config == old(self).config,
            !old(self).state.has_root(pre_state_hash) ==> ({
                &&& r matches Err(StepError::RootNotFound(h))
                &&& h == pre_state_hash
                &&& final(self).state == old(self).state
            }),
            r is Err ==> final(self).state == old(self).state,
            r matches Err(StepError::RootNotFound(_)) ==> !old(self).state.has_root(
                pre_state_hash,
            ),
            (old(self).config.fee_handling != crate::config::FeeHandling::Accumulate && r is Err)
                ==> (r matches Err(StepError::RootNotFound(_)) || r matches Err(
                StepError::DistributeError(_),
            )),
            r is Err ==> (r matches Err(StepError::RootNotFound(_)) || r matches Err(
                StepError::DistributeAccumulatedFeesError(_),
            ) || r matches Err(StepError::DistributeError(_))),
            r matches Err(StepError::DistributeAccumulatedFeesError(_)) ==> old(
                self,
            ).config.fee_handling == crate::config::FeeHandling::Accumulate,
            ({
                &&& old(self).state.has_root(pre_state_hash)
                &&& old(self).config.fee_handling != crate::config::FeeHandling::Accumulate
                &&& crate::auction::spec_rewards_payable_map(
                    old(self).state.root_map(pre_state_hash),
                    rewards@,
                )
            }) ==> r is Ok,
            r matches Ok(h) ==> ({
                &&& final(self).state.has_root(h)
                &&& forall|i: int|
                    0 <= i < rewards@.len() ==> ({
                        let a = (#[trigger] rewards@[i]).0;
                        final(self).state.root_map(h).contains_key(Key::BidAddr(a))
                    })
                &&& (old(self).config.fee_handling != crate::config::FeeHandling::Accumulate
                    ==> forall|i: int|
                    0 <= i < rewards@.len() ==> ({
                        let a = (#[trigger] rewards@[i]).0;
                        &&& crate::auction::spec_bid_stake(
                            old(self).state.root_map(pre_state_hash),
                            a,
                        ) matches Some(st)
                        &&& st + rewards@[i].1 <= u128::MAX
                        &&& crate::auction::spec_bid_stake(final(self).state.root_map(h), a)
                            == Some((st + rewards@[i].1) as u128)
                    }))
            }),
    {
        let tc = match self.tracking_copy(pre_state_hash) {
            Some(tc) => tc,
            None => {
                return Err(StepError::RootNotFound(pre_state_hash));
            },
        };
        let mut tc = tc;
        let ghost tc0 = tc;
        // In accumulate mode, the accumulated fees are distributed to the
        // administrators before the era rewards.
        if matches!(self.config.fee_handling, crate::config::FeeHandling::Accumulate) {
            let accumulation = match tc.read(Key::SystemContractRegistry) {
                Some(StoredValue::Registry(reg)) => {
                    match tc.read(Key::NamedKey(reg.handle_payment, ACCUMULATION_PURSE_NAME)) {
                        Some(StoredValue::NamedKey(nk)) => match nk.key {
                            Key::Uref(p) => p,
                            _ => {
                                return Err(
                                    StepError::DistributeAccumulatedFeesError(
                                        Error::FailedToRetrieveAccumulationPurse,
                                    ),
                                );
                            },
                        },
                        _ => {
                            return Err(
                                StepError::DistributeAccumulatedFeesError(
                                    Error::FailedToRetrieveAccumulationPurse,
                                ),
                            );
                        },
                    }
                },
                _ => {
                    return Err(
                        StepError::DistributeAccumulatedFeesError(
                            Error::MissingSystemContractRegistry,
                        ),
                    );
                },
            };
            let mut admin_purses: Vec<Addr> = Vec::new();
            let mut a: usize = 0;
            while a < self.config.administrative_accounts.len()
                invariant
                    a <= self.config.administrative_accounts.len(),
                    old(self).state.has_root(pre_state_hash),
                    old(self).config.fee_handling == crate::config::FeeHandling::Accumulate,
                    *self == *old(self),
                    tc.wf(),
                    tc.reader_map() == old(self).state.root_map(pre_state_hash),
                    forall|i: int, j: int|
                        0 <= i < j < admin_purses@.len() ==> admin_purses@[i] != admin_purses@[j],
                    forall|i: int| 0 <= i < admin_purses@.len() ==> admin_purses@[i] != accumulation,
                decreases self.config.administrative_accounts.len() - a,
            {
                let admin = self.config.administrative_accounts[a];
                let purse = match tc.read(Key::Account(admin)) {
                    Some(StoredValue::Key(ek)) => match tc.read(ek) {
                        Some(StoredValue::Entity(e)) => e.main_purse,
                        _ => {
                            return Err(
                                StepError::DistributeAccumulatedFeesError(
                                    Error::MissingContractByAccountHash(admin),
                                ),
                            );
                        },
                    },
                    Some(StoredValue::Account(acct)) => acct.main_purse,
                    _ => {
                        return Err(
                            StepError::DistributeAccumulatedFeesError(
                                Error::MissingContractByAccountHash(admin),
                            ),
                        );
                    },
                };
                let mut seen = purse == accumulation;
                let mut i: usize = 0;
                while i < admin_purses.len()
                    invariant
                        i <= admin_purses.len(),
                        seen ==> (purse == accumulation || exists|j: int|
                            0 <= j < admin_purses@.len() && admin_purses@[j] == purse),
                        !seen ==> purse != accumulation && forall|j: int|
                            0 <= j < i ==> admin_purses@[j] != purse,
                    decreases admin_purses.len() - i,
                {
                    if admin_purses[i] == purse {
                        proof {
                            assert(admin_purses@[i as int] == purse);
                        }
                        seen = true;
                    }
                    i = i + 1;
                }
                if seen {
                    return Err(
                        StepError::DistributeAccumulatedFeesError(
                            Error::FailedToRetrieveAccumulationPurse,
                        ),
                    );
                }
                let ghost before = admin_purses@;
                admin_purses.push(purse);
                proof {
                    assert(forall|j: int|
                        0 <= j < before.len() ==> admin_purses@[j] == #[trigger] before[j]);
                    assert(admin_purses@[before.len() as int] == purse);
                }
                a = a + 1;
            }
            match crate::handle_payment::distribute_accumulated_fees(
                &mut tc,
                accumulation,
                &admin_purses,
            ) {
                Ok(()) => {},
                Err(e) => {
                    return Err(StepError::DistributeAccumulatedFeesError(Error::Exec(e)));
                },
            }
        }
        proof {
            if self.config.fee_handling != crate::config::FeeHandling::Accumulate
                && crate::auction::spec_rewards_payable_map(
                old(self).state.root_map(pre_state_hash),
                rewards@,
            ) {
                assert forall|i: int| 0 <= i < rewards@.len() implies (match
                    crate::auction::spec_validator_bid(tc, (#[trigger] rewards@[i]).0) {
                    Some(s) => s + rewards@[i].1 <= u128::MAX,
                    None => false,
                }) by {
                    assert(!crate::tracking_copy::ov_contains_key(
                        tc.ov(),
                        Key::BidAddr(rewards@[i].0),
                    ));
                }
                assert(crate::auction::spec_rewards_payable(tc, rewards@));
            }
        }
        match auction::distribute(&mut tc, rewards) {
            Ok(()) => {},
            Err(e) => {
                return Err(StepError::DistributeError(e));
            },
        }
        let effects = tc.effects();
        proof {
            tc.lemma_overlay_effects_apply();
        }
        let post_state_hash = match self.state.commit(pre_state_hash, &effects) {
            Ok(h) => h,
            Err(_) => {
                proof {
                    assert(false);
                }
                return Err(StepError::CommitError);
            },
        };
        proof {
            assert forall|i: int| 0 <= i < rewards@.len() implies ({
                let a = (#[trigger] rewards@[i]).0;
                self.state.root_map(post_state_hash).contains_key(Key::BidAddr(a))
            }) by {
                let a = rewards@[i].0;
                assert(crate::auction::spec_validator_bid(tc, a) is Some);
                assert(tc.spec_read(Key::BidAddr(a)) is Some);
            }
            if old(self).config.fee_handling != crate::config::FeeHandling::Accumulate {
                assert forall|i: int| 0 <= i < rewards@.len() implies ({
                    let a = (#[trigger] rewards@[i]).0;
                    &&& crate::auction::spec_bid_stake(
                        old(self).state.root_map(pre_state_hash),
                        a,
                    ) matches Some(st)
                    &&& st + rewards@[i].1 <= u128::MAX
                    &&& crate::auction::spec_bid_stake(
                        self.state.root_map(post_state_hash),
                        a,
                    ) == Some((st + rewards@[i].1) as u128)
                }) by {
                    let a = rewards@[i].0;
                    assert(!crate::tracking_copy::ov_contains_key(tc0.ov(), Key::BidAddr(a)));
                    assert(tc.spec_read(Key::BidAddr(a)) is Some);
                }
            }
        }
        Ok(post_state_hash)
    }
}

/// The name id of the validator-slots value among auction's named keys.
pub const VALIDATOR_SLOTS_NAME: u64 = 10;

/// The name id of the auction-delay value among auction's named keys.
pub const AUCTION_DELAY_NAME: u64 = 11;

/// The name id of the locked-funds-period value among auction's named keys.
pub const LOCKED_FUNDS_PERIOD_NAME: u64 = 12;

/// The name id of the unbonding-delay value among auction's named keys.
pub const UNBONDING_DELAY_NAME: u64 = 13;

/// The name id of the round seigniorage rate among mint's named keys.
pub const ROUND_SEIGNIORAGE_RATE_NAME: u64 = 14;

/// One account of the genesis configuration.
#[derive(Clone, Copy, PartialEq, Eq, Debug)]
pub struct GenesisAccount {
    pub account_hash: Addr,
    pub main_purse: Addr,
    pub balance: u128,
    pub stake: u128,
}

/// Whether the genesis accounts are pairwise distinct, with main purses
/// clear of the two system purses: the shape under which each account's
/// installed records survive the whole run untouched.
pub open spec fn spec_genesis_accounts_distinct(config: GenesisConfig) -> bool {
    &&& forall|x: int, y: int|
        0 <= x < y < config.accounts@.len() ==> ((#[trigger] config.accounts@[x]).main_purse != (
        #[trigger] config.accounts@[y]).main_purse && config.accounts@[x].account_hash
            != config.accounts@[y].account_hash)
    &&& forall|x: int|
        0 <= x < config.accounts@.len() ==> ((#[trigger] config.accounts@[x]).main_purse
            != config.payment_purse && config.accounts@[x].main_purse
            != config.accumulation_purse)
}

/// The chain-wide configuration a genesis run installs.
pub struct GenesisConfig {
    pub mint_hash: Addr,
    pub auction_hash: Addr,
    pub handle_payment_hash: Addr,
    pub payment_purse: Addr,
    pub accumulation_purse: Addr,
    pub accounts: Vec<GenesisAccount>,
    pub initial_era_id: u64,
    pub round_seigniorage_rate: (u64, u64),
    pub validator_slots: u64,
}

/// An upgrade request.
pub struct UpgradeConfig {
    pub pre_state_hash: u64,
    pub current_protocol_version: u64,
    pub new_protocol_version: u64,
    pub new_validator_slots: Option<u64>,
    pub new_auction_delay: Option<u64>,
    pub new_locked_funds_period_millis: Option<u64>,
    pub new_round_seigniorage_rate: Option<(u64, u64)>,
    pub new_unbonding_delay: Option<u64>,
    pub global_state_update: Vec<(Key, StoredValue)>,
    pub activation_point: Option<u64>,
}

impl EngineState {
    /// Commits the genesis process: run once per network, it installs the
    /// system contract registry and its purses, the genesis accounts with
    /// their balances and bids, the auction configuration, and the first
    /// seigniorage snapshot, all onto the empty root.
    pub fn commit_genesis(&mut self, config: &GenesisConfig) -> (r: Result<GenesisSuccess, Error>)
        requires
            old(self).state.spec_root_count() < u64::MAX,
            old(self).state.has_root(0),
            config.round_seigniorage_rate.1 > 0,
        ensures
            final(self).config == old(self).config,
            r is Err ==> final(self).state == old(self).state,
            !old(self).state.root_map(0).contains_key(Key::SeigniorageSnapshot) ==> r is Ok,
            r matches Ok(g) ==> ({
                &&& final(self).state.has_root(g.post_state_hash)
                &&& final(self).state.root_map(g.post_state_hash).contains_key(
                    Key::SystemContractRegistry,
                )
                &&& final(self).state.root_map(g.post_state_hash).contains_key(
                    Key::SeigniorageSnapshot,
                )
                &&& (crate::store::apply_all(old(self).state.root_map(0), g.effects@)
                    matches Some(mm) && final(self).state.root_map(g.post_state_hash) == mm)
                &&& (spec_genesis_accounts_distinct(*config) ==> forall|i: int|
                    0 <= i < config.accounts@.len() ==> ({
                        let a = #[trigger] config.accounts@[i];
                        let m2 = final(self).state.root_map(g.post_state_hash);
                        &&& m2.contains_key(Key::Balance(a.main_purse))
                        &&& m2[Key::Balance(a.main_purse)] == ValueV::Amount(a.balance)
                        &&& m2.contains_key(Key::Account(a.account_hash))
                        &&& (a.stake > 0 ==> crate::auction::spec_bid_stake(m2, a.account_hash)
                            == Some(a.stake))
                    }))
            }),
    {
        let initial_root = self.state.empty_root();
        let store = match self.state.checkout(initial_root) {
            Some(s) => s,
            None => {
                return Err(Error::RootNotFound(initial_root));
            },
        };
        let mut tc = TrackingCopy::new(store, self.config.max_query_depth);
        let registry = SystemContractRegistry {
            mint: config.mint_hash,
            auction: config.auction_hash,
            handle_payment: config.handle_payment_hash,
            standard_payment: None,
        };
        tc.write(Key::SystemContractRegistry, StoredValue::Registry(registry));
        tc.write(
            Key::NamedKey(config.handle_payment_hash, PAYMENT_PURSE_NAME),
            StoredValue::NamedKey(
                crate::values::NamedKeyEntry {
                    name: PAYMENT_PURSE_NAME,
                    key: Key::Uref(config.payment_purse),
                },
            ),
        );
        tc.write(Key::Balance(config.payment_purse), StoredValue::Amount(0));
        tc.write(
            Key::NamedKey(config.handle_payment_hash, ACCUMULATION_PURSE_NAME),
            StoredValue::NamedKey(
                crate::values::NamedKeyEntry {
                    name: ACCUMULATION_PURSE_NAME,
                    key: Key::Uref(config.accumulation_purse),
                },
            ),
        );
        tc.write(Key::Balance(config.accumulation_purse), StoredValue::Amount(0));
        tc.write(
            Key::NamedKey(config.auction_hash, VALIDATOR_SLOTS_NAME),
            StoredValue::U64(config.validator_slots),
        );
        let (rn, rd) = crate::ratio::reduce_ratio(
            config.round_seigniorage_rate.0,
            config.round_seigniorage_rate.1,
        );
        tc.write(
            Key::NamedKey(config.mint_hash, ROUND_SEIGNIORAGE_RATE_NAME),
            StoredValue::Ratio(crate::values::Ratio64 { numer: rn, denom: rd }),
        );
        let mut generator = crate::execution::AddressGenerator::new(0);
        let mut i: usize = 0;
        while i < config.accounts.len()
            invariant
                i <= config.accounts.len(),
                tc.wf(),
                tc.reader_map() == old(self).state.root_map(0),
                tc.spec_read(Key::SystemContractRegistry) is Some,
                !old(self).state.root_map(0).contains_key(Key::SeigniorageSnapshot)
                    ==> tc.spec_read(Key::SeigniorageSnapshot) is None,
                spec_genesis_accounts_distinct(*config) ==> forall|j: int|
                    0 <= j < i ==> ({
                        let a = #[trigger] config.accounts@[j];
                        &&& tc.spec_read(Key::Balance(a.main_purse)) == Some(
                            ValueV::Amount(a.balance),
                        )
                        &&& tc.spec_read(Key::Account(a.account_hash)) is Some
                        &&& (a.stake > 0 ==> (match tc.spec_read(Key::BidAddr(a.account_hash)) {
                            Some(ValueV::BidKind(BidKind::Validator(vb))) => vb.validator
                                == a.account_hash && vb.stake == a.stake,
                            _ => false,
                        }))
                    }),
            decreases config.accounts.len() - i,
        {
            let acct = config.accounts[i];
            let entity_addr = generator.new_hash_address();
            let entity = crate::values::AddressableEntity {
                package_hash: 0,
                byte_code_hash: 0,
                main_purse: acct.main_purse,
                associated_keys: vec![
                    crate::values::AssociatedKey { account: acct.account_hash, weight: 1 },
                ],
                action_thresholds: crate::values::ActionThresholds {
                    deployment: 1,
                    key_management: 1,
                },
                kind: crate::values::EntityKind::Account(acct.account_hash),
            };
            tc.write(Key::Entity(entity_addr), StoredValue::Entity(entity));
            tc.write(Key::Account(acct.account_hash), StoredValue::Key(Key::Entity(entity_addr)));
            tc.write(Key::Balance(acct.main_purse), StoredValue::Amount(acct.balance));
            if acct.stake > 0 {
                tc.write(
                    Key::BidAddr(acct.account_hash),
                    StoredValue::BidKind(
                        BidKind::Validator(
                            ValidatorBid { validator: acct.account_hash, stake: acct.stake, inactive: false },
                        ),
                    ),
                );
            }
            i = i + 1;
        }
        let no_evictions: Vec<Addr> = Vec::new();
        match auction::run_auction(&mut tc, &no_evictions, config.initial_era_id) {
            Ok(()) => {},
            Err(e) => {
                return Err(e);
            },
        }
        let effects = tc.effects();
        proof {
            tc.lemma_overlay_effects_apply();
        }
        let post_state_hash = match self.state.commit(initial_root, &effects) {
            Ok(h) => h,
            Err(_) => {
                return Err(Error::CommitError);
            },
        };
        proof {
            assert(tc.spec_read(Key::SystemContractRegistry) is Some);
            assert(tc.spec_read(Key::SeigniorageSnapshot) is Some);
            if spec_genesis_accounts_distinct(*config) {
                let m2 = self.state.root_map(post_state_hash);
                assert forall|i: int| 0 <= i < config.accounts@.len() implies ({
                    let a = #[trigger] config.accounts@[i];
                    &&& m2.contains_key(Key::Balance(a.main_purse))
                    &&& m2[Key::Balance(a.main_purse)] == ValueV::Amount(a.balance)
                    &&& m2.contains_key(Key::Account(a.account_hash))
                    &&& (a.stake > 0 ==> crate::auction::spec_bid_stake(m2, a.account_hash)
                        == Some(a.stake))
                }) by {
                    let a = config.accounts@[i];
                    assert(tc.spec_read(Key::Balance(a.main_purse)) == Some(
                        ValueV::Amount(a.balance),
                    ));
                    assert(tc.spec_read(Key::Account(a.account_hash)) is Some);
                    if a.stake > 0 {
                        assert(tc.spec_read(Key::BidAddr(a.account_hash)) matches Some(
                            ValueV::BidKind(BidKind::Validator(vb)),
                        ) && vb.validator == a.account_hash && vb.stake == a.stake);
                    }
                }
            }
        }
        Ok(GenesisSuccess { post_state_hash, effects })
    }

    /// Commits an upgrade: validates the protocol-version step, updates the
    /// auction and mint configuration values, migrates legacy bid records to
    /// their current form — pruning the legacy records and dropping
    /// empty-staked bids — applies the accepted global-state updates, and
    /// records the era summary of the activation point's predecessor.
    pub fn commit_upgrade(&mut self, upgrade_config: &UpgradeConfig) -> (r: Result<
        UpgradeSuccess,
        Error,
    >)
        requires
            old(self).state.spec_root_count() < u64::MAX,
        ensures
            final(self).config == old(self).config,
            r is Err ==> final(self).state == old(self).state,
            upgrade_config.new_protocol_version <= upgrade_config.current_protocol_version ==> r
                == Err::<UpgradeSuccess, Error>(Error::InvalidProtocolVersion),
            ({
                &&& upgrade_config.new_protocol_version > upgrade_config.current_protocol_version
                &&& old(self).state.has_root(upgrade_config.pre_state_hash)
                &&& crate::execution::spec_registry(
                    old(self).state.root_map(upgrade_config.pre_state_hash),
                ) is Some
                &&& (upgrade_config.new_round_seigniorage_rate matches Some(pair) ==> pair.1 > 0)
            }) ==> r is Ok,
            (upgrade_config.new_protocol_version > upgrade_config.current_protocol_version && !old(
                self,
            ).state.has_root(upgrade_config.pre_state_hash)) ==> r == Err::<UpgradeSuccess, Error>(
                Error::RootNotFound(upgrade_config.pre_state_hash),
            ),
            r matches Ok(u) ==> ({
                let m2 = final(self).state.root_map(u.post_state_hash);
                let m = old(self).state.root_map(upgrade_config.pre_state_hash);
                &&& final(self).state.has_root(u.post_state_hash)
                &&& (crate::execution::spec_registry(m) matches Some(reg) ==> ({
                    &&& (match upgrade_config.new_validator_slots {
                        Some(v) => (forall|i: int|
                            0 <= i < upgrade_config.global_state_update@.len() ==> (
                            #[trigger] upgrade_config.global_state_update@[i]).0 != Key::NamedKey(
                                reg.auction,
                                VALIDATOR_SLOTS_NAME,
                            )) ==> m2[Key::NamedKey(reg.auction, VALIDATOR_SLOTS_NAME)]
                            == ValueV::U64(v),
                        None => true,
                    })
                    &&& (match upgrade_config.new_round_seigniorage_rate {
                        Some(pair) => (pair.1 > 0 && (forall|i: int|
                            0 <= i < upgrade_config.global_state_update@.len() ==> (
                            #[trigger] upgrade_config.global_state_update@[i]).0 != Key::NamedKey(
                                reg.mint,
                                ROUND_SEIGNIORAGE_RATE_NAME,
                            ))) ==> (m2[Key::NamedKey(reg.mint, ROUND_SEIGNIORAGE_RATE_NAME)]
                            matches ValueV::Ratio(rat) && rat.denom > 0 && rat.numer * pair.1
                            == rat.denom * pair.0),
                        None => true,
                    })
                }))
            }),
    {
        if upgrade_config.new_protocol_version <= upgrade_config.current_protocol_version {
            return Err(Error::InvalidProtocolVersion);
        }
        let mut tc = match self.tracking_copy(upgrade_config.pre_state_hash) {
            Some(tc) => tc,
            None => {
                return Err(Error::RootNotFound(upgrade_config.pre_state_hash));
            },
        };
        proof {
            if crate::execution::spec_registry(
                old(self).state.root_map(upgrade_config.pre_state_hash),
            ) is Some {
                assert(tc.spec_read(Key::SystemContractRegistry) matches Some(
                    ValueV::Registry(_),
                ));
            }
        }
        let reg = match tc.read(Key::SystemContractRegistry) {
            Some(StoredValue::Registry(reg)) => reg,
            _ => {
                return Err(Error::MissingSystemContractRegistry);
            },
        };
        if let Some(v) = upgrade_config.new_validator_slots {
            tc.write(Key::NamedKey(reg.auction, VALIDATOR_SLOTS_NAME), StoredValue::U64(v));
        }
        if let Some(v) = upgrade_config.new_auction_delay {
            tc.write(Key::NamedKey(reg.auction, AUCTION_DELAY_NAME), StoredValue::U64(v));
        }
        if let Some(v) = upgrade_config.new_locked_funds_period_millis {
            tc.write(Key::NamedKey(reg.auction, LOCKED_FUNDS_PERIOD_NAME), StoredValue::U64(v));
        }
        if let Some((rn, rd)) = upgrade_config.new_round_seigniorage_rate {
            if rd == 0 {
                return Err(Error::Deploy);
            }
            let (n2, d2) = crate::ratio::reduce_ratio(rn, rd);
            tc.write(
                Key::NamedKey(reg.mint, ROUND_SEIGNIORAGE_RATE_NAME),
                StoredValue::Ratio(crate::values::Ratio64 { numer: n2, denom: d2 }),
            );
        }
        // One-time migration of legacy bid records to their current form;
        // empty-staked bids are not carried forward.
        let legacy_keys = tc.get_keys(crate::tracking_copy::KeyTag::Bid);
        let mut i: usize = 0;
        while i < legacy_keys.len()
            invariant
                i <= legacy_keys.len(),
                tc.wf(),
                tc.reader_map() == old(self).state.root_map(upgrade_config.pre_state_hash),
                (match upgrade_config.new_validator_slots {
                    Some(v) => tc.spec_read(Key::NamedKey(reg.auction, VALIDATOR_SLOTS_NAME))
                        == Some(ValueV::U64(v)),
                    None => true,
                }),
                (match upgrade_config.new_round_seigniorage_rate {
                    Some(pair) => pair.1 > 0 ==> (tc.spec_read(
                        Key::NamedKey(reg.mint, ROUND_SEIGNIORAGE_RATE_NAME),
                    ) matches Some(ValueV::Ratio(rat)) && rat.denom > 0 && rat.numer * pair.1
                        == rat.denom * pair.0),
                    None => true,
                }),
            decreases legacy_keys.len() - i,
        {
            match legacy_keys[i] {
                Key::Bid(validator) => {
                    match tc.read(Key::Bid(validator)) {
                        Some(StoredValue::Bid(bid)) => {
                            tc.prune(Key::Bid(validator));
                            if bid.stake > 0 {
                                tc.write(
                                    Key::BidAddr(bid.validator),
                                    StoredValue::BidKind(
                                        BidKind::Validator(
                                            ValidatorBid {
                                                validator: bid.validator,
                                                stake: bid.stake,
                                                inactive: false,
                                            },
                                        ),
                                    ),
                                );
                                let mut j: usize = 0;
                                while j < bid.delegators.len()
                                    invariant
                                        j <= bid.delegators.len(),
                                        tc.wf(),
                                        tc.reader_map() == old(self).state.root_map(
                                            upgrade_config.pre_state_hash,
                                        ),
                                        (match upgrade_config.new_validator_slots {
                    Some(v) => tc.spec_read(Key::NamedKey(reg.auction, VALIDATOR_SLOTS_NAME))
                        == Some(ValueV::U64(v)),
                    None => true,
                }),
                                        (match upgrade_config.new_round_seigniorage_rate {
                    Some(pair) => pair.1 > 0 ==> (tc.spec_read(
                        Key::NamedKey(reg.mint, ROUND_SEIGNIORAGE_RATE_NAME),
                    ) matches Some(ValueV::Ratio(rat)) && rat.denom > 0 && rat.numer * pair.1
                        == rat.denom * pair.0),
                    None => true,
                }),
                                    decreases bid.delegators.len() - j,
                                {
                                    let d = bid.delegators[j];
                                    if d.stake > 0 {
                                        tc.write(
                                            Key::BidAddr(d.delegator),
                                            StoredValue::BidKind(BidKind::Delegator(d)),
                                        );
                                    }
                                    j = j + 1;
                                }
                            }
                        },
                        _ => {},
                    }
                },
                _ => {},
            }
            i = i + 1;
        }
        // Apply the accepted global-state updates.
        let mut i: usize = 0;
        while i < upgrade_config.global_state_update.len()
            invariant
                i <= upgrade_config.global_state_update.len(),
                tc.wf(),
                tc.reader_map() == old(self).state.root_map(upgrade_config.pre_state_hash),
                (forall|x: int|
                    0 <= x < upgrade_config.global_state_update@.len() ==> (
                    #[trigger] upgrade_config.global_state_update@[x]).0 != Key::NamedKey(
                        reg.auction,
                        VALIDATOR_SLOTS_NAME,
                    )) ==> (match upgrade_config.new_validator_slots {
                    Some(v) => tc.spec_read(Key::NamedKey(reg.auction, VALIDATOR_SLOTS_NAME))
                        == Some(ValueV::U64(v)),
                    None => true,
                }),
                (forall|x: int|
                    0 <= x < upgrade_config.global_state_update@.len() ==> (
                    #[trigger] upgrade_config.global_state_update@[x]).0 != Key::NamedKey(
                        reg.mint,
                        ROUND_SEIGNIORAGE_RATE_NAME,
                    )) ==> (match upgrade_config.new_round_seigniorage_rate {
                    Some(pair) => pair.1 > 0 ==> (tc.spec_read(
                        Key::NamedKey(reg.mint, ROUND_SEIGNIORAGE_RATE_NAME),
                    ) matches Some(ValueV::Ratio(rat)) && rat.denom > 0 && rat.numer * pair.1
                        == rat.denom * pair.0),
                    None => true,
                }),
            decreases upgrade_config.global_state_update.len() - i,
        {
            let k = upgrade_config.global_state_update[i].0;
            let v = upgrade_config.global_state_update[i].1.duplicate();
            tc.write(k, v);
            i = i + 1;
        }
        if let Some(v) = upgrade_config.new_unbonding_delay {
            tc.write(Key::NamedKey(reg.auction, UNBONDING_DELAY_NAME), StoredValue::U64(v));
        }
        // Era-summary migration: the highest stored era is the immediate
        // predecessor of the activation point.
        if let Some(activation_point) = upgrade_config.activation_point {
            let highest = if activation_point > 0 {
                activation_point - 1
            } else {
                0
            };
            match tc.read(Key::EraInfo(highest)) {
                Some(StoredValue::EraInfo(e)) => {
                    tc.write(Key::EraSummary, StoredValue::EraInfo(e));
                },
                _ => {},
            }
        }
        let effects = tc.effects();
        proof {
            tc.lemma_overlay_effects_apply();
        }
        let post_state_hash = match self.state.commit(upgrade_config.pre_state_hash, &effects) {
            Ok(h) => h,
            Err(_) => {
                proof {
                    assert(false);
                }
                return Err(Error::CommitError);
            },
        };
        Ok(UpgradeSuccess { post_state_hash, effects })
    }

    /// Commits a prune of the given keys from the tip: an empty list is a
    /// no-op returning the pre-state root.
    pub fn commit_prune(&mut self, pre_state_hash: u64, keys_to_prune: &Vec<Key>) -> (r: Result<
        Option<u64>,
        Error,
    >)
        requires
            old(self).state.spec_root_count() < u64::MAX,
        ensures
            final(self).config == old(self).config,
            final(self).state.spec_flush_count() == old(self).state.spec_flush_count(),
            final(self).state.spec_root_count() >= old(self).state.spec_root_count(),
            !old(self).state.has_root(pre_state_hash) ==> r == Ok::<Option<u64>, Error>(None),
            keys_to_prune@.len() == 0 && old(self).state.has_root(pre_state_hash) ==> r == Ok::<
                Option<u64>,
                Error,
            >(Some(pre_state_hash)) && final(self).state == old(self).state,
            old(self).state.has_root(pre_state_hash) ==> (r matches Ok(Some(_))),
            r matches Ok(Some(h)) ==> final(self).state.has_root(h) && (forall|i: int|
                0 <= i < keys_to_prune@.len() ==> !final(self).state.root_map(h).contains_key(
                    #[trigger] keys_to_prune@[i],
                )),
            r matches Ok(Some(h)) ==> (old(self).state.has_root(pre_state_hash)
                ==> crate::execution::spec_untouched_except(
                old(self).state.root_map(pre_state_hash),
                final(self).state.root_map(h),
                keys_to_prune@,
            )),
    {
        let mut tc = match self.tracking_copy(pre_state_hash) {
            Some(tc) => tc,
            None => {
                return Ok(None);
            },
        };
        if keys_to_prune.len() == 0 {
            return Ok(Some(pre_state_hash));
        }
        let ghost tc0 = tc;
        let mut i: usize = 0;
        while i < keys_to_prune.len()
            invariant
                i <= keys_to_prune.len(),
                tc.wf(),
                tc.reader_map() == old(self).state.root_map(pre_state_hash),
                forall|j: int|
                    0 <= j < i ==> tc.spec_read(#[trigger] keys_to_prune@[j]) is None,
                forall|k: Key|
                    (forall|j: int| 0 <= j < i ==> k != keys_to_prune@[j]) ==> tc.spec_read(k)
                        == tc0.spec_read(k),
            decreases keys_to_prune.len() - i,
        {
            tc.prune(keys_to_prune[i]);
            i = i + 1;
        }
        let effects = tc.effects();
        proof {
            tc.lemma_overlay_effects_apply();
        }
        let post_state_hash = match self.state.commit(pre_state_hash, &effects) {
            Ok(h) => h,
            Err(_) => {
                return Err(Error::CommitError);
            },
        };
        proof {
            let m = old(self).state.root_map(pre_state_hash);
            let m2 = self.state.root_map(post_state_hash);
            assert forall|k: Key| !keys_to_prune@.contains(k) implies ((#[trigger] m2.contains_key(
                k,
            )) == m.contains_key(k) && (m.contains_key(k) ==> m2[k] == m[k])) by {
                assert(forall|j: int|
                    0 <= j < keys_to_prune@.len() ==> k != #[trigger] keys_to_prune@[j]);
                assert(!crate::tracking_copy::ov_contains_key(tc0.ov(), k));
                assert(tc.spec_read(k) == tc0.spec_read(k));
            }
            assert(crate::execution::spec_untouched_except(m, m2, keys_to_prune@));
        }
        Ok(Some(post_state_hash))
    }
}

} // verus!

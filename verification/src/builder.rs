//! A builder for constructing a transaction.
//!
//! Before calling `build`, an initiator must be provided — directly or via
//! a secret key — and the chain name must be set.  Without a secret key the
//! transaction is built unsigned.

use vstd::prelude::*;

use crate::clock::now_micros;
use crate::keys::Addr;
use crate::rng::rand_below;
use crate::transaction::{
    InitiatorAddr, PricingMode, TransactionEntryPoint, TransactionInvocationTarget,
    TransactionRuntime, TransactionRuntimeParams, TransactionScheduling, TransactionTarget,
    TransactionTargetV, AUCTION_LANE_ID, MINT_LANE_ID,
};

verus! {

/// The default time-to-live of a transaction: thirty minutes, in
/// milliseconds.
pub const DEFAULT_TTL_MILLIS: u64 = 1_800_000;

/// The default gas price tolerance of the default pricing mode.
pub const DEFAULT_GAS_PRICE_TOLERANCE: u8 = 5;

/// A signing key, modelled by its identity; its public half is derived
/// from it.
#[derive(Clone, Copy, PartialEq, Eq, Debug)]
pub struct SecretKey {
    pub id: Addr,
}

impl SecretKey {
    /// A random signing key.
    pub fn random(rng: &mut rand::rngs::StdRng) -> SecretKey {
        SecretKey { id: rand_below(rng, u64::MAX) }
    }

    /// The public half of this key.
    pub fn public_key(&self) -> (r: Addr)
        ensures
            r == self.id,
    {
        self.id
    }
}

/// One approval of a transaction: a signer and its signature.
#[derive(Clone, Copy, PartialEq, Eq, Debug)]
pub struct Approval {
    pub signer: Addr,
    pub signature: u64,
}

/// The body of a transaction under construction.
pub struct TransactionV1Body {
    pub args: Vec<(u64, u64)>,
    pub chunked_args: Option<Vec<u8>>,
    pub target: TransactionTarget,
    pub entry_point: TransactionEntryPoint,
    pub transaction_lane: u8,
    pub scheduling: TransactionScheduling,
}

/// A built transaction.
pub struct TransactionV1 {
    pub chain_name: String,
    pub timestamp_millis: u64,
    pub ttl_millis: u64,
    pub body: TransactionV1Body,
    pub pricing_mode: PricingMode,
    pub initiator_addr: InitiatorAddr,
    pub approvals: Vec<Approval>,
}

/// Why a build failed.
#[derive(Clone, Copy, PartialEq, Eq, Debug)]
pub enum TransactionV1BuilderError {
    /// Neither an initiator nor a secret key was provided.
    MissingInitiatorAddr,
    /// The chain name was not set.
    MissingChainName,
}

/// A builder for constructing a transaction.
pub struct TransactionV1Builder {
    pub chain_name: Option<String>,
    pub timestamp_millis: u64,
    pub ttl_millis: u64,
    pub body: TransactionV1Body,
    pub pricing_mode: PricingMode,
    pub initiator_addr: Option<InitiatorAddr>,
    pub secret_key: Option<SecretKey>,
    pub invalid_approvals: Vec<Approval>,
}

impl TransactionV1Builder {
    /// A builder around the given body, stamped with the current time and
    /// the default time-to-live and pricing.
    pub fn new(body: TransactionV1Body) -> (r: TransactionV1Builder)
        ensures
            r.chain_name is None,
            r.ttl_millis == DEFAULT_TTL_MILLIS,
            r.initiator_addr is None,
            r.secret_key is None,
            r.invalid_approvals@.len() == 0,
            r.pricing_mode == (PricingMode::Fixed {
                gas_price_tolerance: DEFAULT_GAS_PRICE_TOLERANCE,
                additional_computation_factor: 0,
            }),
            r.body == body,
    {
        TransactionV1Builder {
            chain_name: None,
            timestamp_millis: now_micros() / 1000,
            ttl_millis: DEFAULT_TTL_MILLIS,
            body,
            pricing_mode: PricingMode::Fixed {
                gas_price_tolerance: DEFAULT_GAS_PRICE_TOLERANCE,
                additional_computation_factor: 0,
            },
            initiator_addr: None,
            secret_key: None,
            invalid_approvals: Vec::new(),
        }
    }

    /// A builder for a native transfer.
    pub fn new_transfer(
        amount: u128,
        maybe_source: Option<Addr>,
        target: Addr,
        maybe_id: Option<u64>,
    ) -> (r: TransactionV1Builder)
        ensures
            r.body.target@ == TransactionTargetV::Native,
            r.body.entry_point == TransactionEntryPoint::Transfer,
            r.body.transaction_lane == MINT_LANE_ID,
            r.chain_name is None,
            r.body.chunked_args is None,
            r.body.args@ == (match (maybe_source, maybe_id) {
                (Some(s), Some(id)) => seq![
                    (0u64, amount as u64),
                    (1u64, s),
                    (2u64, target),
                    (3u64, id),
                ],
                (Some(s), None) => seq![(0u64, amount as u64), (1u64, s), (2u64, target)],
                (None, Some(id)) => seq![(0u64, amount as u64), (2u64, target), (3u64, id)],
                (None, None) => seq![(0u64, amount as u64), (2u64, target)],
            }),
            r.ttl_millis == DEFAULT_TTL_MILLIS,
            r.initiator_addr is None,
            r.secret_key is None,
            r.invalid_approvals@.len() == 0,
            r.pricing_mode == (PricingMode::Fixed {
                gas_price_tolerance: DEFAULT_GAS_PRICE_TOLERANCE,
                additional_computation_factor: 0,
            }),
            r.body.scheduling == TransactionScheduling::Standard,
    {
        let mut args: Vec<(u64, u64)> = Vec::new();
        args.push((0, (amount as u64)));
        match maybe_source {
            Some(s) => {
                args.push((1, s));
            },
            None => {},
        }
        args.push((2, target));
        match maybe_id {
            Some(id) => {
                args.push((3, id));
            },
            None => {},
        }
        proof {
            assert(args@ =~= (match (maybe_source, maybe_id) {
                (Some(s), Some(id)) => seq![
                    (0u64, amount as u64),
                    (1u64, s),
                    (2u64, target),
                    (3u64, id),
                ],
                (Some(s), None) => seq![(0u64, amount as u64), (1u64, s), (2u64, target)],
                (None, Some(id)) => seq![(0u64, amount as u64), (2u64, target), (3u64, id)],
                (None, None) => seq![(0u64, amount as u64), (2u64, target)],
            }));
        }
        let body = TransactionV1Body {
            args,
            chunked_args: None,
            target: TransactionTarget::new_native(),
            entry_point: TransactionEntryPoint::Transfer,
            transaction_lane: MINT_LANE_ID,
            scheduling: TransactionScheduling::Standard,
        };
        TransactionV1Builder::new(body)
    }

    /// A builder for a native bid addition.
    pub fn new_add_bid(
        public_key: Addr,
        delegation_rate: u8,
        amount: u128,
        minimum_delegation_amount: u64,
        maximum_delegation_amount: u64,
    ) -> (r: TransactionV1Builder)
        ensures
            r.body.target@ == TransactionTargetV::Native,
            r.body.entry_point == TransactionEntryPoint::AddBid,
            r.body.transaction_lane == AUCTION_LANE_ID,
            r.body.chunked_args is None,
            r.body.args@ == seq![
                (0u64, public_key),
                (1u64, delegation_rate as u64),
                (2u64, amount as u64),
                (3u64, minimum_delegation_amount),
                (4u64, maximum_delegation_amount),
            ],
            r.ttl_millis == DEFAULT_TTL_MILLIS,
            r.initiator_addr is None,
            r.secret_key is None,
            r.invalid_approvals@.len() == 0,
            r.pricing_mode == (PricingMode::Fixed {
                gas_price_tolerance: DEFAULT_GAS_PRICE_TOLERANCE,
                additional_computation_factor: 0,
            }),
            r.body.scheduling == TransactionScheduling::Standard,
    {
        let mut args: Vec<(u64, u64)> = Vec::new();
        args.push((0, public_key));
        args.push((1, delegation_rate as u64));
        args.push((2, amount as u64));
        args.push((3, minimum_delegation_amount));
        args.push((4, maximum_delegation_amount));
        proof {
            assert(args@ =~= seq![
                (0u64, public_key),
                (1u64, delegation_rate as u64),
                (2u64, amount as u64),
                (3u64, minimum_delegation_amount),
                (4u64, maximum_delegation_amount),
            ]);
        }
        let body = TransactionV1Body {
            args,
            chunked_args: None,
            target: TransactionTarget::new_native(),
            entry_point: TransactionEntryPoint::AddBid,
            transaction_lane: AUCTION_LANE_ID,
            scheduling: TransactionScheduling::Standard,
        };
        TransactionV1Builder::new(body)
    }

    /// A builder for a native bid withdrawal.
    pub fn new_withdraw_bid(public_key: Addr, amount: u128) -> (r: TransactionV1Builder)
        ensures
            r.body.target@ == TransactionTargetV::Native,
            r.body.entry_point == TransactionEntryPoint::WithdrawBid,
            r.body.transaction_lane == AUCTION_LANE_ID,
            r.body.chunked_args is None,
            r.body.args@ == seq![(0u64, public_key), (1u64, amount as u64)],
            r.ttl_millis == DEFAULT_TTL_MILLIS,
            r.initiator_addr is None,
            r.secret_key is None,
            r.invalid_approvals@.len() == 0,
            r.pricing_mode == (PricingMode::Fixed {
                gas_price_tolerance: DEFAULT_GAS_PRICE_TOLERANCE,
                additional_computation_factor: 0,
            }),
            r.body.scheduling == TransactionScheduling::Standard,
    {
        let mut args: Vec<(u64, u64)> = Vec::new();
        args.push((0, public_key));
        args.push((1, amount as u64));
        proof {
            assert(args@ =~= seq![(0u64, public_key), (1u64, amount as u64)]);
        }
        let body = TransactionV1Body {
            args,
            chunked_args: None,
            target: TransactionTarget::new_native(),
            entry_point: TransactionEntryPoint::WithdrawBid,
            transaction_lane: AUCTION_LANE_ID,
            scheduling: TransactionScheduling::Standard,
        };
        TransactionV1Builder::new(body)
    }

    /// A builder for a native delegation.
    pub fn new_delegate(delegator: Addr, validator: Addr, amount: u128) -> (r:
        TransactionV1Builder)
        ensures
            r.body.target@ == TransactionTargetV::Native,
            r.body.entry_point == TransactionEntryPoint::Delegate,
            r.body.transaction_lane == AUCTION_LANE_ID,
            r.body.chunked_args is None,
            r.body.args@ == seq![(0u64, delegator), (1u64, validator), (2u64, amount as u64)],
            r.ttl_millis == DEFAULT_TTL_MILLIS,
            r.initiator_addr is None,
            r.secret_key is None,
            r.invalid_approvals@.len() == 0,
            r.pricing_mode == (PricingMode::Fixed {
                gas_price_tolerance: DEFAULT_GAS_PRICE_TOLERANCE,
                additional_computation_factor: 0,
            }),
            r.body.scheduling == TransactionScheduling::Standard,
    {
        let mut args: Vec<(u64, u64)> = Vec::new();
        args.push((0, delegator));
        args.push((1, validator));
        args.push((2, amount as u64));
        proof {
            assert(args@ =~= seq![(0u64, delegator), (1u64, validator), (2u64, amount as u64)]);
        }
        let body = TransactionV1Body {
            args,
            chunked_args: None,
            target: TransactionTarget::new_native(),
            entry_point: TransactionEntryPoint::Delegate,
            transaction_lane: AUCTION_LANE_ID,
            scheduling: TransactionScheduling::Standard,
        };
        TransactionV1Builder::new(body)
    }

    /// A builder for a native undelegation.
    pub fn new_undelegate(delegator: Addr, validator: Addr, amount: u128) -> (r:
        TransactionV1Builder)
        ensures
            r.body.target@ == TransactionTargetV::Native,
            r.body.entry_point == TransactionEntryPoint::Undelegate,
            r.body.transaction_lane == AUCTION_LANE_ID,
            r.body.chunked_args is None,
            r.body.args@ == seq![(0u64, delegator), (1u64, validator), (2u64, amount as u64)],
            r.ttl_millis == DEFAULT_TTL_MILLIS,
            r.initiator_addr is None,
            r.secret_key is None,
            r.invalid_approvals@.len() == 0,
            r.pricing_mode == (PricingMode::Fixed {
                gas_price_tolerance: DEFAULT_GAS_PRICE_TOLERANCE,
                additional_computation_factor: 0,
            }),
            r.body.scheduling == TransactionScheduling::Standard,
    {
        let mut args: Vec<(u64, u64)> = Vec::new();
        args.push((0, delegator));
        args.push((1, validator));
        args.push((2, amount as u64));
        proof {
            assert(args@ =~= seq![(0u64, delegator), (1u64, validator), (2u64, amount as u64)]);
        }
        let body = TransactionV1Body {
            args,
            chunked_args: None,
            target: TransactionTarget::new_native(),
            entry_point: TransactionEntryPoint::Undelegate,
            transaction_lane: AUCTION_LANE_ID,
            scheduling: TransactionScheduling::Standard,
        };
        TransactionV1Builder::new(body)
    }

    /// A builder for a native redelegation.
    pub fn new_redelegate(
        delegator: Addr,
        validator: Addr,
        amount: u128,
        new_validator: Addr,
    ) -> (r: TransactionV1Builder)
        ensures
            r.body.target@ == TransactionTargetV::Native,
            r.body.entry_point == TransactionEntryPoint::Redelegate,
            r.body.transaction_lane == AUCTION_LANE_ID,
            r.body.chunked_args is None,
            r.body.args@ == seq![
                (0u64, delegator),
                (1u64, validator),
                (2u64, amount as u64),
                (3u64, new_validator),
            ],
            r.ttl_millis == DEFAULT_TTL_MILLIS,
            r.initiator_addr is None,
            r.secret_key is None,
            r.invalid_approvals@.len() == 0,
            r.pricing_mode == (PricingMode::Fixed {
                gas_price_tolerance: DEFAULT_GAS_PRICE_TOLERANCE,
                additional_computation_factor: 0,
            }),
            r.body.scheduling == TransactionScheduling::Standard,
    {
        let mut args: Vec<(u64, u64)> = Vec::new();
        args.push((0, delegator));
        args.push((1, validator));
        args.push((2, amount as u64));
        args.push((3, new_validator));
        proof {
            assert(args@ =~= seq![
                (0u64, delegator),
                (1u64, validator),
                (2u64, amount as u64),
                (3u64, new_validator),
            ]);
        }
        let body = TransactionV1Body {
            args,
            chunked_args: None,
            target: TransactionTarget::new_native(),
            entry_point: TransactionEntryPoint::Redelegate,
            transaction_lane: AUCTION_LANE_ID,
            scheduling: TransactionScheduling::Standard,
        };
        TransactionV1Builder::new(body)
    }

    /// A builder targeting a stored entity.
    fn new_targeting_stored(
        id: TransactionInvocationTarget,
        entry_point: u64,
        runtime: TransactionRuntime,
        transferred_value: u64,
    ) -> (r: TransactionV1Builder)
        ensures
            r.body.target@ matches TransactionTargetV::Stored { id: rid, .. } && rid == id,
            r.body.entry_point == TransactionEntryPoint::Custom(entry_point),
            r.body.args@.len() == 0,
            r.body.chunked_args is None,
            r.ttl_millis == DEFAULT_TTL_MILLIS,
            r.initiator_addr is None,
            r.secret_key is None,
            r.invalid_approvals@.len() == 0,
            r.pricing_mode == (PricingMode::Fixed {
                gas_price_tolerance: DEFAULT_GAS_PRICE_TOLERANCE,
                additional_computation_factor: 0,
            }),
            r.body.scheduling == TransactionScheduling::Standard,
            r.chain_name is None,
    {
        let params = match runtime {
            TransactionRuntime::VmCasperV1 => TransactionRuntimeParams::VmCasperV1,
            TransactionRuntime::VmCasperV2 => TransactionRuntimeParams::VmCasperV2 {
                transferred_value,
                seed: None,
            },
        };
        let body = TransactionV1Body {
            args: Vec::new(),
            chunked_args: None,
            target: TransactionTarget::Stored { id, runtime: params },
            entry_point: TransactionEntryPoint::Custom(entry_point),
            transaction_lane: 3,
            scheduling: TransactionScheduling::Standard,
        };
        TransactionV1Builder::new(body)
    }

    /// A builder targeting a stored entity by hash.
    pub fn new_targeting_invocable_entity(
        hash: Addr,
        entry_point: u64,
        runtime: TransactionRuntime,
        transferred_value: u64,
    ) -> (r: TransactionV1Builder)
        ensures
            r.body.target@ matches TransactionTargetV::Stored { id, .. } && id
                == TransactionInvocationTarget::ByHash(hash),
            r.body.entry_point == TransactionEntryPoint::Custom(entry_point),
            r.body.args@.len() == 0,
            r.body.chunked_args is None,
            r.ttl_millis == DEFAULT_TTL_MILLIS,
            r.initiator_addr is None,
            r.secret_key is None,
            r.invalid_approvals@.len() == 0,
            r.pricing_mode == (PricingMode::Fixed {
                gas_price_tolerance: DEFAULT_GAS_PRICE_TOLERANCE,
                additional_computation_factor: 0,
            }),
            r.body.scheduling == TransactionScheduling::Standard,
            r.chain_name is None
    {
        Self::new_targeting_stored(
            TransactionInvocationTarget::ByHash(hash),
            entry_point,
            runtime,
            transferred_value,
        )
    }

    /// A builder targeting a stored entity by its alias.
    pub fn new_targeting_invocable_entity_via_alias(
        alias: u64,
        entry_point: u64,
        runtime: TransactionRuntime,
        transferred_value: u64,
    ) -> (r: TransactionV1Builder)
        ensures
            r.body.target@ matches TransactionTargetV::Stored { id, .. } && id
                == TransactionInvocationTarget::ByName(alias),
            r.body.entry_point == TransactionEntryPoint::Custom(entry_point),
            r.body.args@.len() == 0,
            r.body.chunked_args is None,
            r.ttl_millis == DEFAULT_TTL_MILLIS,
            r.initiator_addr is None,
            r.secret_key is None,
            r.invalid_approvals@.len() == 0,
            r.pricing_mode == (PricingMode::Fixed {
                gas_price_tolerance: DEFAULT_GAS_PRICE_TOLERANCE,
                additional_computation_factor: 0,
            }),
            r.body.scheduling == TransactionScheduling::Standard,
            r.chain_name is None
    {
        Self::new_targeting_stored(
            TransactionInvocationTarget::ByName(alias),
            entry_point,
            runtime,
            transferred_value,
        )
    }

    /// A builder targeting a package by hash.
    pub fn new_targeting_package(
        hash: Addr,
        version: Option<u32>,
        entry_point: u64,
        runtime: TransactionRuntime,
        transferred_value: u64,
    ) -> (r: TransactionV1Builder)
        ensures
            r.body.target@ matches TransactionTargetV::Stored { id, .. } && id
                == (TransactionInvocationTarget::ByPackageHash { addr: hash, version }),
            r.body.entry_point == TransactionEntryPoint::Custom(entry_point),
            r.body.args@.len() == 0,
            r.body.chunked_args is None,
            r.ttl_millis == DEFAULT_TTL_MILLIS,
            r.initiator_addr is None,
            r.secret_key is None,
            r.invalid_approvals@.len() == 0,
            r.pricing_mode == (PricingMode::Fixed {
                gas_price_tolerance: DEFAULT_GAS_PRICE_TOLERANCE,
                additional_computation_factor: 0,
            }),
            r.body.scheduling == TransactionScheduling::Standard,
            r.chain_name is None
    {
        Self::new_targeting_stored(
            TransactionInvocationTarget::ByPackageHash { addr: hash, version },
            entry_point,
            runtime,
            transferred_value,
        )
    }

    /// A builder targeting a package by its alias.
    pub fn new_targeting_package_via_alias(
        alias: u64,
        version: Option<u32>,
        entry_point: u64,
        runtime: TransactionRuntime,
        transferred_value: u64,
    ) -> (r: TransactionV1Builder)
        ensures
            r.body.target@ matches TransactionTargetV::Stored { id, .. } && id
                == (TransactionInvocationTarget::ByPackageName { name: alias, version }),
            r.body.entry_point == TransactionEntryPoint::Custom(entry_point),
            r.body.args@.len() == 0,
            r.body.chunked_args is None,
            r.ttl_millis == DEFAULT_TTL_MILLIS,
            r.initiator_addr is None,
            r.secret_key is None,
            r.invalid_approvals@.len() == 0,
            r.pricing_mode == (PricingMode::Fixed {
                gas_price_tolerance: DEFAULT_GAS_PRICE_TOLERANCE,
                additional_computation_factor: 0,
            }),
            r.body.scheduling == TransactionScheduling::Standard,
            r.chain_name is None
    {
        Self::new_targeting_stored(
            TransactionInvocationTarget::ByPackageName { name: alias, version },
            entry_point,
            runtime,
            transferred_value,
        )
    }

    /// A builder for running session logic: compiled module bytes.
    pub fn new_session(
        lane: u8,
        module_bytes: Vec<u8>,
        runtime: TransactionRuntime,
        transferred_value: u64,
        seed: Option<u64>,
    ) -> (r: TransactionV1Builder)
        ensures
            r.body.target@ matches TransactionTargetV::Session { module_bytes: mb, .. } && mb
                == module_bytes@,
            r.body.target@ matches TransactionTargetV::Session { runtime: rt, is_install_upgrade, .. }
                && !is_install_upgrade && rt == (match runtime {
                TransactionRuntime::VmCasperV1 => TransactionRuntimeParams::VmCasperV1,
                TransactionRuntime::VmCasperV2 => TransactionRuntimeParams::VmCasperV2 {
                    transferred_value,
                    seed,
                },
            }),
            r.body.entry_point == TransactionEntryPoint::Call,
            r.body.transaction_lane == lane,
            r.body.args@.len() == 0,
            r.body.chunked_args is None,
            r.ttl_millis == DEFAULT_TTL_MILLIS,
            r.initiator_addr is None,
            r.secret_key is None,
            r.invalid_approvals@.len() == 0,
            r.pricing_mode == (PricingMode::Fixed {
                gas_price_tolerance: DEFAULT_GAS_PRICE_TOLERANCE,
                additional_computation_factor: 0,
            }),
            r.body.scheduling == TransactionScheduling::Standard,
            r.chain_name is None,
    {
        let params = match runtime {
            TransactionRuntime::VmCasperV1 => TransactionRuntimeParams::VmCasperV1,
            TransactionRuntime::VmCasperV2 => TransactionRuntimeParams::VmCasperV2 {
                transferred_value,
                seed,
            },
        };
        let body = TransactionV1Body {
            args: Vec::new(),
            chunked_args: None,
            target: TransactionTarget::Session {
                is_install_upgrade: false,
                module_bytes,
                runtime: params,
            },
            entry_point: TransactionEntryPoint::Call,
            transaction_lane: lane,
            scheduling: TransactionScheduling::Standard,
        };
        TransactionV1Builder::new(body)
    }

    /// A builder for calling a smart contract directly with chunked input.
    pub fn new_call(
        entity_address: Addr,
        entry_point: u64,
        input_data: Option<Vec<u8>>,
        transferred_value: u64,
    ) -> (r: TransactionV1Builder)
        ensures
            r.body.target@ matches TransactionTargetV::Stored { id, .. } && id
                == TransactionInvocationTarget::ByHash(entity_address),
            r.body.target@ matches TransactionTargetV::Stored { runtime: rt, .. } && rt == (
            TransactionRuntimeParams::VmCasperV2 { transferred_value, seed: None }),
            r.body.transaction_lane == 4,
            r.body.entry_point == TransactionEntryPoint::Custom(entry_point),
            r.body.args@.len() == 0,
            r.body.chunked_args matches Some(c) && c@ == (match input_data {
                Some(b) => b@,
                None => Seq::<u8>::empty(),
            }),
            r.ttl_millis == DEFAULT_TTL_MILLIS,
            r.initiator_addr is None,
            r.secret_key is None,
            r.invalid_approvals@.len() == 0,
            r.pricing_mode == (PricingMode::Fixed {
                gas_price_tolerance: DEFAULT_GAS_PRICE_TOLERANCE,
                additional_computation_factor: 0,
            }),
            r.body.scheduling == TransactionScheduling::Standard,
            r.chain_name is None,
    {
        let chunked = match input_data {
            Some(bytes) => Some(bytes),
            None => Some(Vec::new()),
        };
        let body = TransactionV1Body {
            args: Vec::new(),
            chunked_args: chunked,
            target: TransactionTarget::Stored {
                id: TransactionInvocationTarget::ByHash(entity_address),
                runtime: TransactionRuntimeParams::VmCasperV2 { transferred_value, seed: None },
            },
            entry_point: TransactionEntryPoint::Custom(entry_point),
            transaction_lane: 4,
            scheduling: TransactionScheduling::Standard,
        };
        TransactionV1Builder::new(body)
    }

    /// A random, valid but possibly expired transaction builder, signed
    /// with a random key.
    pub fn new_random(rng: &mut rand::rngs::StdRng) -> (r: TransactionV1Builder)
        ensures
            r.chain_name is Some,
            r.initiator_addr is Some,
            r.secret_key is Some,
    {
        let secret_key = SecretKey::random(rng);
        let ttl_millis = 60_000 + rand_below(rng, 1_000_000);
        let chain_name = Self::random_chain_name(rng);
        let target = TransactionTarget::random(rng);
        let entry_point = match &target {
            TransactionTarget::Native => TransactionEntryPoint::Transfer,
            TransactionTarget::Stored { .. } => TransactionEntryPoint::Custom(0),
            TransactionTarget::Session { .. } => TransactionEntryPoint::Call,
        };
        let body = TransactionV1Body {
            args: Vec::new(),
            chunked_args: None,
            target,
            entry_point,
            transaction_lane: MINT_LANE_ID,
            scheduling: TransactionScheduling::Standard,
        };
        TransactionV1Builder {
            chain_name: Some(chain_name),
            timestamp_millis: now_micros() / 1000,
            ttl_millis,
            body,
            pricing_mode: PricingMode::Fixed {
                gas_price_tolerance: DEFAULT_GAS_PRICE_TOLERANCE,
                additional_computation_factor: 0,
            },
            initiator_addr: Some(InitiatorAddr::PublicKey(secret_key.public_key())),
            secret_key: Some(secret_key),
            invalid_approvals: Vec::new(),
        }
    }

    /// A random, unexpired transaction builder for the given lane, with the
    /// given timestamp and time-to-live where provided.
    pub fn new_random_with_lane_and_timestamp_and_ttl(
        rng: &mut rand::rngs::StdRng,
        lane: u8,
        timestamp_millis: Option<u64>,
        ttl_millis: Option<u64>,
    ) -> (r: TransactionV1Builder)
        ensures
            r.chain_name is Some,
            r.initiator_addr is Some,
            r.secret_key is Some,
            r.body.transaction_lane == lane,
            timestamp_millis matches Some(t) ==> r.timestamp_millis == t,
            ttl_millis matches Some(t) ==> r.ttl_millis == t,
    {
        let secret_key = SecretKey::random(rng);
        let ttl = match ttl_millis {
            Some(t) => t,
            None => 60_000 + rand_below(rng, 1_000_000),
        };
        let ts = match timestamp_millis {
            Some(t) => t,
            None => now_micros() / 1000,
        };
        let chain_name = Self::random_chain_name(rng);
        let body = TransactionV1Body {
            args: Vec::new(),
            chunked_args: None,
            target: TransactionTarget::new_native(),
            entry_point: TransactionEntryPoint::Transfer,
            transaction_lane: lane,
            scheduling: TransactionScheduling::Standard,
        };
        TransactionV1Builder {
            chain_name: Some(chain_name),
            timestamp_millis: ts,
            ttl_millis: ttl,
            body,
            pricing_mode: PricingMode::Fixed {
                gas_price_tolerance: DEFAULT_GAS_PRICE_TOLERANCE,
                additional_computation_factor: 0,
            },
            initiator_addr: Some(InitiatorAddr::PublicKey(secret_key.public_key())),
            secret_key: Some(secret_key),
            invalid_approvals: Vec::new(),
        }
    }

    /// A chain name of five to nine characters, drawn at random.
    fn random_chain_name(rng: &mut rand::rngs::StdRng) -> (r: String)
        ensures
            5 <= r@.len() < 10,
    {
        let pick = rand_below(rng, 5);
        let name: String = if pick == 0 {
            "alpha".to_string()
        } else if pick == 1 {
            "borealis".to_string()
        } else if pick == 2 {
            "casimir".to_string()
        } else if pick == 3 {
            "dorado".to_string()
        } else {
            "eventide".to_string()
        };
        proof {
            reveal_strlit("alpha");
            reveal_strlit("borealis");
            reveal_strlit("casimir");
            reveal_strlit("dorado");
            reveal_strlit("eventide");
        }
        name
    }

    /// Sets the chain name; building fails without one.
    pub fn with_chain_name(self, chain_name: String) -> (r: TransactionV1Builder)
        ensures
            r.chain_name matches Some(n) && n@ == chain_name@,
            r.timestamp_millis == self.timestamp_millis,
            r.ttl_millis == self.ttl_millis,
            r.pricing_mode == self.pricing_mode,
            r.initiator_addr == self.initiator_addr,
            r.secret_key == self.secret_key,
            r.invalid_approvals@ == self.invalid_approvals@,
            r.body == self.body,
    {
        TransactionV1Builder { chain_name: Some(chain_name), ..self }
    }

    /// Sets the timestamp; the construction time is the default.
    pub fn with_timestamp(self, timestamp_millis: u64) -> (r: TransactionV1Builder)
        ensures
            r.timestamp_millis == timestamp_millis,
            r.chain_name == self.chain_name,
            r.ttl_millis == self.ttl_millis,
            r.pricing_mode == self.pricing_mode,
            r.initiator_addr == self.initiator_addr,
            r.secret_key == self.secret_key,
            r.invalid_approvals@ == self.invalid_approvals@,
            r.body == self.body,
    {
        TransactionV1Builder { timestamp_millis, ..self }
    }

    /// Sets the time-to-live; thirty minutes is the default.
    pub fn with_ttl(self, ttl_millis: u64) -> (r: TransactionV1Builder)
        ensures
            r.ttl_millis == ttl_millis,
            r.chain_name == self.chain_name,
            r.timestamp_millis == self.timestamp_millis,
            r.pricing_mode == self.pricing_mode,
            r.initiator_addr == self.initiator_addr,
            r.secret_key == self.secret_key,
            r.invalid_approvals@ == self.invalid_approvals@,
            r.body == self.body,
    {
        TransactionV1Builder { ttl_millis, ..self }
    }

    /// Sets the pricing mode; fixed pricing is the default.
    pub fn with_pricing_mode(self, pricing_mode: PricingMode) -> (r: TransactionV1Builder)
        ensures
            r.pricing_mode == pricing_mode,
            r.chain_name == self.chain_name,
            r.timestamp_millis == self.timestamp_millis,
            r.ttl_millis == self.ttl_millis,
            r.initiator_addr == self.initiator_addr,
            r.secret_key == self.secret_key,
            r.invalid_approvals@ == self.invalid_approvals@,
            r.body == self.body,
    {
        TransactionV1Builder { pricing_mode, ..self }
    }

    /// Sets the initiator; without one, the public key of the secret key
    /// signs as initiator.
    pub fn with_initiator_addr(self, initiator_addr: InitiatorAddr) -> (r: TransactionV1Builder)
        ensures
            r.initiator_addr == Some(initiator_addr),
            r.chain_name == self.chain_name,
            r.timestamp_millis == self.timestamp_millis,
            r.ttl_millis == self.ttl_millis,
            r.pricing_mode == self.pricing_mode,
            r.secret_key == self.secret_key,
            r.invalid_approvals@ == self.invalid_approvals@,
            r.body == self.body,
    {
        TransactionV1Builder { initiator_addr: Some(initiator_addr), ..self }
    }

    /// Sets the key that signs on build.
    pub fn with_secret_key(self, secret_key: &SecretKey) -> (r: TransactionV1Builder)
        ensures
            r.secret_key == Some(*secret_key),
            r.chain_name == self.chain_name,
            r.timestamp_millis == self.timestamp_millis,
            r.ttl_millis == self.ttl_millis,
            r.pricing_mode == self.pricing_mode,
            r.initiator_addr == self.initiator_addr,
            r.invalid_approvals@ == self.invalid_approvals@,
            r.body == self.body,
    {
        TransactionV1Builder { secret_key: Some(*secret_key), ..self }
    }

    /// Appends one named runtime argument.  Chunked arguments accept no
    /// named additions, so they must not be set.
    pub fn with_runtime_arg(self, name: u64, value: u64) -> (r: TransactionV1Builder)
        requires
            self.body.chunked_args is None,
        ensures
            r.body.args@ == self.body.args@.push((name, value)),
            r.body.chunked_args == self.body.chunked_args,
            r.body.target == self.body.target,
            r.body.entry_point == self.body.entry_point,
            r.body.transaction_lane == self.body.transaction_lane,
            r.body.scheduling == self.body.scheduling,
            r.chain_name == self.chain_name,
            r.timestamp_millis == self.timestamp_millis,
            r.ttl_millis == self.ttl_millis,
            r.pricing_mode == self.pricing_mode,
            r.initiator_addr == self.initiator_addr,
            r.secret_key == self.secret_key,
            r.invalid_approvals@ == self.invalid_approvals@,
    {
        let mut body = self.body;
        body.args.push((name, value));
        TransactionV1Builder { body, ..self }
    }

    /// Replaces the whole argument value with the given named arguments:
    /// previously set chunked bytes are dropped.
    pub fn with_runtime_args(self, args: Vec<(u64, u64)>) -> (r: TransactionV1Builder)
        ensures
            r.body.args@ == args@,
            r.body.chunked_args is None,
            r.body.target == self.body.target,
            r.body.entry_point == self.body.entry_point,
            r.body.transaction_lane == self.body.transaction_lane,
            r.body.scheduling == self.body.scheduling,
            r.chain_name == self.chain_name,
            r.timestamp_millis == self.timestamp_millis,
            r.ttl_millis == self.ttl_millis,
            r.pricing_mode == self.pricing_mode,
            r.initiator_addr == self.initiator_addr,
            r.secret_key == self.secret_key,
            r.invalid_approvals@ == self.invalid_approvals@,
    {
        let mut body = self.body;
        body.args = args;
        body.chunked_args = None;
        TransactionV1Builder { body, ..self }
    }

    /// Replaces the whole argument value with raw chunked bytes: previously
    /// set named arguments are dropped.
    pub fn with_chunked_args(self, args: Vec<u8>) -> (r: TransactionV1Builder)
        ensures
            r.body.chunked_args matches Some(c) && c@ == args@,
            r.body.args@.len() == 0,
            r.body.target == self.body.target,
            r.body.entry_point == self.body.entry_point,
            r.body.transaction_lane == self.body.transaction_lane,
            r.body.scheduling == self.body.scheduling,
            r.chain_name == self.chain_name,
            r.timestamp_millis == self.timestamp_millis,
            r.ttl_millis == self.ttl_millis,
            r.pricing_mode == self.pricing_mode,
            r.initiator_addr == self.initiator_addr,
            r.secret_key == self.secret_key,
            r.invalid_approvals@ == self.invalid_approvals@,
    {
        let mut body = self.body;
        body.args = Vec::new();
        body.chunked_args = Some(args);
        TransactionV1Builder { body, ..self }
    }

    /// Replaces the arguments: named ones, or raw chunked bytes.
    pub fn with_transaction_args(
        self,
        named: Vec<(u64, u64)>,
        chunked: Option<Vec<u8>>,
    ) -> (r: TransactionV1Builder)
        ensures
            r.body.args@ == named@,
            r.body.chunked_args == chunked,
            r.body.target == self.body.target,
            r.body.entry_point == self.body.entry_point,
            r.body.transaction_lane == self.body.transaction_lane,
            r.body.scheduling == self.body.scheduling,
            r.chain_name == self.chain_name,
            r.timestamp_millis == self.timestamp_millis,
            r.ttl_millis == self.ttl_millis,
            r.pricing_mode == self.pricing_mode,
            r.initiator_addr == self.initiator_addr,
            r.secret_key == self.secret_key,
            r.invalid_approvals@ == self.invalid_approvals@,
    {
        let mut body = self.body;
        body.args = named;
        body.chunked_args = chunked;
        TransactionV1Builder { body, ..self }
    }

    /// Sets the runtime of a stored or session target; a native target is
    /// unaffected.
    pub fn with_runtime(self, runtime: TransactionRuntime) -> (r: TransactionV1Builder)
        ensures
            ({
                let params = (match runtime {
                    TransactionRuntime::VmCasperV1 => TransactionRuntimeParams::VmCasperV1,
                    TransactionRuntime::VmCasperV2 => TransactionRuntimeParams::VmCasperV2 {
                        transferred_value: 0,
                        seed: None,
                    },
                });
                match self.body.target@ {
                    TransactionTargetV::Native => r.body.target@ == self.body.target@,
                    TransactionTargetV::Stored { id, .. } => r.body.target@
                        == (TransactionTargetV::Stored { id, runtime: params }),
                    TransactionTargetV::Session { is_install_upgrade, module_bytes, .. } => r.body
                        .target@ == (TransactionTargetV::Session {
                        is_install_upgrade,
                        module_bytes,
                        runtime: params,
                    }),
                }
            }),
            r.body.args@ == self.body.args@,
            r.body.chunked_args == self.body.chunked_args,
            r.body.entry_point == self.body.entry_point,
            r.body.transaction_lane == self.body.transaction_lane,
            r.body.scheduling == self.body.scheduling,
            r.chain_name == self.chain_name,
            r.timestamp_millis == self.timestamp_millis,
            r.ttl_millis == self.ttl_millis,
            r.pricing_mode == self.pricing_mode,
            r.initiator_addr == self.initiator_addr,
            r.secret_key == self.secret_key,
            r.invalid_approvals@ == self.invalid_approvals@,
    {
        let params = match runtime {
            TransactionRuntime::VmCasperV1 => TransactionRuntimeParams::VmCasperV1,
            TransactionRuntime::VmCasperV2 => TransactionRuntimeParams::VmCasperV2 {
                transferred_value: 0,
                seed: None,
            },
        };
        let mut body = self.body;
        let target = match body.target {
            TransactionTarget::Native => TransactionTarget::Native,
            TransactionTarget::Stored { id, .. } => TransactionTarget::Stored {
                id,
                runtime: params,
            },
            TransactionTarget::Session { is_install_upgrade, module_bytes, .. } => {
                TransactionTarget::Session { is_install_upgrade, module_bytes, runtime: params }
            },
        };
        body.target = target;
        TransactionV1Builder { body, ..self }
    }

    /// Sets a custom entry point.
    pub fn with_entry_point(self, entry_point: u64) -> (r: TransactionV1Builder)
        ensures
            r.body.entry_point == TransactionEntryPoint::Custom(entry_point),
            r.body.args@ == self.body.args@,
            r.body.chunked_args == self.body.chunked_args,
            r.body.target == self.body.target,
            r.body.transaction_lane == self.body.transaction_lane,
            r.body.scheduling == self.body.scheduling,
            r.chain_name == self.chain_name,
            r.timestamp_millis == self.timestamp_millis,
            r.ttl_millis == self.ttl_millis,
            r.pricing_mode == self.pricing_mode,
            r.initiator_addr == self.initiator_addr,
            r.secret_key == self.secret_key,
            r.invalid_approvals@ == self.invalid_approvals@,
    {
        let mut body = self.body;
        body.entry_point = TransactionEntryPoint::Custom(entry_point);
        TransactionV1Builder { body, ..self }
    }

    /// Sets the scheduling; standard is the default.
    pub fn with_scheduling(self, scheduling: TransactionScheduling) -> (r: TransactionV1Builder)
        ensures
            r.body.scheduling == scheduling,
            r.body.args@ == self.body.args@,
            r.body.chunked_args == self.body.chunked_args,
            r.body.target == self.body.target,
            r.body.entry_point == self.body.entry_point,
            r.body.transaction_lane == self.body.transaction_lane,
            r.chain_name == self.chain_name,
            r.timestamp_millis == self.timestamp_millis,
            r.ttl_millis == self.ttl_millis,
            r.pricing_mode == self.pricing_mode,
            r.initiator_addr == self.initiator_addr,
            r.secret_key == self.secret_key,
            r.invalid_approvals@ == self.invalid_approvals@,
    {
        let mut body = self.body;
        body.scheduling = scheduling;
        TransactionV1Builder { body, ..self }
    }

    /// Clears the secret key: the transaction builds unsigned, invalid
    /// until signed.
    pub fn with_no_secret_key(self) -> (r: TransactionV1Builder)
        ensures
            r.secret_key is None,
            r.chain_name == self.chain_name,
            r.timestamp_millis == self.timestamp_millis,
            r.ttl_millis == self.ttl_millis,
            r.pricing_mode == self.pricing_mode,
            r.initiator_addr == self.initiator_addr,
            r.invalid_approvals@ == self.invalid_approvals@,
            r.body == self.body,
    {
        TransactionV1Builder { secret_key: None, ..self }
    }

    /// Adds an invalid approval: one signed by a key over a different
    /// transaction.
    pub fn with_invalid_approval(self, rng: &mut rand::rngs::StdRng) -> (r: TransactionV1Builder)
        ensures
            r.invalid_approvals@.len() == self.invalid_approvals@.len() + 1,
            r.invalid_approvals@.subrange(0, self.invalid_approvals@.len() as int)
                == self.invalid_approvals@,
            r.chain_name == self.chain_name,
            r.timestamp_millis == self.timestamp_millis,
            r.ttl_millis == self.ttl_millis,
            r.pricing_mode == self.pricing_mode,
            r.initiator_addr == self.initiator_addr,
            r.secret_key == self.secret_key,
            r.body == self.body,
    {
        let signer = rand_below(rng, u64::MAX);
        let signature = rand_below(rng, u64::MAX);
        let mut invalid_approvals = self.invalid_approvals;
        invalid_approvals.push(Approval { signer, signature });
        TransactionV1Builder { invalid_approvals, ..self }
    }

    /// Builds the transaction: the initiator from the builder or the secret
    /// key; missing both, or a missing chain name, fails.  A secret key
    /// signs; invalid approvals are applied after.
    pub fn build(self) -> (r: Result<TransactionV1, TransactionV1BuilderError>)
        ensures
            (self.initiator_addr is None && self.secret_key is None) ==> r == Err::<
                TransactionV1,
                TransactionV1BuilderError,
            >(TransactionV1BuilderError::MissingInitiatorAddr),
            ((self.initiator_addr is Some || self.secret_key is Some) && self.chain_name is None)
                ==> r == Err::<TransactionV1, TransactionV1BuilderError>(
                TransactionV1BuilderError::MissingChainName,
            ),
            ((self.initiator_addr is Some || self.secret_key is Some) && self.chain_name is Some)
                ==> r is Ok,
            r matches Ok(t) ==> ({
                &&& self.chain_name matches Some(n) && t.chain_name@ == n@
                &&& t.timestamp_millis == self.timestamp_millis
                &&& t.ttl_millis == self.ttl_millis
                &&& t.pricing_mode == self.pricing_mode
                &&& (match self.initiator_addr {
                    Some(a) => t.initiator_addr == a,
                    None => self.secret_key matches Some(k) && t.initiator_addr
                        == InitiatorAddr::PublicKey(k.id),
                })
                &&& t.approvals@.len() == (match self.secret_key {
                    Some(_) => 1int,
                    None => 0int,
                }) + self.invalid_approvals@.len()
            }),
    {
        let initiator_addr = match (&self.initiator_addr, &self.secret_key) {
            (Some(a), _) => *a,
            (None, Some(k)) => InitiatorAddr::PublicKey(k.public_key()),
            (None, None) => {
                return Err(TransactionV1BuilderError::MissingInitiatorAddr);
            },
        };
        let chain_name = match self.chain_name {
            Some(n) => n,
            None => {
                return Err(TransactionV1BuilderError::MissingChainName);
            },
        };
        let mut approvals: Vec<Approval> = Vec::new();
        match &self.secret_key {
            Some(k) => {
                approvals.push(Approval { signer: k.id, signature: k.id });
            },
            None => {},
        }
        let mut i: usize = 0;
        while i < self.invalid_approvals.len()
            invariant
                i <= self.invalid_approvals.len(),
                approvals@.len() == i + (match self.secret_key {
                    Some(_) => 1int,
                    None => 0int,
                }),
            decreases self.invalid_approvals.len() - i,
        {
            approvals.push(self.invalid_approvals[i]);
            i = i + 1;
        }
        Ok(
            TransactionV1 {
                chain_name,
                timestamp_millis: self.timestamp_millis,
                ttl_millis: self.ttl_millis,
                body: self.body,
                pricing_mode: self.pricing_mode,
                initiator_addr,
                approvals,
            },
        )
    }
}

} // verus!

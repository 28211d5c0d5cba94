//! Chainspec-derived configuration consumed by the engine.

use vstd::prelude::*;

use crate::keys::Addr;

verus! {

/// The maximum amount of motes that payment code execution can cost, and the
/// minimum main-purse balance held as collateral while it runs.
pub const MAX_PAYMENT_AMOUNT: u64 = 2_500_000_000;

/// The gas price of a wasmless transfer, whatever the user offered.
pub const WASMLESS_TRANSFER_FIXED_GAS_PRICE: u64 = 1;

/// Where consumed fees go.
#[derive(Clone, Copy, PartialEq, Eq, Structural, Debug)]
pub enum FeeHandling {
    /// No fee is taken; a hold for the full cost is placed on the payer.
    NoFee,
    /// The consumed fee is credited to the proposer of the block.
    PayToProposer,
    /// The consumed fee is credited to a shared accumulation purse.
    Accumulate,
    /// The consumed fee is destroyed; total supply decreases.
    Burn,
}

/// The engine's configuration, as derived from the chainspec.
#[derive(Clone, PartialEq, Eq, Debug)]
pub struct EngineConfig {
    pub max_query_depth: u64,
    pub max_runtime_call_stack_height: u32,
    pub wasmless_transfer_cost: u64,
    pub fee_handling: FeeHandling,
    pub administrative_accounts: Vec<Addr>,
    pub allow_unrestricted_transfers: bool,
    pub balance_hold_interval: u64,
    pub prune_batch_size: u64,
    pub native_transfer_minimum_motes: u64,
}

/// The spec view of an `EngineConfig`.
#[verifier::ext_equal]
pub struct EngineConfigV {
    pub max_query_depth: u64,
    pub max_runtime_call_stack_height: u32,
    pub wasmless_transfer_cost: u64,
    pub fee_handling: FeeHandling,
    pub administrative_accounts: Seq<Addr>,
    pub allow_unrestricted_transfers: bool,
    pub balance_hold_interval: u64,
    pub prune_batch_size: u64,
    pub native_transfer_minimum_motes: u64,
}

impl View for EngineConfig {
    type V = EngineConfigV;

    open spec fn view(&self) -> EngineConfigV {
        EngineConfigV {
            max_query_depth: self.max_query_depth,
            max_runtime_call_stack_height: self.max_runtime_call_stack_height,
            wasmless_transfer_cost: self.wasmless_transfer_cost,
            fee_handling: self.fee_handling,
            administrative_accounts: self.administrative_accounts@,
            allow_unrestricted_transfers: self.allow_unrestricted_transfers,
            balance_hold_interval: self.balance_hold_interval,
            prune_batch_size: self.prune_batch_size,
            native_transfer_minimum_motes: self.native_transfer_minimum_motes,
        }
    }
}

impl EngineConfig {
    /// Whether `account` is one of the administrative accounts.
    pub fn is_administrator(&self, account: Addr) -> (r: bool)
        ensures
            r == self@.administrative_accounts.contains(account),
    {
        let mut i: usize = 0;
        while i < self.administrative_accounts.len()
            invariant
                i <= self.administrative_accounts.len(),
                forall|j: int| 0 <= j < i ==> self.administrative_accounts@[j] != account,
            decreases self.administrative_accounts.len() - i,
        {
            if self.administrative_accounts[i] == account {
                proof {
                    assert(self.administrative_accounts@[i as int] == account);
                }
                return true;
            }
            i = i + 1;
        }
        false
    }

    /// Copies the configuration, preserving its view.
    pub fn duplicate(&self) -> (r: EngineConfig)
        ensures
            r@ == self@,
    {
        let r = EngineConfig {
            max_query_depth: self.max_query_depth,
            max_runtime_call_stack_height: self.max_runtime_call_stack_height,
            wasmless_transfer_cost: self.wasmless_transfer_cost,
            fee_handling: self.fee_handling,
            administrative_accounts: crate::vec_util::clone_copy_vec(
                &self.administrative_accounts,
            ),
            allow_unrestricted_transfers: self.allow_unrestricted_transfers,
            balance_hold_interval: self.balance_hold_interval,
            prune_batch_size: self.prune_batch_size,
            native_transfer_minimum_motes: self.native_transfer_minimum_motes,
        };
        proof {
            assert(r@ =~= self@);
        }
        r
    }
}

/// Default cost of the `get_era_validators` auction entry point.
pub const DEFAULT_GET_ERA_VALIDATORS_COST: u64 = 2_500_000_000;

/// Default cost of the `read_seigniorage_recipients` auction entry point.
pub const DEFAULT_READ_SEIGNIORAGE_RECIPIENTS_COST: u64 = 5_000_000_000;

/// Default cost of the `add_bid` auction entry point.
pub const DEFAULT_ADD_BID_COST: u64 = 2_500_000_000;

/// Default cost of the `withdraw_bid` auction entry point.
pub const DEFAULT_WITHDRAW_BID_COST: u64 = 2_500_000_000;

/// Default cost of the `delegate` auction entry point.
pub const DEFAULT_DELEGATE_COST: u64 = 2_500_000_000;

/// Default cost of the `redelegate` auction entry point.
pub const DEFAULT_REDELEGATE_COST: u64 = 2_500_000_000;

/// Default cost of the `undelegate` auction entry point.
pub const DEFAULT_UNDELEGATE_COST: u64 = 2_500_000_000;

/// Default cost of the `run_auction` auction entry point.
pub const DEFAULT_RUN_AUCTION_COST: u64 = 2_500_000_000;

/// Default cost of the `slash` auction entry point.
pub const DEFAULT_SLASH_COST: u64 = 2_500_000_000;

/// Default cost of the `distribute` auction entry point.
pub const DEFAULT_DISTRIBUTE_COST: u64 = 2_500_000_000;

/// Default cost of the `withdraw_delegator_reward` auction entry point.
pub const DEFAULT_WITHDRAW_DELEGATOR_REWARD_COST: u64 = 5_000_000_000;

/// Default cost of the `withdraw_validator_reward` auction entry point.
pub const DEFAULT_WITHDRAW_VALIDATOR_REWARD_COST: u64 = 5_000_000_000;

/// Default cost of the `read_era_id` auction entry point.
pub const DEFAULT_READ_ERA_ID_COST: u64 = 10_000;

/// Default cost of the `activate_bid` auction entry point.
pub const DEFAULT_ACTIVATE_BID_COST: u64 = 10_000;

/// Default cost of the `change_bid_public_key` auction entry point.
pub const DEFAULT_CHANGE_BID_PUBLIC_KEY_COST: u64 = 5_000_000_000;

/// Default cost of the `add_reservations` auction entry point.
pub const DEFAULT_ADD_RESERVATIONS_COST: u64 = 2_500_000_000;

/// Default cost of the `cancel_reservations` auction entry point.
pub const DEFAULT_CANCEL_RESERVATIONS_COST: u64 = 2_500_000_000;

/// Costs of calling auction entry points.
#[derive(Clone, Copy, PartialEq, Eq, Structural, Debug)]
pub struct AuctionCosts {
    pub get_era_validators: u64,
    pub read_seigniorage_recipients: u64,
    pub add_bid: u64,
    pub withdraw_bid: u64,
    pub delegate: u64,
    pub undelegate: u64,
    pub run_auction: u64,
    pub slash: u64,
    pub distribute: u64,
    pub withdraw_delegator_reward: u64,
    pub withdraw_validator_reward: u64,
    pub read_era_id: u64,
    pub activate_bid: u64,
    pub redelegate: u64,
    pub change_bid_public_key: u64,
    pub add_reservations: u64,
    pub cancel_reservations: u64,
}

impl Default for AuctionCosts {
    /// The default auction costs.
    fn default() -> (r: AuctionCosts)
        ensures
            r == (AuctionCosts {
                get_era_validators: DEFAULT_GET_ERA_VALIDATORS_COST,
                read_seigniorage_recipients: DEFAULT_READ_SEIGNIORAGE_RECIPIENTS_COST,
                add_bid: DEFAULT_ADD_BID_COST,
                withdraw_bid: DEFAULT_WITHDRAW_BID_COST,
                delegate: DEFAULT_DELEGATE_COST,
                undelegate: DEFAULT_UNDELEGATE_COST,
                run_auction: DEFAULT_RUN_AUCTION_COST,
                slash: DEFAULT_SLASH_COST,
                distribute: DEFAULT_DISTRIBUTE_COST,
                withdraw_delegator_reward: DEFAULT_WITHDRAW_DELEGATOR_REWARD_COST,
                withdraw_validator_reward: DEFAULT_WITHDRAW_VALIDATOR_REWARD_COST,
                read_era_id: DEFAULT_READ_ERA_ID_COST,
                activate_bid: DEFAULT_ACTIVATE_BID_COST,
                redelegate: DEFAULT_REDELEGATE_COST,
                change_bid_public_key: DEFAULT_CHANGE_BID_PUBLIC_KEY_COST,
                add_reservations: DEFAULT_ADD_RESERVATIONS_COST,
                cancel_reservations: DEFAULT_CANCEL_RESERVATIONS_COST,
            }),
    {
        AuctionCosts {
            get_era_validators: DEFAULT_GET_ERA_VALIDATORS_COST,
            read_seigniorage_recipients: DEFAULT_READ_SEIGNIORAGE_RECIPIENTS_COST,
            add_bid: DEFAULT_ADD_BID_COST,
            withdraw_bid: DEFAULT_WITHDRAW_BID_COST,
            delegate: DEFAULT_DELEGATE_COST,
            undelegate: DEFAULT_UNDELEGATE_COST,
            run_auction: DEFAULT_RUN_AUCTION_COST,
            slash: DEFAULT_SLASH_COST,
            distribute: DEFAULT_DISTRIBUTE_COST,
            withdraw_delegator_reward: DEFAULT_WITHDRAW_DELEGATOR_REWARD_COST,
            withdraw_validator_reward: DEFAULT_WITHDRAW_VALIDATOR_REWARD_COST,
            read_era_id: DEFAULT_READ_ERA_ID_COST,
            activate_bid: DEFAULT_ACTIVATE_BID_COST,
            redelegate: DEFAULT_REDELEGATE_COST,
            change_bid_public_key: DEFAULT_CHANGE_BID_PUBLIC_KEY_COST,
            add_reservations: DEFAULT_ADD_RESERVATIONS_COST,
            cancel_reservations: DEFAULT_CANCEL_RESERVATIONS_COST,
        }
    }
}

} // verus!

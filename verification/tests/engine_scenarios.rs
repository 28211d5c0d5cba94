//! End-to-end scenarios against the engine: genesis, the wasmless
//! transfer, deploys, the era-boundary step, and upgrades.

use execution_engine::amounts::{gas_to_motes, motes_to_gas, Gas, Motes};
use execution_engine::config::{EngineConfig, FeeHandling};
use execution_engine::engine_state::{
    BalanceResult, EngineState, GenesisAccount, GenesisConfig, StepRequest,
    ROUND_SEIGNIORAGE_RATE_NAME, VALIDATOR_SLOTS_NAME,
};
use execution_engine::engine_state::UpgradeConfig;
use execution_engine::execution::{
    DeployItem, PaymentItem, TransferArgs, TransferTarget, WasmOutcome, STANDARD_PAYMENT_GAS,
};
use execution_engine::keys::Key;
use execution_engine::result::{Error, ExecutionResult};
use execution_engine::effects::{Effects, Transform, TransformKind};
use execution_engine::store::GlobalState;
use execution_engine::tracking_copy::QueryOutcome;
use execution_engine::values::{
    Account, ActionThresholds, AssociatedKey, BidKind, Ratio64, StoredValue,
};

const ACCOUNT_A: u64 = 10;
const PURSE_A: u64 = 110;
const PROPOSER: u64 = 11;
const PURSE_PROPOSER: u64 = 111;
const VALIDATOR_V: u64 = 12;
const PURSE_V: u64 = 112;
const VALIDATOR_W: u64 = 13;
const PURSE_W: u64 = 113;
const WASMLESS_COST: u64 = 100;

fn engine_config(fee_handling: FeeHandling) -> EngineConfig {
    EngineConfig {
        max_query_depth: 10,
        max_runtime_call_stack_height: 10,
        wasmless_transfer_cost: WASMLESS_COST,
        fee_handling,
        administrative_accounts: vec![],
        allow_unrestricted_transfers: true,
        balance_hold_interval: 0,
        prune_batch_size: 0,
        native_transfer_minimum_motes: 1,
    }
}

fn genesis_config() -> GenesisConfig {
    GenesisConfig {
        mint_hash: 1000,
        auction_hash: 1001,
        handle_payment_hash: 1002,
        payment_purse: 2000,
        accumulation_purse: 2001,
        accounts: vec![
            GenesisAccount {
                account_hash: ACCOUNT_A,
                main_purse: PURSE_A,
                balance: 10_000_000_000,
                stake: 0,
            },
            GenesisAccount {
                account_hash: PROPOSER,
                main_purse: PURSE_PROPOSER,
                balance: 5_000_000_000,
                stake: 0,
            },
            GenesisAccount {
                account_hash: VALIDATOR_V,
                main_purse: PURSE_V,
                balance: 1_000_000,
                stake: 500,
            },
            GenesisAccount {
                account_hash: VALIDATOR_W,
                main_purse: PURSE_W,
                balance: 1_000_000,
                stake: 700,
            },
        ],
        initial_era_id: 0,
        round_seigniorage_rate: (125, 1000),
        validator_slots: 100,
    }
}

fn booted_engine(fee_handling: FeeHandling) -> (EngineState, u64) {
    let mut engine = EngineState::new(GlobalState::new(), engine_config(fee_handling));
    let genesis = engine.commit_genesis(&genesis_config()).expect("genesis should succeed");
    (engine, genesis.post_state_hash)
}

fn balance_of(engine: &EngineState, root: u64, purse: u64) -> u128 {
    match engine.get_purse_balance(root, purse).expect("balance request should succeed") {
        BalanceResult::Success { motes } => motes,
        BalanceResult::RootNotFound => panic!("root should exist"),
    }
}

#[test]
fn genesis_reduces_seigniorage_rate() {
    let (engine, root) = booted_engine(FeeHandling::PayToProposer);
    let tc = engine.tracking_copy(root).expect("root should exist");
    match tc.read(Key::NamedKey(1000, ROUND_SEIGNIORAGE_RATE_NAME)) {
        Some(StoredValue::Ratio(Ratio64 { numer, denom })) => {
            assert_eq!((numer, denom), (1, 8));
        }
        other => panic!("unexpected rate record: {:?}", other),
    }
}

#[test]
fn native_transfer_standard_case() {
    let (mut engine, root) = booted_engine(FeeHandling::PayToProposer);
    let new_account: u64 = 99;
    let deploy_hash: u64 = 777;
    let result = engine
        .transfer(
            root,
            ACCOUNT_A,
            deploy_hash,
            &vec![ACCOUNT_A],
            TransferArgs {
                source: None,
                target: TransferTarget::AccountHash(new_account),
                amount: 1_000_000,
                id: None,
            },
            PROPOSER,
        )
        .expect("transfer should not abort the block");
    let effects = match &result {
        ExecutionResult::Success { effects, cost, .. } => {
            assert_eq!(cost.value, WASMLESS_COST as u128);
            effects.duplicate()
        }
        ExecutionResult::Failure { error, .. } => panic!("transfer failed: {:?}", error),
    };
    let new_root = engine.commit_effects(root, &effects).expect("commit should succeed");
    // The payer loses the amount plus the wasmless cost.
    assert_eq!(
        balance_of(&engine, new_root, PURSE_A),
        10_000_000_000 - 1_000_000 - WASMLESS_COST as u128
    );
    // The new account's main purse holds exactly the amount.
    let tc = engine.tracking_copy(new_root).expect("root should exist");
    let target_purse = match tc.read(Key::Account(new_account)) {
        Some(StoredValue::Key(entity_key)) => match tc.read(entity_key) {
            Some(StoredValue::Entity(entity)) => entity.main_purse,
            other => panic!("unexpected entity record: {:?}", other),
        },
        other => panic!("unexpected account record: {:?}", other),
    };
    assert_eq!(balance_of(&engine, new_root, target_purse), 1_000_000);
    // The proposer collects the fee.
    assert_eq!(
        balance_of(&engine, new_root, PURSE_PROPOSER),
        5_000_000_000 + WASMLESS_COST as u128
    );
    // A receipt exists under the deploy hash, costed at the wasmless cost.
    match tc.read(Key::DeployInfo(deploy_hash)) {
        Some(StoredValue::DeployInfo(info)) => {
            assert_eq!(info.gas, WASMLESS_COST as u128);
            assert_eq!(info.from, ACCOUNT_A);
        }
        other => panic!("unexpected receipt: {:?}", other),
    }
}

#[test]
fn transfer_below_minimum_balance_is_a_precondition_failure() {
    let (mut engine, root) = booted_engine(FeeHandling::PayToProposer);
    // Drain the payer to below the wasmless cost first.
    let drain = engine
        .transfer(
            root,
            VALIDATOR_V,
            1,
            &vec![VALIDATOR_V],
            TransferArgs {
                source: None,
                target: TransferTarget::AccountHash(ACCOUNT_A),
                amount: 999_850,
                id: None,
            },
            PROPOSER,
        )
        .expect("transfer should not abort the block");
    let effects = match &drain {
        ExecutionResult::Success { effects, .. } => effects.duplicate(),
        ExecutionResult::Failure { error, .. } => panic!("drain failed: {:?}", error),
    };
    let root = engine.commit_effects(root, &effects).expect("commit should succeed");
    assert!(balance_of(&engine, root, PURSE_V) < WASMLESS_COST as u128);
    let result = engine
        .transfer(
            root,
            VALIDATOR_V,
            2,
            &vec![VALIDATOR_V],
            TransferArgs {
                source: None,
                target: TransferTarget::AccountHash(ACCOUNT_A),
                amount: 1,
                id: None,
            },
            PROPOSER,
        )
        .expect("transfer should not abort the block");
    match result {
        ExecutionResult::Failure { error, cost, effects, .. } => {
            assert!(matches!(error, Error::InsufficientPayment));
            assert_eq!(cost.value, 0);
            assert_eq!(effects.len(), 0);
        }
        ExecutionResult::Success { .. } => panic!("expected a precondition failure"),
    }
}

#[test]
fn deploy_below_max_payment_is_rejected_with_zero_effects() {
    let (engine, root) = booted_engine(FeeHandling::PayToProposer);
    // Account V's balance is far below the maximum payment collateral.
    let deploy = DeployItem {
        address: VALIDATOR_V,
        deploy_hash: 50,
        authorization_keys: vec![VALIDATOR_V],
        gas_price: 1,
        payment: PaymentItem { standard: true, amount: 1_000_000, outcome: None },
        session_outcome: WasmOutcome { consumed: 5_000, error: None, writes: vec![] },
    };
    let result = engine.deploy(root, &deploy, PROPOSER).expect("deploy should not abort");
    match result {
        ExecutionResult::Failure { error, cost, effects, .. } => {
            assert!(matches!(error, Error::InsufficientPayment));
            assert_eq!(cost.value, 0);
            assert_eq!(effects.len(), 0);
        }
        ExecutionResult::Success { .. } => panic!("expected a precondition failure"),
    }
}

#[test]
fn deploy_success_charges_payment_plus_session() {
    let (mut engine, root) = booted_engine(FeeHandling::PayToProposer);
    let deploy = DeployItem {
        address: ACCOUNT_A,
        deploy_hash: 51,
        authorization_keys: vec![ACCOUNT_A],
        gas_price: 1,
        payment: PaymentItem { standard: true, amount: 3_000_000_000, outcome: None },
        session_outcome: WasmOutcome {
            consumed: 5_000,
            error: None,
            writes: vec![(Key::Uref(9999), StoredValue::U64(1))],
        },
    };
    let result = engine.deploy(root, &deploy, PROPOSER).expect("deploy should not abort");
    let effects = match &result {
        ExecutionResult::Success { cost, effects, .. } => {
            assert_eq!(cost.value, STANDARD_PAYMENT_GAS as u128 + 5_000);
            effects.duplicate()
        }
        ExecutionResult::Failure { error, .. } => panic!("deploy failed: {:?}", error),
    };
    let new_root = engine.commit_effects(root, &effects).expect("commit should succeed");
    let tc = engine.tracking_copy(new_root).expect("root should exist");
    match tc.read(Key::DeployInfo(51)) {
        Some(StoredValue::DeployInfo(info)) => {
            assert_eq!(info.gas, STANDARD_PAYMENT_GAS as u128 + 5_000);
        }
        other => panic!("unexpected receipt: {:?}", other),
    }
    // The session's write went through.
    assert!(matches!(tc.read(Key::Uref(9999)), Some(StoredValue::U64(1))));
    // The money moved exactly: the payer covers the cost, the proposer
    // collects it, the payment purse drains back to zero.
    let cost = STANDARD_PAYMENT_GAS as u128 + 5_000;
    assert_eq!(balance_of(&engine, new_root, PURSE_A), 10_000_000_000 - cost);
    assert_eq!(balance_of(&engine, new_root, PURSE_PROPOSER), 5_000_000_000 + cost);
    assert_eq!(balance_of(&engine, new_root, 2000), 0);
}

#[test]
fn failed_session_is_charged_payment_only_and_keeps_its_receipt() {
    let (mut engine, root) = booted_engine(FeeHandling::PayToProposer);
    let deploy = DeployItem {
        address: ACCOUNT_A,
        deploy_hash: 52,
        authorization_keys: vec![ACCOUNT_A],
        gas_price: 1,
        payment: PaymentItem { standard: true, amount: 3_000_000_000, outcome: None },
        session_outcome: WasmOutcome {
            consumed: 5_000,
            error: Some(execution_engine::result::ExecError::Revert(1)),
            writes: vec![(Key::Uref(9999), StoredValue::U64(1))],
        },
    };
    let result = engine.deploy(root, &deploy, PROPOSER).expect("deploy should not abort");
    let effects = match &result {
        ExecutionResult::Failure { cost, effects, .. } => {
            // The failed session's cost is discarded: only payment remains.
            assert_eq!(cost.value, STANDARD_PAYMENT_GAS as u128);
            effects.duplicate()
        }
        ExecutionResult::Success { .. } => panic!("expected a charged failure"),
    };
    let new_root = engine.commit_effects(root, &effects).expect("commit should succeed");
    let tc = engine.tracking_copy(new_root).expect("root should exist");
    // The receipt survives, costed at payment times price.
    match tc.read(Key::DeployInfo(52)) {
        Some(StoredValue::DeployInfo(info)) => {
            assert_eq!(info.gas, STANDARD_PAYMENT_GAS as u128);
        }
        other => panic!("unexpected receipt: {:?}", other),
    }
    // The session's writes were discarded.
    assert!(tc.read(Key::Uref(9999)).is_none());
    // Only the payment cost moved: payer down, proposer up, payment empty.
    assert_eq!(
        balance_of(&engine, new_root, PURSE_A),
        10_000_000_000 - STANDARD_PAYMENT_GAS as u128
    );
    assert_eq!(
        balance_of(&engine, new_root, PURSE_PROPOSER),
        5_000_000_000 + STANDARD_PAYMENT_GAS as u128
    );
    assert_eq!(balance_of(&engine, new_root, 2000), 0);
}

#[test]
fn auction_step_evicts_inactive_validator() {
    let (mut engine, root) = booted_engine(FeeHandling::PayToProposer);
    let outcome = engine
        .commit_step(StepRequest {
            pre_state_hash: root,
            protocol_version: 1,
            slashed_validators: vec![],
            evict_items: vec![VALIDATOR_V],
            next_era_id: 1,
            era_end_timestamp_millis: 1_000,
        })
        .expect("step should succeed");
    let snapshot = engine
        .get_era_validators(outcome.post_state_hash)
        .expect("snapshot should exist");
    let last = snapshot.eras.last().expect("snapshot should hold the new era");
    assert_eq!(last.era_id, 1);
    assert!(last.validators.iter().all(|vw| vw.validator != VALIDATOR_V));
    assert!(last.validators.iter().any(|vw| vw.validator == VALIDATOR_W && vw.weight == 700));
    // The evicted stake is not silently retained at tip: the bid is marked.
    let tc = engine.tracking_copy(outcome.post_state_hash).expect("root should exist");
    match tc.read(Key::BidAddr(VALIDATOR_V)) {
        Some(StoredValue::BidKind(BidKind::Validator(vb))) => {
            assert!(vb.inactive);
            assert_eq!(vb.stake, 500);
        }
        other => panic!("unexpected bid record: {:?}", other),
    }
}

#[test]
fn slashed_validator_loses_its_bid() {
    let (mut engine, root) = booted_engine(FeeHandling::PayToProposer);
    let outcome = engine
        .commit_step(StepRequest {
            pre_state_hash: root,
            protocol_version: 1,
            slashed_validators: vec![VALIDATOR_W],
            evict_items: vec![],
            next_era_id: 1,
            era_end_timestamp_millis: 1_000,
        })
        .expect("step should succeed");
    let tc = engine.tracking_copy(outcome.post_state_hash).expect("root should exist");
    assert!(tc.read(Key::BidAddr(VALIDATOR_W)).is_none());
    let snapshot = engine
        .get_era_validators(outcome.post_state_hash)
        .expect("snapshot should exist");
    let last = snapshot.eras.last().expect("snapshot should hold the new era");
    assert!(last.validators.iter().all(|vw| vw.validator != VALIDATOR_W));
}

#[test]
fn rewards_credit_validator_bids() {
    let (mut engine, root) = booted_engine(FeeHandling::PayToProposer);
    let new_root = engine
        .distribute_block_rewards(root, &vec![(VALIDATOR_V, 250), (VALIDATOR_W, 300)])
        .expect("distribution should succeed");
    let tc = engine.tracking_copy(new_root).expect("root should exist");
    match tc.read(Key::BidAddr(VALIDATOR_V)) {
        Some(StoredValue::BidKind(BidKind::Validator(vb))) => assert_eq!(vb.stake, 750),
        other => panic!("unexpected bid record: {:?}", other),
    }
    match tc.read(Key::BidAddr(VALIDATOR_W)) {
        Some(StoredValue::BidKind(BidKind::Validator(vb))) => assert_eq!(vb.stake, 1_000),
        other => panic!("unexpected bid record: {:?}", other),
    }
}

#[test]
fn upgrade_updates_auction_configuration() {
    let (mut engine, root) = booted_engine(FeeHandling::PayToProposer);
    let upgrade = UpgradeConfig {
        pre_state_hash: root,
        current_protocol_version: 1,
        new_protocol_version: 2,
        new_validator_slots: Some(150),
        new_auction_delay: None,
        new_locked_funds_period_millis: None,
        new_round_seigniorage_rate: Some((2, 4)),
        new_unbonding_delay: None,
        global_state_update: vec![],
        activation_point: None,
    };
    let success = engine.commit_upgrade(&upgrade).expect("upgrade should succeed");
    let tc = engine.tracking_copy(success.post_state_hash).expect("root should exist");
    assert!(matches!(
        tc.read(Key::NamedKey(1001, VALIDATOR_SLOTS_NAME)),
        Some(StoredValue::U64(150))
    ));
    match tc.read(Key::NamedKey(1000, ROUND_SEIGNIORAGE_RATE_NAME)) {
        Some(StoredValue::Ratio(Ratio64 { numer, denom })) => assert_eq!((numer, denom), (1, 2)),
        other => panic!("unexpected rate record: {:?}", other),
    }
    // A non-advancing protocol version is refused.
    let stale = UpgradeConfig { new_protocol_version: 1, ..upgrade };
    assert!(matches!(engine.commit_upgrade(&stale), Err(Error::InvalidProtocolVersion)));
}

#[test]
fn prune_removes_expired_era_records() {
    let (mut engine, root) = booted_engine(FeeHandling::PayToProposer);
    let mut effects = execution_engine::effects::Effects::new();
    effects.push(execution_engine::effects::Transform {
        key: Key::EraInfo(0),
        kind: execution_engine::effects::TransformKind::Write(StoredValue::EraInfo(0)),
    });
    let root = engine.commit_effects(root, &effects).expect("commit should succeed");
    let pruned_root = engine
        .commit_prune(root, &vec![Key::EraInfo(0)])
        .expect("prune should succeed")
        .expect("root should exist");
    let tc = engine.tracking_copy(pruned_root).expect("root should exist");
    assert!(tc.read(Key::EraInfo(0)).is_none());
}

#[test]
fn accumulated_fees_flow_to_administrators_before_rewards() {
    let admin: u64 = 30;
    let admin_purse: u64 = 130;
    let mut config = engine_config(FeeHandling::Accumulate);
    config.administrative_accounts = vec![admin];
    let mut genesis = genesis_config();
    genesis.accounts.push(GenesisAccount {
        account_hash: admin,
        main_purse: admin_purse,
        balance: 1_000,
        stake: 0,
    });
    let mut engine = EngineState::new(GlobalState::new(), config);
    let boot = engine.commit_genesis(&genesis).expect("genesis should succeed");
    // A transfer in accumulate mode routes its fee into the accumulation
    // purse.
    let result = engine
        .transfer(
            boot.post_state_hash,
            ACCOUNT_A,
            900,
            &vec![ACCOUNT_A],
            TransferArgs {
                source: None,
                target: TransferTarget::AccountHash(PROPOSER),
                amount: 1_000,
                id: None,
            },
            PROPOSER,
        )
        .expect("transfer should not abort the block");
    let effects = match &result {
        ExecutionResult::Success { effects, .. } => effects.duplicate(),
        ExecutionResult::Failure { error, .. } => panic!("transfer failed: {:?}", error),
    };
    let root = engine.commit_effects(boot.post_state_hash, &effects).expect("commit");
    assert_eq!(balance_of(&engine, root, 2001), WASMLESS_COST as u128);
    // Reward distribution first empties the accumulation purse to the
    // administrators.
    let new_root = engine
        .distribute_block_rewards(root, &vec![(VALIDATOR_V, 1)])
        .expect("distribution should succeed");
    assert_eq!(balance_of(&engine, new_root, 2001), 0);
    assert_eq!(balance_of(&engine, new_root, admin_purse), 1_000 + WASMLESS_COST as u128);
}

#[test]
fn run_execute_yields_one_result_per_deploy() {
    let (engine, root) = booted_engine(FeeHandling::PayToProposer);
    let transfer_item = DeployItem {
        address: ACCOUNT_A,
        deploy_hash: 60,
        authorization_keys: vec![ACCOUNT_A],
        gas_price: 1,
        payment: PaymentItem { standard: true, amount: 0, outcome: None },
        session_outcome: WasmOutcome { consumed: 0, error: None, writes: vec![] },
    };
    let transfer_args = TransferArgs {
        source: None,
        target: TransferTarget::AccountHash(PROPOSER),
        amount: 5_000,
        id: None,
    };
    let deploy_item = DeployItem {
        address: ACCOUNT_A,
        deploy_hash: 61,
        authorization_keys: vec![ACCOUNT_A],
        gas_price: 1,
        payment: PaymentItem { standard: true, amount: 3_000_000_000, outcome: None },
        session_outcome: WasmOutcome { consumed: 1_000, error: None, writes: vec![] },
    };
    let results = engine
        .run_execute(root, &vec![(transfer_item, transfer_args)], &vec![deploy_item], PROPOSER)
        .expect("request should run");
    assert_eq!(results.len(), 2);
    assert!(results.iter().all(|r| matches!(r, ExecutionResult::Success { .. })));
    // A missing root aborts the whole request.
    let missing = DeployItem {
        address: ACCOUNT_A,
        deploy_hash: 62,
        authorization_keys: vec![ACCOUNT_A],
        gas_price: 1,
        payment: PaymentItem { standard: true, amount: 1, outcome: None },
        session_outcome: WasmOutcome { consumed: 0, error: None, writes: vec![] },
    };
    assert!(matches!(
        engine.run_execute(9_999, &vec![], &vec![missing], PROPOSER),
        Err(Error::RootNotFound(9_999))
    ));
}

#[test]
fn get_balance_resolves_the_main_purse() {
    let (engine, root) = booted_engine(FeeHandling::PayToProposer);
    match engine.get_balance(root, ACCOUNT_A).expect("lookup should succeed") {
        BalanceResult::Success { motes } => assert_eq!(motes, 10_000_000_000),
        BalanceResult::RootNotFound => panic!("root should exist"),
    }
    assert!(matches!(
        engine.get_balance(9_999, ACCOUNT_A),
        Ok(BalanceResult::RootNotFound)
    ));
}

#[test]
fn gas_motes_conversion_round_trips_and_reports_overflow() {
    for (g, p) in [(0u128, 1u64), (1, 1), (12_345, 7), (1_000_000_000, 100)] {
        let motes = gas_to_motes(Gas::new(g), p).expect("conversion should fit");
        let back = motes_to_gas(motes, p).expect("price is nonzero");
        assert_eq!(back.value, g);
    }
    // Overflow is an error, never a wrap.
    assert!(gas_to_motes(Gas::new(u128::MAX), 2).is_none());
    // A zero price cannot convert back.
    assert!(motes_to_gas(Motes::new(10), 0).is_none());
}

#[test]
fn deploy_from_unmigrated_account_below_collateral_is_rejected() {
    let (mut engine, root) = booted_engine(FeeHandling::PayToProposer);
    // Plant a legacy account record whose purse is far below the payment
    // collateral; the engine migrates it on first touch, then rejects the
    // deploy with zero cost and zero effects.
    let legacy_account: u64 = 77;
    let legacy_purse: u64 = 177;
    let mut effects = Effects::new();
    effects.push(Transform {
        key: Key::Account(legacy_account),
        kind: TransformKind::Write(StoredValue::Account(Account {
            account_hash: legacy_account,
            main_purse: legacy_purse,
            named_keys: vec![],
            associated_keys: vec![AssociatedKey { account: legacy_account, weight: 1 }],
            action_thresholds: ActionThresholds { deployment: 1, key_management: 1 },
        })),
    });
    effects.push(Transform {
        key: Key::Balance(legacy_purse),
        kind: TransformKind::Write(StoredValue::Amount(1_000)),
    });
    let root = engine.commit_effects(root, &effects).expect("commit should succeed");
    let deploy = DeployItem {
        address: legacy_account,
        deploy_hash: 60,
        authorization_keys: vec![legacy_account],
        gas_price: 1,
        payment: PaymentItem { standard: true, amount: 1_000_000, outcome: None },
        session_outcome: WasmOutcome { consumed: 5_000, error: None, writes: vec![] },
    };
    let result = engine.deploy(root, &deploy, PROPOSER).expect("deploy should not abort");
    match result {
        ExecutionResult::Failure { error, cost, effects, .. } => {
            assert!(matches!(error, Error::InsufficientPayment));
            assert_eq!(cost.value, 0);
            assert_eq!(effects.len(), 0);
        }
        ExecutionResult::Success { .. } => panic!("expected a precondition failure"),
    }
}

#[test]
fn zero_cost_success_needs_full_collateral() {
    let (engine, root) = booted_engine(FeeHandling::PayToProposer);
    // The session consumed nothing and the payment collateral fell short of
    // the maximum payment: this is a charged user error, not a free ride.
    let deploy = DeployItem {
        address: ACCOUNT_A,
        deploy_hash: 70,
        authorization_keys: vec![ACCOUNT_A],
        gas_price: 1,
        payment: PaymentItem { standard: true, amount: 1_000_000, outcome: None },
        session_outcome: WasmOutcome { consumed: 0, error: None, writes: vec![] },
    };
    let result = engine.deploy(root, &deploy, PROPOSER).expect("deploy should not abort");
    match result {
        ExecutionResult::Failure { error, effects, .. } => {
            assert!(matches!(error, Error::InsufficientPayment));
            assert_eq!(effects.len(), 2);
        }
        ExecutionResult::Success { .. } => panic!("expected a charged failure"),
    }
}

#[test]
fn query_retries_under_the_legacy_hash_address() {
    let (mut engine, root) = booted_engine(FeeHandling::PayToProposer);
    // A record that exists only under its legacy hash address is still
    // found when queried by its entity key.
    let mut effects = Effects::new();
    effects.push(Transform {
        key: Key::Hash(555),
        kind: TransformKind::Write(StoredValue::U64(7)),
    });
    let root = engine.commit_effects(root, &effects).expect("commit should succeed");
    match engine.run_query(root, Key::Entity(555), &vec![]) {
        Some(QueryOutcome::Success(StoredValue::U64(7))) => {}
        _ => panic!("the legacy record should be found"),
    }
    // With no record under either address the miss stands.
    assert!(matches!(
        engine.run_query(root, Key::Entity(556), &vec![]),
        Some(QueryOutcome::ValueNotFound(_))
    ));
}

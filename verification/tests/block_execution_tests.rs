//! The block orchestrator: ordered application, artifacts for every
//! transaction, checksums, and the era-boundary outcome.

use execution_engine::block::{
    calculate_prune_eras, execute_finalized_block, BlockTransaction, ExecutableBlock,
    ExecutionPreState, InternalEraReport, TransactionCategory,
};
use execution_engine::config::{EngineConfig, FeeHandling};
use execution_engine::engine_state::{
    BalanceResult, EngineState, GenesisAccount, GenesisConfig,
};
use execution_engine::execution::{TransferArgs, TransferTarget};
use execution_engine::keys::Key;
use execution_engine::result::Error;
use execution_engine::store::GlobalState;
use execution_engine::values::StoredValue;

const ACCOUNT_A: u64 = 20;
const PURSE_A: u64 = 220;
const ACCOUNT_B: u64 = 21;
const PURSE_B: u64 = 221;
const PROPOSER: u64 = 22;
const PURSE_PROPOSER: u64 = 222;

fn booted() -> (EngineState, u64) {
    let config = EngineConfig {
        max_query_depth: 10,
        max_runtime_call_stack_height: 10,
        wasmless_transfer_cost: 100,
        fee_handling: FeeHandling::PayToProposer,
        administrative_accounts: vec![],
        allow_unrestricted_transfers: true,
        balance_hold_interval: 0,
        prune_batch_size: 0,
        native_transfer_minimum_motes: 1,
    };
    let genesis = GenesisConfig {
        mint_hash: 1000,
        auction_hash: 1001,
        handle_payment_hash: 1002,
        payment_purse: 2000,
        accumulation_purse: 2001,
        accounts: vec![
            GenesisAccount {
                account_hash: ACCOUNT_A,
                main_purse: PURSE_A,
                balance: 1_000_000,
                stake: 0,
            },
            GenesisAccount {
                account_hash: ACCOUNT_B,
                main_purse: PURSE_B,
                balance: 1_000_000,
                stake: 40,
            },
            GenesisAccount {
                account_hash: PROPOSER,
                main_purse: PURSE_PROPOSER,
                balance: 1_000_000,
                stake: 0,
            },
        ],
        initial_era_id: 0,
        round_seigniorage_rate: (1, 8),
        validator_slots: 10,
    };
    let mut engine = EngineState::new(GlobalState::new(), config);
    let success = engine.commit_genesis(&genesis).expect("genesis should succeed");
    (engine, success.post_state_hash)
}

fn mint_transaction(hash: u64, initiator: u64, target: u64, amount: u128) -> BlockTransaction {
    BlockTransaction {
        hash,
        initiator,
        is_account_session: true,
        is_standard_payment: true,
        category: TransactionCategory::Mint,
        gas_limit: 10,
        transfer_args: Some(TransferArgs {
            source: None,
            target: TransferTarget::AccountHash(target),
            amount,
            id: None,
        }),
        auction_method: None,
        session_outcome: None,
        custom_payment_outcome: None,
    }
}

fn balance_of(engine: &EngineState, root: u64, purse: u64) -> u128 {
    match engine.get_purse_balance(root, purse).expect("balance request should succeed") {
        BalanceResult::Success { motes } => motes,
        BalanceResult::RootNotFound => panic!("root should exist"),
    }
}

#[test]
fn transactions_apply_in_order_and_each_leaves_an_artifact() {
    let (mut engine, root) = booted();
    let block = ExecutableBlock {
        height: 1,
        era_id: 0,
        timestamp_millis: 1_000,
        random_bit: false,
        proposer: PROPOSER,
        transactions: vec![
            // The second transfer only works if it sees the first one's
            // effect: it moves more than B's genesis balance.
            mint_transaction(500, ACCOUNT_A, ACCOUNT_B, 600_000),
            mint_transaction(501, ACCOUNT_B, ACCOUNT_A, 1_400_000),
        ],
        era_report: None,
        rewards: None,
    };
    let pre_state = ExecutionPreState {
        next_block_height: 1,
        pre_state_root_hash: root,
        parent_hash: 0,
        parent_seed: 0,
    };
    let out = execute_finalized_block(&mut engine, &pre_state, block, 0, 0, 1, None)
        .expect("block should execute");
    assert_eq!(out.artifacts.len(), 2);
    assert!(out.artifacts[0].error.is_none());
    assert!(out.artifacts[1].error.is_none());
    assert!(out.step_outcome.is_none());
    // Each transfer paid its ten motes of fee to the proposer.
    assert_eq!(balance_of(&engine, out.state_root_hash, PURSE_PROPOSER), 1_000_000 + 20);
    assert_eq!(
        balance_of(&engine, out.state_root_hash, PURSE_A),
        1_000_000 - 600_000 - 10 + 1_400_000
    );
    assert_eq!(
        balance_of(&engine, out.state_root_hash, PURSE_B),
        1_000_000 + 600_000 - 10 - 1_400_000
    );
    // The checksum registry was committed alongside.
    let tc = engine.tracking_copy(out.state_root_hash).expect("root should exist");
    match tc.read(Key::ChecksumRegistry) {
        Some(StoredValue::Checksums(reg)) => {
            assert_eq!(reg.approvals_checksum, out.approvals_checksum);
            assert_eq!(reg.execution_results_checksum, out.execution_results_checksum);
        }
        other => panic!("unexpected checksum registry: {:?}", other),
    }
}

#[test]
fn wrong_height_and_missing_gas_price_abort_the_block() {
    let (mut engine, root) = booted();
    let pre_state = ExecutionPreState {
        next_block_height: 1,
        pre_state_root_hash: root,
        parent_hash: 0,
        parent_seed: 0,
    };
    let wrong_height = ExecutableBlock {
        height: 9,
        era_id: 0,
        timestamp_millis: 1_000,
        random_bit: false,
        proposer: PROPOSER,
        transactions: vec![],
        era_report: None,
        rewards: None,
    };
    assert!(execute_finalized_block(&mut engine, &pre_state, wrong_height, 0, 0, 1, None).is_err());
    let switch_without_price = ExecutableBlock {
        height: 1,
        era_id: 0,
        timestamp_millis: 1_000,
        random_bit: false,
        proposer: PROPOSER,
        transactions: vec![],
        era_report: Some(InternalEraReport { equivocators: vec![], inactive_validators: vec![] }),
        rewards: None,
    };
    assert!(
        execute_finalized_block(&mut engine, &pre_state, switch_without_price, 0, 0, 1, None)
            .is_err()
    );
}

#[test]
fn switch_block_rotates_the_validator_set() {
    let (mut engine, root) = booted();
    let block = ExecutableBlock {
        height: 1,
        era_id: 0,
        timestamp_millis: 1_000,
        random_bit: true,
        proposer: PROPOSER,
        transactions: vec![],
        era_report: Some(InternalEraReport {
            equivocators: vec![],
            inactive_validators: vec![ACCOUNT_B],
        }),
        rewards: Some(vec![(ACCOUNT_B, 5)]),
    };
    let pre_state = ExecutionPreState {
        next_block_height: 1,
        pre_state_root_hash: root,
        parent_hash: 0,
        parent_seed: 0,
    };
    let out = execute_finalized_block(&mut engine, &pre_state, block, 0, 0, 1, Some(2))
        .expect("block should execute");
    let step = out.step_outcome.expect("a switch block yields a step outcome");
    let last = step.upcoming_era_validators.eras.last().expect("new era present");
    assert_eq!(last.era_id, 1);
    assert!(last.validators.iter().all(|vw| vw.validator != ACCOUNT_B));
    assert_eq!(out.next_era_gas_price, Some(2));
}

#[test]
fn prune_eras_yields_the_batch_of_era_keys() {
    // Height 6 after a key block at 5 selects batch index 1: eras 3..=5.
    let keys = calculate_prune_eras(10, 5, 6, 3).expect("a batch is due");
    assert_eq!(keys, vec![Key::EraInfo(3), Key::EraInfo(4), Key::EraInfo(5)]);
    // The final partial batch stops at the activation era.
    let tail = calculate_prune_eras(10, 5, 8, 3).expect("a batch is due");
    assert_eq!(tail, vec![Key::EraInfo(9), Key::EraInfo(10)]);
    // No batch for a zero batch size, a height before the key block, or a
    // height past the last batch.
    assert_eq!(calculate_prune_eras(10, 5, 6, 0), None);
    assert_eq!(calculate_prune_eras(10, 5, 4, 3), None);
    assert_eq!(calculate_prune_eras(10, 5, 9, 3), None);
}

#[test]
fn contract_session_is_penalized_not_executed() {
    let (mut engine, root) = booted();
    // A direct contract invocation is charged and not run: the initiator
    // pays the fee, the artifact records an authorization error with no
    // gas consumed, and no transfer happens.
    let mut tx = mint_transaction(600, ACCOUNT_A, ACCOUNT_B, 600_000);
    tx.is_account_session = false;
    let block = ExecutableBlock {
        height: 1,
        era_id: 0,
        timestamp_millis: 1_000,
        random_bit: false,
        proposer: PROPOSER,
        transactions: vec![tx],
        era_report: None,
        rewards: None,
    };
    let pre_state = ExecutionPreState {
        next_block_height: 1,
        pre_state_root_hash: root,
        parent_hash: 0,
        parent_seed: 0,
    };
    let out = execute_finalized_block(&mut engine, &pre_state, block, 0, 0, 1, None)
        .expect("block should execute");
    assert_eq!(out.artifacts.len(), 1);
    assert_eq!(out.artifacts[0].hash, 600);
    assert!(matches!(out.artifacts[0].error, Some(Error::DirectContractUnsupported)));
    assert_eq!(out.artifacts[0].consumed, 0);
    assert_eq!(out.artifacts[0].cost, 10);
    // The fee was still charged; the transfer amount was not moved.
    assert_eq!(balance_of(&engine, out.state_root_hash, PURSE_A), 1_000_000 - 10);
    assert_eq!(balance_of(&engine, out.state_root_hash, PURSE_B), 1_000_000);
    assert_eq!(balance_of(&engine, out.state_root_hash, PURSE_PROPOSER), 1_000_000 + 10);
}

#[test]
fn insufficient_balance_skips_the_transaction_free_of_charge() {
    let (mut engine, root) = booted();
    // The gas limit prices the transaction far beyond the payer's balance:
    // it is skipped, uncharged, with a zero-consumed artifact.
    let mut tx = mint_transaction(700, ACCOUNT_A, ACCOUNT_B, 100);
    tx.gas_limit = u64::MAX / 2;
    let block = ExecutableBlock {
        height: 1,
        era_id: 0,
        timestamp_millis: 1_000,
        random_bit: false,
        proposer: PROPOSER,
        transactions: vec![tx],
        era_report: None,
        rewards: None,
    };
    let pre_state = ExecutionPreState {
        next_block_height: 1,
        pre_state_root_hash: root,
        parent_hash: 0,
        parent_seed: 0,
    };
    let out = execute_finalized_block(&mut engine, &pre_state, block, 0, 0, 1, None)
        .expect("block should execute");
    assert_eq!(out.artifacts.len(), 1);
    assert!(matches!(out.artifacts[0].error, Some(Error::InsufficientPayment)));
    assert_eq!(out.artifacts[0].consumed, 0);
    assert_eq!(out.artifacts[0].cost, 0);
    // Nothing moved.
    assert_eq!(balance_of(&engine, out.state_root_hash, PURSE_A), 1_000_000);
    assert_eq!(balance_of(&engine, out.state_root_hash, PURSE_B), 1_000_000);
}

//! Lane calculation and the transaction builder.

use execution_engine::builder::{SecretKey, TransactionV1Builder, TransactionV1BuilderError};
use execution_engine::rng::rng_from_seed;
use execution_engine::transaction::{
    calculate_lane_id_of_biggest_wasm, calculate_transaction_lane, InitiatorAddr,
    InvalidTransactionV1, PricingMode, TransactionEntryPoint, TransactionLaneDefinition,
    TransactionTarget, TransactionV1Config, AUCTION_LANE_ID, MINT_LANE_ID,
};

#[test]
fn calculate_lane_id_of_biggest_wasm_should_return_none_on_empty() {
    let wasms = vec![];
    assert!(calculate_lane_id_of_biggest_wasm(&wasms).is_none());
}

#[test]
fn calculate_lane_id_of_biggest_wasm_should_return_biggest() {
    let wasms = vec![
        TransactionLaneDefinition {
            id: 0,
            max_transaction_length: 1,
            max_transaction_args_length: 2,
            max_transaction_gas_limit: 3,
            max_transaction_count: 4,
        },
        TransactionLaneDefinition {
            id: 1,
            max_transaction_length: 10,
            max_transaction_args_length: 2,
            max_transaction_gas_limit: 3,
            max_transaction_count: 4,
        },
    ];
    assert_eq!(calculate_lane_id_of_biggest_wasm(&wasms), Some(1));
    let wasms = vec![
        TransactionLaneDefinition {
            id: 0,
            max_transaction_length: 1,
            max_transaction_args_length: 2,
            max_transaction_gas_limit: 3,
            max_transaction_count: 4,
        },
        TransactionLaneDefinition {
            id: 1,
            max_transaction_length: 10,
            max_transaction_args_length: 2,
            max_transaction_gas_limit: 3,
            max_transaction_count: 4,
        },
        TransactionLaneDefinition {
            id: 2,
            max_transaction_length: 7,
            max_transaction_args_length: 2,
            max_transaction_gas_limit: 3,
            max_transaction_count: 4,
        },
    ];
    assert_eq!(calculate_lane_id_of_biggest_wasm(&wasms), Some(1));

    let wasms = vec![
        TransactionLaneDefinition {
            id: 0,
            max_transaction_length: 1,
            max_transaction_args_length: 2,
            max_transaction_gas_limit: 3,
            max_transaction_count: 4,
        },
        TransactionLaneDefinition {
            id: 1,
            max_transaction_length: 10,
            max_transaction_args_length: 2,
            max_transaction_gas_limit: 3,
            max_transaction_count: 4,
        },
        TransactionLaneDefinition {
            id: 2,
            max_transaction_length: 70,
            max_transaction_args_length: 2,
            max_transaction_gas_limit: 3,
            max_transaction_count: 4,
        },
    ];
    assert_eq!(calculate_lane_id_of_biggest_wasm(&wasms), Some(2));
}

fn wasm_config() -> TransactionV1Config {
    TransactionV1Config {
        wasm_lanes: vec![
            TransactionLaneDefinition {
                id: 3,
                max_transaction_length: 500,
                max_transaction_args_length: 100,
                max_transaction_gas_limit: 1_000,
                max_transaction_count: 10,
            },
            TransactionLaneDefinition {
                id: 4,
                max_transaction_length: 5_000,
                max_transaction_args_length: 100,
                max_transaction_gas_limit: 100_000,
                max_transaction_count: 10,
            },
        ],
    }
}

#[test]
fn native_transfer_sorts_into_the_mint_lane() {
    let fixed = PricingMode::Fixed { gas_price_tolerance: 1, additional_computation_factor: 0 };
    let lane = calculate_transaction_lane(
        &TransactionEntryPoint::Transfer,
        &TransactionTarget::Native,
        &fixed,
        &wasm_config(),
        100,
    );
    assert_eq!(lane, Ok(MINT_LANE_ID));
    let lane = calculate_transaction_lane(
        &TransactionEntryPoint::AddBid,
        &TransactionTarget::Native,
        &fixed,
        &wasm_config(),
        100,
    );
    assert_eq!(lane, Ok(AUCTION_LANE_ID));
    let lane = calculate_transaction_lane(
        &TransactionEntryPoint::Call,
        &TransactionTarget::Native,
        &fixed,
        &wasm_config(),
        100,
    );
    assert_eq!(lane, Err(InvalidTransactionV1::EntryPointCannotBeCall));
}

#[test]
fn session_wasm_picks_a_fitting_lane() {
    let fixed = PricingMode::Fixed { gas_price_tolerance: 1, additional_computation_factor: 0 };
    let target = TransactionTarget::Session {
        is_install_upgrade: false,
        module_bytes: vec![0; 4],
        runtime: execution_engine::transaction::TransactionRuntimeParams::VmCasperV1,
    };
    let lane = calculate_transaction_lane(
        &TransactionEntryPoint::Call,
        &target,
        &fixed,
        &wasm_config(),
        400,
    );
    assert_eq!(lane, Ok(3));
    // A larger size falls through to the larger lane.
    let lane = calculate_transaction_lane(
        &TransactionEntryPoint::Call,
        &target,
        &fixed,
        &wasm_config(),
        1_000,
    );
    assert_eq!(lane, Ok(4));
    // Too large for every lane is an error.
    let lane = calculate_transaction_lane(
        &TransactionEntryPoint::Call,
        &target,
        &fixed,
        &wasm_config(),
        50_000,
    );
    assert_eq!(lane, Err(InvalidTransactionV1::NoWasmLaneMatchesTransaction));
}

#[test]
fn payment_limited_pricing_considers_the_gas_cap() {
    let limited = PricingMode::PaymentLimited {
        payment_amount: 50_000,
        gas_price_tolerance: 1,
        standard_payment: true,
    };
    let target = TransactionTarget::Session {
        is_install_upgrade: false,
        module_bytes: vec![0; 4],
        runtime: execution_engine::transaction::TransactionRuntimeParams::VmCasperV1,
    };
    let lane = calculate_transaction_lane(
        &TransactionEntryPoint::Call,
        &target,
        &limited,
        &wasm_config(),
        400,
    );
    // Only the second lane's gas limit admits the payment cap.
    assert_eq!(lane, Ok(4));
}

#[test]
fn builder_requires_chain_name_and_initiator() {
    let builder = TransactionV1Builder::new_transfer(1_000, None, 7, None);
    assert!(matches!(
        builder.build(),
        Err(TransactionV1BuilderError::MissingInitiatorAddr)
    ));
    let builder = TransactionV1Builder::new_transfer(1_000, None, 7, None)
        .with_initiator_addr(InitiatorAddr::AccountHash(5));
    assert!(matches!(builder.build(), Err(TransactionV1BuilderError::MissingChainName)));
}

#[test]
fn builder_builds_a_signed_transfer() {
    let key = SecretKey { id: 44 };
    let transaction = TransactionV1Builder::new_transfer(1_000, None, 7, Some(3))
        .with_chain_name("alpha".to_string())
        .with_ttl(120_000)
        .with_timestamp(1_700_000)
        .with_secret_key(&key)
        .build()
        .expect("build should succeed");
    assert_eq!(transaction.chain_name, "alpha");
    assert_eq!(transaction.ttl_millis, 120_000);
    assert_eq!(transaction.timestamp_millis, 1_700_000);
    assert_eq!(transaction.initiator_addr, InitiatorAddr::PublicKey(44));
    assert_eq!(transaction.approvals.len(), 1);
    assert_eq!(transaction.approvals[0].signer, 44);
    assert!(matches!(transaction.body.target, TransactionTarget::Native));
    assert!(matches!(transaction.body.entry_point, TransactionEntryPoint::Transfer));
}

#[test]
fn builder_random_transactions_are_well_formed() {
    let mut sessions_seen = 0;
    for seed in 0..50 {
        let mut rng = rng_from_seed(seed);
        let builder = TransactionV1Builder::new_random(&mut rng);
        let chain_name = builder.chain_name.clone().expect("random builder names a chain");
        assert!(chain_name.len() >= 5 && chain_name.len() < 10);
        match &builder.body.target {
            TransactionTarget::Session { module_bytes, .. } => {
                sessions_seen += 1;
                assert!(module_bytes.len() < 100);
            }
            _ => {}
        }
        let transaction = builder.build().expect("random builder should build");
        assert_eq!(transaction.approvals.len(), 1);
    }
    assert!(sessions_seen > 0, "expected at least one random session target");
}

#[test]
fn builder_random_with_lane_keeps_lane_and_stamps() {
    let mut rng = rng_from_seed(7);
    let builder = TransactionV1Builder::new_random_with_lane_and_timestamp_and_ttl(
        &mut rng,
        AUCTION_LANE_ID,
        Some(5_000),
        Some(90_000),
    );
    assert_eq!(builder.body.transaction_lane, AUCTION_LANE_ID);
    assert_eq!(builder.timestamp_millis, 5_000);
    assert_eq!(builder.ttl_millis, 90_000);
    let with_bad_approval = TransactionV1Builder::new_random(&mut rng)
        .with_invalid_approval(&mut rng)
        .build()
        .expect("build should succeed");
    assert_eq!(with_bad_approval.approvals.len(), 2);
}

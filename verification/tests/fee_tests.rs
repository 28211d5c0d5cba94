//! Fee settlement per mode: the payer's decrease matches the destination's
//! increase, except burning, which shrinks supply.

use execution_engine::config::FeeHandling;
use execution_engine::handle_payment::handle_fee;
use execution_engine::keys::Key;
use execution_engine::store::Store;
use execution_engine::tracking_copy::TrackingCopy;
use execution_engine::values::{BalanceHold, StoredValue};

const PAYER: u64 = 1;
const PROPOSER: u64 = 2;
const ACCUMULATION: u64 = 3;
const COST: u128 = 400;

fn funded_copy() -> TrackingCopy {
    let mut store = Store::new();
    store.put(Key::Balance(PAYER), StoredValue::Amount(1_000));
    store.put(Key::Balance(PROPOSER), StoredValue::Amount(50));
    store.put(Key::Balance(ACCUMULATION), StoredValue::Amount(60));
    TrackingCopy::new(store, 10)
}

fn balance(tc: &TrackingCopy, purse: u64) -> u128 {
    match tc.read(Key::Balance(purse)) {
        Some(StoredValue::Amount(x)) => x,
        other => panic!("unexpected balance record: {:?}", other),
    }
}

fn purse_sum(tc: &TrackingCopy) -> u128 {
    balance(tc, PAYER) + balance(tc, PROPOSER) + balance(tc, ACCUMULATION)
}

#[test]
fn no_fee_mode_moves_nothing_and_places_a_hold() {
    let mut tc = funded_copy();
    let before = purse_sum(&tc);
    handle_fee(&mut tc, FeeHandling::NoFee, PAYER, PROPOSER, ACCUMULATION, COST, 5).unwrap();
    assert_eq!(purse_sum(&tc), before);
    assert_eq!(balance(&tc, PAYER), 1_000);
    match tc.read(Key::BalanceHold(PAYER)) {
        Some(StoredValue::Hold(BalanceHold { amount, block_time })) => {
            assert_eq!(amount, COST);
            assert_eq!(block_time, 5);
        }
        other => panic!("unexpected hold record: {:?}", other),
    }
}

#[test]
fn pay_to_proposer_conserves_the_purse_sum() {
    let mut tc = funded_copy();
    let before = purse_sum(&tc);
    handle_fee(&mut tc, FeeHandling::PayToProposer, PAYER, PROPOSER, ACCUMULATION, COST, 5)
        .unwrap();
    assert_eq!(purse_sum(&tc), before);
    assert_eq!(balance(&tc, PAYER), 600);
    assert_eq!(balance(&tc, PROPOSER), 450);
    assert_eq!(balance(&tc, ACCUMULATION), 60);
}

#[test]
fn accumulate_conserves_the_purse_sum() {
    let mut tc = funded_copy();
    let before = purse_sum(&tc);
    handle_fee(&mut tc, FeeHandling::Accumulate, PAYER, PROPOSER, ACCUMULATION, COST, 5).unwrap();
    assert_eq!(purse_sum(&tc), before);
    assert_eq!(balance(&tc, PAYER), 600);
    assert_eq!(balance(&tc, PROPOSER), 50);
    assert_eq!(balance(&tc, ACCUMULATION), 460);
}

#[test]
fn burn_shrinks_the_purse_sum_by_the_cost() {
    let mut tc = funded_copy();
    let before = purse_sum(&tc);
    handle_fee(&mut tc, FeeHandling::Burn, PAYER, PROPOSER, ACCUMULATION, COST, 5).unwrap();
    assert_eq!(purse_sum(&tc), before - COST);
    assert_eq!(balance(&tc, PAYER), 600);
    assert_eq!(balance(&tc, PROPOSER), 50);
    assert_eq!(balance(&tc, ACCUMULATION), 60);
}

#[test]
fn insufficient_payer_fails_and_changes_nothing() {
    let mut tc = funded_copy();
    let result = handle_fee(
        &mut tc,
        FeeHandling::PayToProposer,
        PAYER,
        PROPOSER,
        ACCUMULATION,
        2_000,
        5,
    );
    assert!(result.is_err());
    assert_eq!(balance(&tc, PAYER), 1_000);
    assert_eq!(balance(&tc, PROPOSER), 50);
}

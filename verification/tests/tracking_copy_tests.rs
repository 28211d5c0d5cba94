//! The tracking copy and commit protocol, exercised end to end.

use execution_engine::effects::Effects;
use execution_engine::effects::{Transform, TransformKind};
use execution_engine::keys::Key;
use execution_engine::store::{GlobalState, Store};
use execution_engine::tracking_copy::{KeyTag, QueryOutcome, TrackingCopy};
use execution_engine::values::{NamedKeyEntry, StoredValue};

fn fresh_copy() -> TrackingCopy {
    TrackingCopy::new(Store::new(), 10)
}

#[test]
fn effects_of_repeated_identical_writes_collapse() {
    let mut tc = fresh_copy();
    for _ in 0..5 {
        tc.write(Key::Balance(7), StoredValue::Amount(42));
    }
    let effects = tc.effects();
    assert_eq!(effects.len(), 1);
    match &effects.transforms[0] {
        Transform { key: Key::Balance(7), kind: TransformKind::Write(StoredValue::Amount(42)) } => {
        }
        other => panic!("unexpected transform: {:?}", other),
    }
}

#[test]
fn effects_keep_last_write_per_key() {
    let mut tc = fresh_copy();
    tc.write(Key::Balance(1), StoredValue::Amount(10));
    tc.write(Key::Balance(2), StoredValue::Amount(20));
    tc.write(Key::Balance(1), StoredValue::Amount(30));
    let effects = tc.effects();
    assert_eq!(effects.len(), 2);
    match &effects.transforms[0] {
        Transform { key: Key::Balance(1), kind: TransformKind::Write(StoredValue::Amount(30)) } => {
        }
        other => panic!("unexpected transform: {:?}", other),
    }
}

#[test]
fn forked_tracking_copy_is_isolated() {
    let mut tc = fresh_copy();
    tc.write(Key::Balance(5), StoredValue::Amount(1));
    let mut fork = tc.fork();
    fork.write(Key::Balance(5), StoredValue::Amount(2));
    let original_effects = tc.effects();
    let fork_effects = fork.effects();
    assert_eq!(original_effects.len(), 1);
    assert_eq!(fork_effects.len(), 1);
    assert!(matches!(
        &original_effects.transforms[0].kind,
        TransformKind::Write(StoredValue::Amount(1))
    ));
    assert!(matches!(
        &fork_effects.transforms[0].kind,
        TransformKind::Write(StoredValue::Amount(2))
    ));
}

#[test]
fn commit_round_trip_reflects_final_writes() {
    let mut state = GlobalState::new();
    let mut effects = Effects::new();
    effects.push(Transform { key: Key::Balance(1), kind: TransformKind::Write(StoredValue::Amount(7)) });
    effects.push(Transform { key: Key::Balance(2), kind: TransformKind::Write(StoredValue::Amount(8)) });
    effects.push(Transform { key: Key::Balance(1), kind: TransformKind::Write(StoredValue::Amount(9)) });
    let root = state.commit(0, &effects).expect("commit should succeed");
    let store = state.checkout(root).expect("root should exist");
    assert!(matches!(store.get(Key::Balance(1)), Some(StoredValue::Amount(9))));
    assert!(matches!(store.get(Key::Balance(2)), Some(StoredValue::Amount(8))));
    assert!(store.get(Key::Balance(3)).is_none());
    // The pre-state root is unaffected by the commit.
    let old = state.checkout(0).expect("empty root should exist");
    assert!(old.get(Key::Balance(1)).is_none());
}

#[test]
fn add_transform_accumulates_and_fails_on_missing_record() {
    let mut state = GlobalState::new();
    let mut effects = Effects::new();
    effects.push(Transform { key: Key::Balance(1), kind: TransformKind::Write(StoredValue::Amount(5)) });
    effects.push(Transform { key: Key::Balance(1), kind: TransformKind::Add(10) });
    let root = state.commit(0, &effects).expect("commit should succeed");
    let store = state.checkout(root).expect("root should exist");
    assert!(matches!(store.get(Key::Balance(1)), Some(StoredValue::Amount(15))));

    let mut bad = Effects::new();
    bad.push(Transform { key: Key::Balance(9), kind: TransformKind::Add(1) });
    assert!(state.commit(root, &bad).is_err());
}

#[test]
fn pruned_key_reads_as_absent_before_commit() {
    let mut state = GlobalState::new();
    let mut effects = Effects::new();
    effects.push(Transform { key: Key::Balance(3), kind: TransformKind::Write(StoredValue::Amount(1)) });
    let root = state.commit(0, &effects).expect("commit should succeed");
    let store = state.checkout(root).expect("root should exist");
    let mut tc = TrackingCopy::new(store, 10);
    assert!(tc.read(Key::Balance(3)).is_some());
    tc.prune(Key::Balance(3));
    assert!(tc.read(Key::Balance(3)).is_none());
    // The snapshot itself still holds the record until the prune commits.
    let store_again = state.checkout(root).expect("root should exist");
    assert!(store_again.get(Key::Balance(3)).is_some());
}

#[test]
fn query_traverses_named_keys() {
    let mut tc = fresh_copy();
    let entity = execution_engine::values::AddressableEntity {
        package_hash: 0,
        byte_code_hash: 0,
        main_purse: 50,
        associated_keys: vec![execution_engine::values::AssociatedKey { account: 1, weight: 1 }],
        action_thresholds: execution_engine::values::ActionThresholds {
            deployment: 1,
            key_management: 1,
        },
        kind: execution_engine::values::EntityKind::Account(1),
    };
    tc.write(Key::Entity(100), StoredValue::Entity(entity));
    tc.write(
        Key::NamedKey(100, 7),
        StoredValue::NamedKey(NamedKeyEntry { name: 7, key: Key::Balance(50) }),
    );
    tc.write(Key::Balance(50), StoredValue::Amount(123));
    match tc.query(Key::Entity(100), &vec![7]) {
        QueryOutcome::Success(StoredValue::Amount(123)) => {}
        other => panic!("unexpected query outcome: {}", to_debug(&other)),
    }
    // A path longer than the configured depth is refused outright.
    let long_path: Vec<u64> = (0..11).collect();
    assert!(matches!(tc.query(Key::Entity(100), &long_path), QueryOutcome::DepthExceeded));
}

fn to_debug(q: &QueryOutcome) -> String {
    match q {
        QueryOutcome::Success(_) => format!("success"),
        QueryOutcome::ValueNotFound(d) => format!("value not found at {}", d),
        QueryOutcome::NonTraversable(d) => format!("non traversable at {}", d),
        QueryOutcome::DepthExceeded => format!("depth exceeded"),
    }
}

#[test]
fn get_keys_sees_writes_and_skips_prunes() {
    let mut state = GlobalState::new();
    let mut effects = Effects::new();
    effects.push(Transform {
        key: Key::BidAddr(1),
        kind: TransformKind::Write(StoredValue::Amount(0)),
    });
    effects.push(Transform {
        key: Key::BidAddr(2),
        kind: TransformKind::Write(StoredValue::Amount(0)),
    });
    let root = state.commit(0, &effects).expect("commit should succeed");
    let store = state.checkout(root).expect("root should exist");
    let mut tc = TrackingCopy::new(store, 10);
    tc.prune(Key::BidAddr(2));
    tc.write(Key::BidAddr(3), StoredValue::Amount(0));
    let mut keys = tc.get_keys(KeyTag::BidAddr);
    keys.sort();
    assert_eq!(keys, vec![Key::BidAddr(1), Key::BidAddr(3)]);
}

//! The native auction: bids, slashing, reward distribution, and the
//! era-boundary rotation of the validator set.

use vstd::prelude::*;

use crate::keys::{Addr, Key};
use crate::result::{Error, ExecError};
use crate::tracking_copy::{KeyTag, TrackingCopy};
use crate::values::{
    BidKind, EraValidators, EraValidatorsV, SeigniorageSnapshot, SeigniorageSnapshotV,
    StoredValue, ValidatorBid, ValidatorWeight, ValueV,
};

verus! {

/// Whether `vals` holds `a`.
fn addrs_contain(vals: &Vec<Addr>, a: Addr) -> (r: bool)
    ensures
        r == vals@.contains(a),
{
    let mut i: usize = 0;
    while i < vals.len()
        invariant
            i <= vals.len(),
            forall|j: int| 0 <= j < i ==> vals@[j] != a,
        decreases vals.len() - i,
    {
        if vals[i] == a {
            proof {
                assert(vals@[i as int] == a);
            }
            return true;
        }
        i = i + 1;
    }
    false
}

/// Whether validator `a` stands in the era's validator set.
pub open spec fn era_has_validator(era: EraValidatorsV, a: Addr) -> bool {
    exists|i: int| 0 <= i < era.validators.len() && (#[trigger] era.validators[i]).validator == a
}

/// Whether `a` currently holds a validator bid with the given stake.
pub open spec fn spec_validator_bid(tc: TrackingCopy, a: Addr) -> Option<u128> {
    match tc.spec_read(Key::BidAddr(a)) {
        Some(ValueV::BidKind(BidKind::Validator(vb))) => if vb.validator == a {
            Some(vb.stake)
        } else {
            None
        },
        _ => None,
    }
}

/// Removes the bids of the slashed validators: a slashed validator's stake
/// is gone from the tip, not retained.
pub fn slash(tc: &mut TrackingCopy, validators: &Vec<Addr>)
    requires
        old(tc).wf(),
    ensures
        final(tc).wf(),
        final(tc).reader_map() == old(tc).reader_map(),
        final(tc).spec_max_query_depth() == old(tc).spec_max_query_depth(),
        forall|a: Addr|
            validators@.contains(a) ==> (#[trigger] final(tc).spec_read(Key::BidAddr(a))) is None,
        forall|k: Key|
            (forall|a: Addr| validators@.contains(a) ==> k != Key::BidAddr(a)) ==> final(tc).spec_read(k) == old(tc).spec_read(k),
{
    let mut i: usize = 0;
    while i < validators.len()
        invariant
            i <= validators.len(),
            tc.wf(),
            tc.reader_map() == old(tc).reader_map(),
            tc.spec_max_query_depth() == old(tc).spec_max_query_depth(),
            forall|j: int|
                0 <= j < i ==> tc.spec_read(Key::BidAddr(#[trigger] validators@[j])) is None,
            forall|k: Key|
                (forall|j: int| 0 <= j < i ==> k != Key::BidAddr(#[trigger] validators@[j]))
                    ==> tc.spec_read(k) == old(tc).spec_read(k),
        decreases validators.len() - i,
    {
        tc.prune(Key::BidAddr(validators[i]));
        i = i + 1;
    }
    proof {
        assert forall|k: Key|
            (forall|a: Addr| validators@.contains(a) ==> k != Key::BidAddr(a)) implies tc.spec_read(
            k,
        ) == old(tc).spec_read(k) by {
            assert forall|j: int| 0 <= j < validators@.len() implies k != Key::BidAddr(
                #[trigger] validators@[j],
            ) by {
                assert(validators@.contains(validators@[j]));
            }
        }
    }
}

/// The stake of `a`'s validator bid in `m`, where present and well-formed.
pub open spec fn spec_bid_stake(m: Map<Key, ValueV>, a: Addr) -> Option<u128> {
    if m.contains_key(Key::BidAddr(a)) {
        match m[Key::BidAddr(a)] {
            ValueV::BidKind(BidKind::Validator(vb)) => if vb.validator == a {
                Some(vb.stake)
            } else {
                None
            },
            _ => None,
        }
    } else {
        None
    }
}

/// Whether every listed reward can be paid against the committed map: each
/// validator holds a bid and its stake takes the reward without overflow.
pub open spec fn spec_rewards_payable_map(m: Map<Key, ValueV>, rewards: Seq<(Addr, u128)>) -> bool {
    forall|i: int|
        0 <= i < rewards.len() ==> (match spec_bid_stake(m, (#[trigger] rewards[i]).0) {
            Some(s) => s + rewards[i].1 <= u128::MAX,
            None => false,
        })
}

/// Whether every listed reward can be paid: each validator holds a bid and
/// its stake takes the reward without overflow.
pub open spec fn spec_rewards_payable(tc: TrackingCopy, rewards: Seq<(Addr, u128)>) -> bool {
    forall|i: int|
        0 <= i < rewards.len() ==> (match spec_validator_bid(tc, (#[trigger] rewards[i]).0) {
            Some(s) => s + rewards[i].1 <= u128::MAX,
            None => false,
        })
}

/// Credits each listed validator's bid with its era reward.  The list must
/// not repeat a validator; an unknown validator or an overflowing stake is
/// an error, on which the caller must discard the tracking copy.
pub fn distribute(tc: &mut TrackingCopy, rewards: &Vec<(Addr, u128)>) -> (r: Result<(), Error>)
    requires
        old(tc).wf(),
        forall|i: int, j: int|
            0 <= i < j < rewards@.len() ==> (#[trigger] rewards@[i]).0 != (
            #[trigger] rewards@[j]).0,
    ensures
        final(tc).wf(),
        final(tc).reader_map() == old(tc).reader_map(),
        final(tc).spec_max_query_depth() == old(tc).spec_max_query_depth(),
        spec_rewards_payable(*old(tc), rewards@) ==> r is Ok,
        r is Ok ==> ({
            &&& forall|i: int|
                0 <= i < rewards@.len() ==> ({
                    &&& spec_validator_bid(*old(tc), (#[trigger] rewards@[i]).0) matches Some(s)
                    &&& s + rewards@[i].1 <= u128::MAX
                    &&& spec_validator_bid(*final(tc), rewards@[i].0) == Some(
                        (s + rewards@[i].1) as u128,
                    )
                })
            &&& forall|k: Key|
                (forall|i: int| 0 <= i < rewards@.len() ==> k != Key::BidAddr(
                    (#[trigger] rewards@[i]).0,
                )) ==> final(tc).spec_read(k) == old(tc).spec_read(k)
        }),
{
    let mut i: usize = 0;
    while i < rewards.len()
        invariant
            i <= rewards.len(),
            tc.wf(),
            tc.reader_map() == old(tc).reader_map(),
            tc.spec_max_query_depth() == old(tc).spec_max_query_depth(),
            forall|a: int, b: int|
                0 <= a < b < rewards@.len() ==> (#[trigger] rewards@[a]).0 != (
                #[trigger] rewards@[b]).0,
            forall|j: int|
                0 <= j < i ==> ({
                    &&& spec_validator_bid(*old(tc), (#[trigger] rewards@[j]).0) matches Some(s)
                    &&& s + rewards@[j].1 <= u128::MAX
                    &&& spec_validator_bid(*tc, rewards@[j].0) == Some((s + rewards@[j].1) as u128)
                }),
            forall|k: Key|
                (forall|j: int| 0 <= j < i ==> k != Key::BidAddr((#[trigger] rewards@[j]).0))
                    ==> tc.spec_read(k) == old(tc).spec_read(k),
            spec_rewards_payable(*old(tc), rewards@) ==> spec_rewards_payable(
                *tc,
                rewards@.subrange(i as int, rewards@.len() as int),
            ),
        decreases rewards.len() - i,
    {
        proof {
            if spec_rewards_payable(*old(tc), rewards@) {
                let rest = rewards@.subrange(i as int, rewards@.len() as int);
                assert(rest[0] == rewards@[i as int]);
            }
        }
        let (v, amount) = rewards[i];
        let (stake, was_inactive) = match tc.read(Key::BidAddr(v)) {
            Some(StoredValue::BidKind(BidKind::Validator(vb))) => {
                if vb.validator == v {
                    (vb.stake, vb.inactive)
                } else {
                    return Err(Error::Exec(ExecError::KeyNotFound(Key::BidAddr(v))));
                }
            },
            _ => {
                return Err(Error::Exec(ExecError::KeyNotFound(Key::BidAddr(v))));
            },
        };
        let new_stake = match stake.checked_add(amount) {
            Some(s) => s,
            None => {
                return Err(Error::GasConversionOverflow);
            },
        };
        tc.write(
            Key::BidAddr(v),
            StoredValue::BidKind(BidKind::Validator(ValidatorBid { validator: v, stake: new_stake, inactive: was_inactive })),
        );
        proof {
            assert(rewards@[i as int].0 == v);
            assert(spec_validator_bid(*old(tc), v) == Some(stake));
        }
        i = i + 1;
    }
    Ok(())
}

/// A native auction entry point called by a transaction: the initiator
/// stakes from, or unstakes to, its own purse.
#[derive(Clone, Copy, PartialEq, Eq, Debug)]
pub enum AuctionMethodCall {
    AddBid { amount: u128 },
    WithdrawBid { amount: u128 },
}

/// Executes a native auction call for `validator`, staking from or
/// unstaking to the purse: adding a bid moves the amount from the purse
/// into the bid's stake (creating the bid if absent); withdrawing moves it
/// back.
pub fn bidding(
    tc: &mut TrackingCopy,
    validator: Addr,
    purse: Addr,
    method: AuctionMethodCall,
) -> (r: Result<(), Error>)
    requires
        old(tc).wf(),
    ensures
        final(tc).wf(),
        final(tc).reader_map() == old(tc).reader_map(),
        final(tc).spec_max_query_depth() == old(tc).spec_max_query_depth(),
        r is Err ==> *final(tc) == *old(tc),
        r != Err::<(), Error>(Error::InsufficientPayment),
        (method matches AuctionMethodCall::AddBid { amount } && ({
            &&& old(tc).spec_read(Key::Balance(purse)) matches Some(ValueV::Amount(pb))
            &&& pb >= amount
            &&& (match old(tc).spec_read(Key::BidAddr(validator)) {
                Some(ValueV::BidKind(BidKind::Validator(vb))) => vb.validator == validator
                    && vb.stake + amount <= u128::MAX,
                Some(_) => false,
                None => true,
            })
        })) ==> r is Ok,
        (method matches AuctionMethodCall::WithdrawBid { amount } && ({
            &&& spec_validator_bid(*old(tc), validator) matches Some(s)
            &&& s >= amount
            &&& old(tc).spec_read(Key::Balance(purse)) matches Some(ValueV::Amount(pb))
            &&& pb + amount <= u128::MAX
        })) ==> r is Ok,
        r is Ok ==> (method matches AuctionMethodCall::AddBid { amount } ==> ({
            &&& old(tc).spec_read(Key::Balance(purse)) matches Some(ValueV::Amount(pb))
            &&& pb >= amount
            &&& final(tc).spec_read(Key::Balance(purse)) == Some(
                ValueV::Amount((pb - amount) as u128),
            )
            &&& spec_validator_bid(*final(tc), validator) matches Some(ns)
            &&& ns == (match spec_validator_bid(*old(tc), validator) {
                Some(s) => s + amount,
                None => amount as int,
            })
            &&& forall|k: Key|
                k != Key::Balance(purse) && k != Key::BidAddr(validator)
                    ==> final(tc).spec_read(k) == old(tc).spec_read(k)
        })),
        r is Ok ==> (method matches AuctionMethodCall::WithdrawBid { amount } ==> ({
            &&& spec_validator_bid(*old(tc), validator) matches Some(s)
            &&& s >= amount
            &&& old(tc).spec_read(Key::Balance(purse)) matches Some(ValueV::Amount(pb))
            &&& pb + amount <= u128::MAX
            &&& spec_validator_bid(*final(tc), validator) == Some((s - amount) as u128)
            &&& final(tc).spec_read(Key::Balance(purse)) == Some(
                ValueV::Amount((pb + amount) as u128),
            )
            &&& forall|k: Key|
                k != Key::Balance(purse) && k != Key::BidAddr(validator)
                    ==> final(tc).spec_read(k) == old(tc).spec_read(k)
        })),
{
    match method {
        AuctionMethodCall::AddBid { amount } => {
            let pb = match crate::mint::read_balance(tc, purse) {
                Ok(b) => b,
                Err(e) => {
                    return Err(Error::Exec(e));
                },
            };
            if pb < amount {
                return Err(Error::Exec(ExecError::Revert(0)));
            }
            let (stake, was_inactive) = match tc.read(Key::BidAddr(validator)) {
                Some(StoredValue::BidKind(BidKind::Validator(vb))) => {
                    if vb.validator == validator {
                        (vb.stake, vb.inactive)
                    } else {
                        return Err(Error::InvalidKeyVariant);
                    }
                },
                Some(_) => {
                    return Err(Error::InvalidKeyVariant);
                },
                None => (0, false),
            };
            let new_stake = match stake.checked_add(amount) {
                Some(s) => s,
                None => {
                    return Err(Error::GasConversionOverflow);
                },
            };
            crate::mint::write_balance(tc, purse, pb - amount);
            tc.write(
                Key::BidAddr(validator),
                StoredValue::BidKind(
                    BidKind::Validator(
                        ValidatorBid { validator, stake: new_stake, inactive: was_inactive },
                    ),
                ),
            );
            Ok(())
        },
        AuctionMethodCall::WithdrawBid { amount } => {
            let (stake, was_inactive) = match tc.read(Key::BidAddr(validator)) {
                Some(StoredValue::BidKind(BidKind::Validator(vb))) => {
                    if vb.validator == validator {
                        (vb.stake, vb.inactive)
                    } else {
                        return Err(Error::InvalidKeyVariant);
                    }
                },
                _ => {
                    return Err(Error::InvalidKeyVariant);
                },
            };
            if stake < amount {
                return Err(Error::Exec(ExecError::Revert(0)));
            }
            let pb = match crate::mint::read_balance(tc, purse) {
                Ok(b) => b,
                Err(e) => {
                    return Err(Error::Exec(e));
                },
            };
            let new_pb = match pb.checked_add(amount) {
                Some(v) => v,
                None => {
                    return Err(Error::GasConversionOverflow);
                },
            };
            tc.write(
                Key::BidAddr(validator),
                StoredValue::BidKind(
                    BidKind::Validator(
                        ValidatorBid { validator, stake: (stake - amount), inactive: was_inactive },
                    ),
                ),
            );
            crate::mint::write_balance(tc, purse, new_pb);
            Ok(())
        },
    }
}

/// Whether the collected weights name validator `b`.
pub open spec fn collected(s: Seq<ValidatorWeight>, b: Addr) -> bool {
    exists|j: int| 0 <= j < s.len() && (#[trigger] s[j]).validator == b
}

/// Whether one of the first `n` keys is the bid key of `b`.
pub open spec fn key_in_prefix(keys: Seq<Key>, n: int, b: Addr) -> bool {
    exists|j: int| 0 <= j < n && #[trigger] keys[j] == Key::BidAddr(b)
}

/// Whether `a` holds a validator bid with nonzero stake and is not in the
/// evict list — the condition for entering the upcoming era.
pub open spec fn is_live_bid(tc: TrackingCopy, a: Addr, evicted: Seq<Addr>) -> bool {
    match spec_validator_bid(tc, a) {
        Some(s) => s > 0 && !evicted.contains(a),
        None => false,
    }
}

/// Recomputes the validator set for the upcoming era and appends it to the
/// seigniorage snapshot: exactly the validators holding a bid with nonzero
/// stake that are not in the evict list, each once; evicted and
/// empty-staked validators do not enter the new era.
pub fn run_auction(tc: &mut TrackingCopy, evicted: &Vec<Addr>, next_era_id: u64) -> (r: Result<
    (),
    Error,
>)
    requires
        old(tc).wf(),
    ensures
        final(tc).wf(),
        final(tc).reader_map() == old(tc).reader_map(),
        final(tc).spec_max_query_depth() == old(tc).spec_max_query_depth(),
        (match old(tc).spec_read(Key::SeigniorageSnapshot) {
            Some(v) => v is Snapshot,
            None => true,
        }) ==> r is Ok,
        r is Ok ==> ({
            &&& final(tc).spec_read(Key::SeigniorageSnapshot) matches Some(ValueV::Snapshot(snap))
            &&& snap.eras.len() >= 1
            &&& snap.eras.last().era_id == next_era_id
            &&& (match old(tc).spec_read(Key::SeigniorageSnapshot) {
                Some(ValueV::Snapshot(prior)) => snap.eras.drop_last() == prior.eras,
                _ => snap.eras.len() == 1,
            })
            &&& forall|a: Addr|
                #[trigger] era_has_validator(snap.eras.last(), a) <==> is_live_bid(
                    *old(tc),
                    a,
                    evicted@,
                )
            &&& forall|i: int|
                0 <= i < snap.eras.last().validators.len() ==> spec_validator_bid(
                    *old(tc),
                    (#[trigger] snap.eras.last().validators[i]).validator,
                ) == Some(snap.eras.last().validators[i].weight)
            &&& forall|i: int, j: int|
                0 <= i < j < snap.eras.last().validators.len() ==> (#[trigger] snap.eras.last()
                    .validators[i]).validator != (#[trigger] snap.eras.last()
                    .validators[j]).validator
            &&& forall|k: Key|
                k != Key::SeigniorageSnapshot ==> final(tc).spec_read(k) == old(tc).spec_read(k)
        }),
{
    let bid_keys = tc.get_keys(KeyTag::BidAddr);
    let mut validators: Vec<ValidatorWeight> = Vec::new();
    let mut i: usize = 0;
    while i < bid_keys.len()
        invariant
            i <= bid_keys.len(),
            tc.wf(),
            *tc == *old(tc),
            forall|k: Key|
                bid_keys@.contains(k) <==> (crate::tracking_copy::tag_matches(k, KeyTag::BidAddr)
                    && (#[trigger] tc.spec_read(k)) is Some),
            forall|a: int, b: int| 0 <= a < b < bid_keys@.len() ==> bid_keys@[a] != bid_keys@[b],
            forall|j: int|
                0 <= j < validators@.len() ==> spec_validator_bid(
                    *tc,
                    (#[trigger] validators@[j]).validator,
                ) == Some(validators@[j].weight),
            forall|j: int|
                0 <= j < validators@.len() ==> is_live_bid(
                    *tc,
                    (#[trigger] validators@[j]).validator,
                    evicted@,
                ),
            forall|a: int, b: int|
                0 <= a < b < validators@.len() ==> (#[trigger] validators@[a]).validator != (
                #[trigger] validators@[b]).validator,
            forall|a: Addr|
                #[trigger] collected(validators@, a) <==> (key_in_prefix(bid_keys@, i as int, a)
                    && is_live_bid(*tc, a, evicted@)),
        decreases bid_keys.len() - i,
    {
        let k = bid_keys[i];
        let ghost before = validators@;
        match k {
            Key::BidAddr(a) => {
                match tc.read(k) {
                    Some(StoredValue::BidKind(BidKind::Validator(vb))) => {
                        if vb.validator == a && vb.stake > 0 && !addrs_contain(evicted, a) {
                            validators.push(ValidatorWeight { validator: a, weight: vb.stake });
                            proof {
                                assert(spec_validator_bid(*tc, a) == Some(vb.stake));
                                assert(bid_keys@[i as int] == Key::BidAddr(a));
                                assert forall|j: int| 0 <= j < i implies #[trigger] bid_keys@[j]
                                    != Key::BidAddr(a) by {
                                    assert(bid_keys@[j] != bid_keys@[i as int]);
                                }
                                assert(!key_in_prefix(bid_keys@, i as int, a));
                                assert(!collected(before, a));
                                assert(validators@ == before.push(
                                    ValidatorWeight { validator: a, weight: vb.stake },
                                ));
                                assert(forall|j: int|
                                    0 <= j < before.len() ==> (#[trigger] validators@[j])
                                        == before[j]);
                                assert(validators@[before.len() as int] == ValidatorWeight {
                                    validator: a,
                                    weight: vb.stake,
                                });
                                assert forall|x: int, y: int|
                                    0 <= x < y < validators@.len() implies (
                                #[trigger] validators@[x]).validator != (
                                #[trigger] validators@[y]).validator by {
                                    if y == before.len() {
                                        if before[x].validator == a {
                                            assert(collected(before, a));
                                        }
                                    }
                                }
                                lemma_live_collected(
                                    *tc,
                                    bid_keys@,
                                    before,
                                    validators@,
                                    a,
                                    vb.stake,
                                    evicted@,
                                    i as int,
                                );
                            }
                        } else {
                            proof {
                                lemma_not_live_not_collected(
                                    *tc,
                                    bid_keys@,
                                    before,
                                    a,
                                    evicted@,
                                    i as int,
                                );
                            }
                        }
                    },
                    _ => {
                        proof {
                            lemma_not_live_not_collected(
                                *tc,
                                bid_keys@,
                                before,
                                a,
                                evicted@,
                                i as int,
                            );
                        }
                    },
                }
            },
            _ => {
                proof {
                    assert(bid_keys@[i as int] == k);
                    assert(bid_keys@.contains(k));
                    assert(false);
                }
            },
        }
        i = i + 1;
    }
    let ghost final_validators = validators@;
    proof {
        assert(*tc == *old(tc));
        assert forall|a: Addr| #[trigger] collected(final_validators, a) <==> is_live_bid(
            *old(tc),
            a,
            evicted@,
        ) by {
            if is_live_bid(*tc, a, evicted@) {
                assert(tc.spec_read(Key::BidAddr(a)) is Some);
                assert(crate::tracking_copy::tag_matches(Key::BidAddr(a), KeyTag::BidAddr));
                assert(bid_keys@.contains(Key::BidAddr(a)));
                let j = choose|j: int|
                    0 <= j < bid_keys@.len() && bid_keys@[j] == Key::BidAddr(a);
                assert(bid_keys@[j] == Key::BidAddr(a));
                assert(key_in_prefix(bid_keys@, bid_keys@.len() as int, a));
            }
        }
        assert(forall|j: int|
            0 <= j < final_validators.len() ==> spec_validator_bid(
                *old(tc),
                (#[trigger] final_validators[j]).validator,
            ) == Some(final_validators[j].weight));
        assert(forall|a: int, b: int|
            0 <= a < b < final_validators.len() ==> (#[trigger] final_validators[a]).validator
                != (#[trigger] final_validators[b]).validator);
    }
    let prior = match tc.read(Key::SeigniorageSnapshot) {
        Some(StoredValue::Snapshot(s)) => s,
        Some(_) => {
            return Err(Error::InvalidKeyVariant);
        },
        None => SeigniorageSnapshot { eras: Vec::new() },
    };
    let ghost prior_view = tc.spec_read(Key::SeigniorageSnapshot);
    let mut eras = prior.eras;
    let ghost prior_eras = eras@;
    eras.push(EraValidators { era_id: next_era_id, validators });
    let snapshot = SeigniorageSnapshot { eras };
    let ghost snap_view = snapshot@;
    proof {
        assert(snap_view.eras.len() == prior_eras.len() + 1);
        assert(snap_view.eras.last() == EraValidatorsV {
            era_id: next_era_id,
            validators: final_validators,
        });
        assert(snap_view.eras.drop_last() =~= Seq::new(
            prior_eras.len(),
            |i: int| prior_eras[i]@,
        ));
        match prior_view {
            Some(ValueV::Snapshot(pv)) => {
                assert(pv =~= SeigniorageSnapshotV { eras: snap_view.eras.drop_last() });
            },
            _ => {},
        }
    }
    tc.write(Key::SeigniorageSnapshot, StoredValue::Snapshot(snapshot));
    proof {
        assert(tc.spec_read(Key::SeigniorageSnapshot) == Some(ValueV::Snapshot(snap_view)));
        assert forall|a: Addr| #[trigger] era_has_validator(snap_view.eras.last(), a)
            == collected(final_validators, a) by {
            assert(snap_view.eras.last().validators == final_validators);
        }
    }
    Ok(())
}

/// A live bid key seen at position `i` extends the collected set by exactly
/// its validator.
proof fn lemma_live_collected(
    tc: TrackingCopy,
    bid_keys: Seq<Key>,
    before: Seq<ValidatorWeight>,
    after: Seq<ValidatorWeight>,
    a: Addr,
    w: u128,
    evicted: Seq<Addr>,
    i: int,
)
    requires
        0 <= i < bid_keys.len(),
        bid_keys[i] == Key::BidAddr(a),
        is_live_bid(tc, a, evicted),
        after == before.push(ValidatorWeight { validator: a, weight: w }),
        forall|b: Addr|
            #[trigger] collected(before, b) <==> (key_in_prefix(bid_keys, i, b) && is_live_bid(
                tc,
                b,
                evicted,
            )),
    ensures
        forall|b: Addr|
            #[trigger] collected(after, b) <==> (key_in_prefix(bid_keys, i + 1, b) && is_live_bid(
                tc,
                b,
                evicted,
            )),
{
    assert(forall|j: int| 0 <= j < before.len() ==> (#[trigger] after[j]) == before[j]);
    assert(after[before.len() as int] == ValidatorWeight { validator: a, weight: w });
    assert forall|b: Addr|
        #[trigger] collected(after, b) implies (key_in_prefix(bid_keys, i + 1, b) && is_live_bid(
        tc,
        b,
        evicted,
    )) by {
        let j = choose|j: int| 0 <= j < after.len() && (#[trigger] after[j]).validator == b;
        if j == before.len() {
            assert(b == a);
            assert(bid_keys[i] == Key::BidAddr(b));
        } else {
            assert(before[j].validator == b);
            assert(collected(before, b));
            let jj = choose|jj: int| 0 <= jj < i && #[trigger] bid_keys[jj] == Key::BidAddr(b);
            assert(0 <= jj < i + 1 && bid_keys[jj] == Key::BidAddr(b));
        }
    }
    assert forall|b: Addr|
        (key_in_prefix(bid_keys, i + 1, b) && is_live_bid(tc, b, evicted)) implies #[trigger]
        collected(after, b) by {
        let j = choose|j: int| 0 <= j < i + 1 && #[trigger] bid_keys[j] == Key::BidAddr(b);
        if j == i {
            assert(b == a);
            assert(after[before.len() as int].validator == b);
        } else {
            assert(0 <= j < i && bid_keys[j] == Key::BidAddr(b));
            assert(key_in_prefix(bid_keys, i, b));
            assert(collected(before, b));
            let jj = choose|jj: int|
                0 <= jj < before.len() && (#[trigger] before[jj]).validator == b;
            assert(after[jj].validator == b);
        }
    }
}

/// A bid key seen at position `i` whose holder is not a live validator adds
/// nothing: the collected set keeps its characterization.
proof fn lemma_not_live_not_collected(
    tc: TrackingCopy,
    bid_keys: Seq<Key>,
    validators: Seq<ValidatorWeight>,
    a: Addr,
    evicted: Seq<Addr>,
    i: int,
)
    requires
        0 <= i < bid_keys.len(),
        bid_keys[i] == Key::BidAddr(a),
        !is_live_bid(tc, a, evicted),
        forall|b: Addr|
            #[trigger] collected(validators, b) <==> (key_in_prefix(bid_keys, i, b)
                && is_live_bid(tc, b, evicted)),
    ensures
        forall|b: Addr|
            #[trigger] collected(validators, b) <==> (key_in_prefix(bid_keys, i + 1, b)
                && is_live_bid(tc, b, evicted)),
{
    assert forall|b: Addr|
        (key_in_prefix(bid_keys, i + 1, b) && is_live_bid(tc, b, evicted)) implies #[trigger]
        collected(validators, b) by {
        let j = choose|j: int| 0 <= j < i + 1 && #[trigger] bid_keys[j] == Key::BidAddr(b);
        if j == i {
            assert(b == a);
            assert(false);
        } else {
            assert(0 <= j < i && bid_keys[j] == Key::BidAddr(b));
            assert(key_in_prefix(bid_keys, i, b));
        }
    }
    assert forall|b: Addr|
        #[trigger] collected(validators, b) implies (key_in_prefix(bid_keys, i + 1, b)
            && is_live_bid(tc, b, evicted)) by {
        assert(key_in_prefix(bid_keys, i, b));
        let j = choose|j: int| 0 <= j < i && #[trigger] bid_keys[j] == Key::BidAddr(b);
        assert(0 <= j < i + 1 && bid_keys[j] == Key::BidAddr(b));
    }
}

} // verus!

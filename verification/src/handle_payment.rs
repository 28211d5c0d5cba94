//! The native handle-payment contract: routing consumed fees to their
//! destination and releasing the unspent remainder.

use vstd::prelude::*;

use crate::config::FeeHandling;
use crate::keys::{Addr, Key};
use crate::mint::{read_balance, write_balance};
use crate::result::{Error, ExecError};
use crate::tracking_copy::TrackingCopy;
use crate::values::{BalanceHold, StoredValue, ValueV};

verus! {

/// Finalizes one transaction's payment, as the system account: the payment
/// purse is emptied, the unspent remainder goes back to the payer's main
/// purse, and the consumed `cost` goes to the target purse — or, with no
/// target, is destroyed.
pub fn finalize_payment(
    tc: &mut TrackingCopy,
    cost: u128,
    account_purse: Addr,
    payment_purse: Addr,
    target: Option<Addr>,
) -> (r: Result<(), Error>)
    requires
        old(tc).wf(),
        account_purse != payment_purse,
        target matches Some(t) ==> t != account_purse && t != payment_purse,
    ensures
        final(tc).wf(),
        final(tc).reader_map() == old(tc).reader_map(),
        final(tc).spec_max_query_depth() == old(tc).spec_max_query_depth(),
        r is Err ==> *final(tc) == *old(tc),
        ({
            &&& old(tc).spec_read(Key::Balance(payment_purse)) matches Some(ValueV::Amount(pb))
            &&& pb >= cost
            &&& old(tc).spec_read(Key::Balance(account_purse)) matches Some(ValueV::Amount(ab))
            &&& ab + (pb - cost) <= u128::MAX
            &&& (match target {
                Some(t) => old(tc).spec_read(Key::Balance(t)) matches Some(ValueV::Amount(tb))
                    && tb + cost <= u128::MAX,
                None => true,
            })
        }) ==> r is Ok,
        r is Ok ==> ({
            &&& old(tc).spec_read(Key::Balance(payment_purse)) matches Some(ValueV::Amount(pb))
            &&& pb >= cost
            &&& old(tc).spec_read(Key::Balance(account_purse)) matches Some(ValueV::Amount(ab))
            &&& ab + (pb - cost) <= u128::MAX
            &&& final(tc).spec_read(Key::Balance(payment_purse)) == Some(ValueV::Amount(0))
            &&& final(tc).spec_read(Key::Balance(account_purse)) == Some(
                ValueV::Amount((ab + (pb - cost)) as u128),
            )
            &&& match target {
                Some(t) => ({
                    &&& old(tc).spec_read(Key::Balance(t)) matches Some(ValueV::Amount(tb))
                    &&& tb + cost <= u128::MAX
                    &&& final(tc).spec_read(Key::Balance(t)) == Some(
                        ValueV::Amount((tb + cost) as u128),
                    )
                    &&& forall|k: Key|
                        k != Key::Balance(payment_purse) && k != Key::Balance(account_purse) && k
                            != Key::Balance(t) ==> final(tc).spec_read(k) == old(tc).spec_read(k)
                }),
                None => forall|k: Key|
                    k != Key::Balance(payment_purse) && k != Key::Balance(account_purse)
                        ==> final(tc).spec_read(k) == old(tc).spec_read(k),
            }
        }),
{
    let pb = match read_balance(tc, payment_purse) {
        Ok(b) => b,
        Err(_) => {
            return Err(Error::Finalization);
        },
    };
    if pb < cost {
        return Err(Error::Finalization);
    }
    let refund = pb - cost;
    let ab = match read_balance(tc, account_purse) {
        Ok(b) => b,
        Err(_) => {
            return Err(Error::Finalization);
        },
    };
    let new_ab = match ab.checked_add(refund) {
        Some(v) => v,
        None => {
            return Err(Error::GasConversionOverflow);
        },
    };
    match target {
        Some(t) => {
            let tb = match read_balance(tc, t) {
                Ok(b) => b,
                Err(_) => {
                    return Err(Error::Finalization);
                },
            };
            let new_tb = match tb.checked_add(cost) {
                Some(v) => v,
                None => {
                    return Err(Error::GasConversionOverflow);
                },
            };
            write_balance(tc, payment_purse, 0);
            write_balance(tc, account_purse, new_ab);
            write_balance(tc, t, new_tb);
        },
        None => {
            write_balance(tc, payment_purse, 0);
            write_balance(tc, account_purse, new_ab);
        },
    }
    Ok(())
}

/// Settles one transaction's fee of `cost` motes per the configured mode:
/// `NoFee` places a hold and moves nothing; `PayToProposer` and `Accumulate`
/// move the cost from the payer to the proposer or the accumulation purse;
/// `Burn` takes it from the payer and credits nobody, so total supply drops.
pub fn handle_fee(
    tc: &mut TrackingCopy,
    mode: FeeHandling,
    payer: Addr,
    proposer: Addr,
    accumulation: Addr,
    cost: u128,
    block_time: u64,
) -> (r: Result<(), ExecError>)
    requires
        old(tc).wf(),
        payer != proposer,
        payer != accumulation,
    ensures
        final(tc).wf(),
        final(tc).reader_map() == old(tc).reader_map(),
        final(tc).spec_max_query_depth() == old(tc).spec_max_query_depth(),
        r is Err ==> *final(tc) == *old(tc),
        mode == FeeHandling::NoFee ==> r is Ok,
        (mode == FeeHandling::PayToProposer && ({
            &&& old(tc).spec_read(Key::Balance(payer)) matches Some(ValueV::Amount(pb))
            &&& pb >= cost
            &&& old(tc).spec_read(Key::Balance(proposer)) matches Some(ValueV::Amount(rb))
            &&& rb + cost <= u128::MAX
        })) ==> r is Ok,
        (mode == FeeHandling::Accumulate && ({
            &&& old(tc).spec_read(Key::Balance(payer)) matches Some(ValueV::Amount(pb))
            &&& pb >= cost
            &&& old(tc).spec_read(Key::Balance(accumulation)) matches Some(ValueV::Amount(qb))
            &&& qb + cost <= u128::MAX
        })) ==> r is Ok,
        (mode == FeeHandling::Burn && ({
            &&& old(tc).spec_read(Key::Balance(payer)) matches Some(ValueV::Amount(pb))
            &&& pb >= cost
        })) ==> r is Ok,
        r is Ok && mode == FeeHandling::NoFee ==> ({
            &&& final(tc).spec_read(Key::BalanceHold(payer)) == Some(
                ValueV::Hold(BalanceHold { amount: cost, block_time }),
            )
            &&& forall|k: Key|
                k != Key::BalanceHold(payer) ==> final(tc).spec_read(k) == old(tc).spec_read(k)
        }),
        r is Ok && mode == FeeHandling::PayToProposer ==> ({
            &&& old(tc).spec_read(Key::Balance(payer)) matches Some(ValueV::Amount(pb))
            &&& pb >= cost
            &&& old(tc).spec_read(Key::Balance(proposer)) matches Some(ValueV::Amount(rb))
            &&& rb + cost <= u128::MAX
            &&& final(tc).spec_read(Key::Balance(payer)) == Some(
                ValueV::Amount((pb - cost) as u128),
            )
            &&& final(tc).spec_read(Key::Balance(proposer)) == Some(
                ValueV::Amount((rb + cost) as u128),
            )
            &&& forall|k: Key|
                k != Key::Balance(payer) && k != Key::Balance(proposer)
                    ==> final(tc).spec_read(k) == old(tc).spec_read(k)
        }),
        r is Ok && mode == FeeHandling::Accumulate ==> ({
            &&& old(tc).spec_read(Key::Balance(payer)) matches Some(ValueV::Amount(pb))
            &&& pb >= cost
            &&& old(tc).spec_read(Key::Balance(accumulation)) matches Some(ValueV::Amount(qb))
            &&& qb + cost <= u128::MAX
            &&& final(tc).spec_read(Key::Balance(payer)) == Some(
                ValueV::Amount((pb - cost) as u128),
            )
            &&& final(tc).spec_read(Key::Balance(accumulation)) == Some(
                ValueV::Amount((qb + cost) as u128),
            )
            &&& forall|k: Key|
                k != Key::Balance(payer) && k != Key::Balance(accumulation)
                    ==> final(tc).spec_read(k) == old(tc).spec_read(k)
        }),
        r is Ok && mode == FeeHandling::Burn ==> ({
            &&& old(tc).spec_read(Key::Balance(payer)) matches Some(ValueV::Amount(pb))
            &&& pb >= cost
            &&& final(tc).spec_read(Key::Balance(payer)) == Some(
                ValueV::Amount((pb - cost) as u128),
            )
            &&& forall|k: Key|
                k != Key::Balance(payer) ==> final(tc).spec_read(k) == old(tc).spec_read(k)
        }),
{
    match mode {
        FeeHandling::NoFee => {
            tc.write(
                Key::BalanceHold(payer),
                StoredValue::Hold(BalanceHold { amount: cost, block_time }),
            );
            Ok(())
        },
        FeeHandling::PayToProposer => {
            crate::mint::transfer(tc, payer, proposer, cost)
        },
        FeeHandling::Accumulate => {
            crate::mint::transfer(tc, payer, accumulation, cost)
        },
        FeeHandling::Burn => {
            let pb = match read_balance(tc, payer) {
                Ok(b) => b,
                Err(e) => {
                    return Err(e);
                },
            };
            if pb < cost {
                return Err(ExecError::Revert(0));
            }
            write_balance(tc, payer, pb - cost);
            Ok(())
        },
    }
}

/// Whether the accumulated fees can be distributed: the accumulation purse
/// and every administrator purse hold amount records, and no share
/// overflows a recipient.
pub open spec fn spec_fees_distributable(
    tc: TrackingCopy,
    accumulation: Addr,
    admin_purses: Seq<Addr>,
) -> bool {
    &&& tc.spec_read(Key::Balance(accumulation)) matches Some(ValueV::Amount(b))
    &&& admin_purses.len() > 0
    &&& forall|i: int|
        0 <= i < admin_purses.len() ==> (match tc.spec_read(
            Key::Balance(#[trigger] admin_purses[i]),
        ) {
            Some(ValueV::Amount(ab)) => ab + b / admin_purses.len() as u128 <= u128::MAX,
            _ => false,
        })
}

/// Distributes the accumulated fees evenly among the administrators'
/// purses: each gets the same share, the accumulation purse keeps the
/// remainder.  The purses must be pairwise distinct and distinct from the
/// accumulation purse; on any failure the caller must discard the tracking
/// copy.
pub fn distribute_accumulated_fees(
    tc: &mut TrackingCopy,
    accumulation: Addr,
    admin_purses: &Vec<Addr>,
) -> (r: Result<(), ExecError>)
    requires
        old(tc).wf(),
        forall|i: int, j: int|
            0 <= i < j < admin_purses@.len() ==> admin_purses@[i] != admin_purses@[j],
        forall|i: int| 0 <= i < admin_purses@.len() ==> admin_purses@[i] != accumulation,
    ensures
        final(tc).wf(),
        final(tc).reader_map() == old(tc).reader_map(),
        final(tc).spec_max_query_depth() == old(tc).spec_max_query_depth(),
        admin_purses@.len() == 0 ==> r is Ok && *final(tc) == *old(tc),
        spec_fees_distributable(*old(tc), accumulation, admin_purses@) ==> r is Ok,
        (r is Ok && admin_purses@.len() > 0) ==> ({
            &&& old(tc).spec_read(Key::Balance(accumulation)) matches Some(ValueV::Amount(b))
            &&& final(tc).spec_read(Key::Balance(accumulation)) == Some(
                ValueV::Amount(
                    (b - (b / admin_purses@.len() as u128) * admin_purses@.len() as u128) as u128,
                ),
            )
            &&& forall|i: int|
                0 <= i < admin_purses@.len() ==> ({
                    &&& old(tc).spec_read(Key::Balance(#[trigger] admin_purses@[i])) matches Some(
                        ValueV::Amount(ab),
                    )
                    &&& final(tc).spec_read(Key::Balance(admin_purses@[i])) == Some(
                        ValueV::Amount((ab + b / admin_purses@.len() as u128) as u128),
                    )
                })
            &&& forall|k: Key|
                (k != Key::Balance(accumulation) && (forall|i: int|
                    0 <= i < admin_purses@.len() ==> k != Key::Balance(
                        #[trigger] admin_purses@[i],
                    ))) ==> final(tc).spec_read(k) == old(tc).spec_read(k)
        }),
{
    let n = admin_purses.len();
    if n == 0 {
        return Ok(());
    }
    let b = match read_balance(tc, accumulation) {
        Ok(b) => b,
        Err(e) => {
            return Err(e);
        },
    };
    let share = b / (n as u128);
    proof {
        assert((b / (n as u128)) * (n as u128) <= b) by (nonlinear_arith)
            requires
                n > 0,
                b >= 0,
        ;
    }
    let mut i: usize = 0;
    proof {
        assert(share * (0 as u128) == 0) by (nonlinear_arith);
    }
    while i < n
        invariant
            i <= n,
            n == admin_purses@.len(),
            tc.wf(),
            tc.reader_map() == old(tc).reader_map(),
            tc.spec_max_query_depth() == old(tc).spec_max_query_depth(),
            forall|a: int, c: int|
                0 <= a < c < admin_purses@.len() ==> admin_purses@[a] != admin_purses@[c],
            forall|a: int| 0 <= a < admin_purses@.len() ==> admin_purses@[a] != accumulation,
            old(tc).spec_read(Key::Balance(accumulation)) == Some(ValueV::Amount(b)),
            share == b / admin_purses@.len() as u128,
            share * admin_purses@.len() as u128 <= b,
            tc.spec_read(Key::Balance(accumulation)) == Some(
                ValueV::Amount((b - share * i as u128) as u128),
            ),
            forall|a: int|
                0 <= a < i ==> ({
                    &&& old(tc).spec_read(Key::Balance(#[trigger] admin_purses@[a])) matches Some(
                        ValueV::Amount(ab),
                    )
                    &&& tc.spec_read(Key::Balance(admin_purses@[a])) == Some(
                        ValueV::Amount((ab + share) as u128),
                    )
                }),
            forall|k: Key|
                (k != Key::Balance(accumulation) && (forall|a: int|
                    0 <= a < i ==> k != Key::Balance(#[trigger] admin_purses@[a]))) ==> tc.spec_read(
                    k,
                ) == old(tc).spec_read(k),
            spec_fees_distributable(*old(tc), accumulation, admin_purses@) ==> (forall|a: int|
                i <= a < admin_purses@.len() ==> (match tc.spec_read(
                    Key::Balance(#[trigger] admin_purses@[a]),
                ) {
                    Some(ValueV::Amount(ab)) => ab + share <= u128::MAX,
                    _ => false,
                })),
        decreases n - i,
    {
        proof {
            assert(share * (i as u128 + 1) <= share * admin_purses@.len() as u128)
                by (nonlinear_arith)
                requires
                    share >= 0,
                    i as u128 + 1 <= admin_purses@.len() as u128,
            ;
            assert(share * ((i + 1) as u128) == share * (i as u128) + share) by (nonlinear_arith);
        }
        match crate::mint::transfer(tc, accumulation, admin_purses[i], share) {
            Ok(()) => {},
            Err(e) => {
                return Err(e);
            },
        }
        proof {
            assert(share * ((i + 1) as u128) == share * (i as u128) + share) by (nonlinear_arith);
        }
        i = i + 1;
    }
    Ok(())
}

/// What the balances of the three purses a fee settlement may touch sum to,
/// where all three are present.
pub open spec fn spec_fee_purse_sum(
    tc: TrackingCopy,
    payer: Addr,
    proposer: Addr,
    accumulation: Addr,
) -> int
    recommends
        tc.spec_read(Key::Balance(payer)) matches Some(ValueV::Amount(_)),
{
    (match tc.spec_read(Key::Balance(payer)) {
        Some(ValueV::Amount(x)) => x as int,
        _ => 0,
    }) + (match tc.spec_read(Key::Balance(proposer)) {
        Some(ValueV::Amount(x)) => x as int,
        _ => 0,
    }) + (match tc.spec_read(Key::Balance(accumulation)) {
        Some(ValueV::Amount(x)) => x as int,
        _ => 0,
    })
}

/// Fee-handling conservation: whichever of the four modes settles a fee,
/// the payer's balance decrease equals the fee destination's increase — so
/// the summed balances of payer, proposer and accumulation purse are
/// unchanged — except in `Burn` mode, where the payer's decrease has no
/// matching increase and the sum drops by exactly the cost; in `NoFee` mode
/// no balance moves at all.  Stated over the before and after states that
/// `handle_fee`'s contract relates.
pub proof fn lemma_fee_conservation(
    pre: TrackingCopy,
    post: TrackingCopy,
    mode: FeeHandling,
    payer: Addr,
    proposer: Addr,
    accumulation: Addr,
    cost: u128,
    block_time: u64,
)
    requires
        payer != proposer,
        payer != accumulation,
        proposer != accumulation,
        mode == FeeHandling::NoFee ==> ({
            &&& post.spec_read(Key::BalanceHold(payer)) == Some(
                ValueV::Hold(BalanceHold { amount: cost, block_time }),
            )
            &&& forall|k: Key|
                k != Key::BalanceHold(payer) ==> post.spec_read(k) == pre.spec_read(k)
        }),
        mode == FeeHandling::PayToProposer ==> ({
            &&& pre.spec_read(Key::Balance(payer)) matches Some(ValueV::Amount(pb))
            &&& pb >= cost
            &&& pre.spec_read(Key::Balance(proposer)) matches Some(ValueV::Amount(rb))
            &&& rb + cost <= u128::MAX
            &&& post.spec_read(Key::Balance(payer)) == Some(ValueV::Amount((pb - cost) as u128))
            &&& post.spec_read(Key::Balance(proposer)) == Some(
                ValueV::Amount((rb + cost) as u128),
            )
            &&& forall|k: Key|
                k != Key::Balance(payer) && k != Key::Balance(proposer)
                    ==> post.spec_read(k) == pre.spec_read(k)
        }),
        mode == FeeHandling::Accumulate ==> ({
            &&& pre.spec_read(Key::Balance(payer)) matches Some(ValueV::Amount(pb))
            &&& pb >= cost
            &&& pre.spec_read(Key::Balance(accumulation)) matches Some(ValueV::Amount(qb))
            &&& qb + cost <= u128::MAX
            &&& post.spec_read(Key::Balance(payer)) == Some(ValueV::Amount((pb - cost) as u128))
            &&& post.spec_read(Key::Balance(accumulation)) == Some(
                ValueV::Amount((qb + cost) as u128),
            )
            &&& forall|k: Key|
                k != Key::Balance(payer) && k != Key::Balance(accumulation)
                    ==> post.spec_read(k) == pre.spec_read(k)
        }),
        mode == FeeHandling::Burn ==> ({
            &&& pre.spec_read(Key::Balance(payer)) matches Some(ValueV::Amount(pb))
            &&& pb >= cost
            &&& post.spec_read(Key::Balance(payer)) == Some(ValueV::Amount((pb - cost) as u128))
            &&& forall|k: Key|
                k != Key::Balance(payer) ==> post.spec_read(k) == pre.spec_read(k)
        }),
    ensures
        mode != FeeHandling::Burn ==> spec_fee_purse_sum(post, payer, proposer, accumulation)
            == spec_fee_purse_sum(pre, payer, proposer, accumulation),
        mode == FeeHandling::Burn ==> spec_fee_purse_sum(post, payer, proposer, accumulation)
            == spec_fee_purse_sum(pre, payer, proposer, accumulation) - cost,
{
}

} // verus!

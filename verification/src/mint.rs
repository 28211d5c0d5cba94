//! The native mint: purse balances and transfers between them.

use vstd::prelude::*;

use crate::amounts::Motes;
use crate::keys::{Addr, Key};
use crate::result::ExecError;
use crate::tracking_copy::TrackingCopy;
use crate::values::{StoredValue, ValueV};

verus! {

/// The balance key of a purse key: a `Uref` key resolves to the `Balance`
/// key of the same address; any other key is refused.
pub fn get_purse_balance_key(purse_key: Key) -> (r: Result<Key, ExecError>)
    ensures
        forall|a: Addr| purse_key == Key::Uref(a) ==> r == Ok::<Key, ExecError>(Key::Balance(a)),
        !(purse_key is Uref) ==> r == Err::<Key, ExecError>(ExecError::KeyIsNotAURef(purse_key)),
{
    match purse_key.uref_to_balance() {
        Some(balance_key) => Ok(balance_key),
        None => Err(ExecError::KeyIsNotAURef(purse_key)),
    }
}

/// Reads the balance of the purse whose balance record is under `purse`.
pub fn read_balance(tc: &TrackingCopy, purse: Addr) -> (r: Result<u128, ExecError>)
    requires
        tc.wf(),
    ensures
        match tc.spec_read(Key::Balance(purse)) {
            Some(ValueV::Amount(x)) => r == Ok::<u128, ExecError>(x),
            Some(_) => r == Err::<u128, ExecError>(ExecError::TypeMismatch(Key::Balance(purse))),
            None => r == Err::<u128, ExecError>(ExecError::KeyNotFound(Key::Balance(purse))),
        },
{
    match tc.read(Key::Balance(purse)) {
        Some(StoredValue::Amount(x)) => Ok(x),
        Some(_) => Err(ExecError::TypeMismatch(Key::Balance(purse))),
        None => Err(ExecError::KeyNotFound(Key::Balance(purse))),
    }
}

/// Reads the balance of a purse as motes, going through its balance key.
pub fn get_purse_balance(tc: &TrackingCopy, balance_key: Key) -> (r: Result<Motes, ExecError>)
    requires
        tc.wf(),
    ensures
        match balance_key {
            Key::Balance(p) => match tc.spec_read(Key::Balance(p)) {
                Some(ValueV::Amount(x)) => r == Ok::<Motes, ExecError>(Motes { value: x }),
                Some(_) => r == Err::<Motes, ExecError>(ExecError::TypeMismatch(balance_key)),
                None => r == Err::<Motes, ExecError>(ExecError::KeyNotFound(balance_key)),
            },
            _ => r == Err::<Motes, ExecError>(ExecError::KeyIsNotAURef(balance_key)),
        },
{
    match balance_key {
        Key::Balance(p) => match read_balance(tc, p) {
            Ok(x) => Ok(Motes::new(x)),
            Err(e) => Err(e),
        },
        _ => Err(ExecError::KeyIsNotAURef(balance_key)),
    }
}

/// Writes the balance of the purse whose balance record is under `purse`.
pub fn write_balance(tc: &mut TrackingCopy, purse: Addr, amount: u128)
    requires
        old(tc).wf(),
    ensures
        final(tc).wf(),
        final(tc).spec_read(Key::Balance(purse)) == Some(ValueV::Amount(amount)),
        forall|k: Key|
            k != Key::Balance(purse) ==> final(tc).spec_read(k) == old(tc).spec_read(k),
        final(tc).reader_map() == old(tc).reader_map(),
        final(tc).spec_max_query_depth() == old(tc).spec_max_query_depth(),
{
    tc.write(Key::Balance(purse), StoredValue::Amount(amount));
}

/// Moves `amount` motes from the `source` purse to the `target` purse.
/// Fails — changing nothing — when either balance record is missing or
/// malformed, when the source balance is short, or when the target balance
/// would overflow.  Moving a purse's motes to itself leaves it unchanged.
pub fn transfer(tc: &mut TrackingCopy, source: Addr, target: Addr, amount: u128) -> (r: Result<
    (),
    ExecError,
>)
    requires
        old(tc).wf(),
    ensures
        final(tc).wf(),
        final(tc).reader_map() == old(tc).reader_map(),
        final(tc).spec_max_query_depth() == old(tc).spec_max_query_depth(),
        r is Err ==> *final(tc) == *old(tc),
        ({
            &&& old(tc).spec_read(Key::Balance(source)) matches Some(ValueV::Amount(sb))
            &&& sb >= amount
            &&& (source != target ==> (old(tc).spec_read(Key::Balance(target)) matches Some(
                ValueV::Amount(tb),
            ) && tb + amount <= u128::MAX))
        }) ==> r is Ok,
        r is Ok ==> ({
            &&& old(tc).spec_read(Key::Balance(source)) matches Some(ValueV::Amount(sb))
            &&& sb >= amount
            &&& source == target ==> *final(tc) == *old(tc)
            &&& source != target ==> ({
                &&& old(tc).spec_read(Key::Balance(target)) matches Some(ValueV::Amount(tb))
                &&& tb + amount <= u128::MAX
                &&& final(tc).spec_read(Key::Balance(source)) == Some(
                    ValueV::Amount((sb - amount) as u128),
                )
                &&& final(tc).spec_read(Key::Balance(target)) == Some(
                    ValueV::Amount((tb + amount) as u128),
                )
                &&& forall|k: Key|
                    k != Key::Balance(source) && k != Key::Balance(target)
                        ==> final(tc).spec_read(k) == old(tc).spec_read(k)
            })
        }),
{
    let source_balance = match read_balance(tc, source) {
        Ok(b) => b,
        Err(e) => {
            return Err(e);
        },
    };
    if source_balance < amount {
        return Err(ExecError::Revert(0));
    }
    if source == target {
        return Ok(());
    }
    let target_balance = match read_balance(tc, target) {
        Ok(b) => b,
        Err(e) => {
            return Err(e);
        },
    };
    let new_target = match target_balance.checked_add(amount) {
        Some(v) => v,
        None => {
            return Err(ExecError::Revert(0));
        },
    };
    write_balance(tc, source, source_balance - amount);
    write_balance(tc, target, new_target);
    Ok(())
}

} // verus!

//! The two numeric domains of the engine: `Gas` (computation units) and
//! `Motes` (the base monetary unit).  They are related by a gas price
//! (`motes = gas * price`, price floor 1) and are never mixed without an
//! explicit, overflow-checked conversion.

use vstd::prelude::*;

verus! {

/// A quantity of computation.
#[derive(Clone, Copy, PartialEq, Eq, Structural, Debug)]
pub struct Gas {
    pub value: u128,
}

/// A quantity of the base monetary unit.
#[derive(Clone, Copy, PartialEq, Eq, Structural, Debug)]
pub struct Motes {
    pub value: u128,
}

impl Gas {
    pub fn new(value: u128) -> (r: Gas)
        ensures
            r.value == value,
    {
        Gas { value }
    }

    pub fn zero() -> (r: Gas)
        ensures
            r.value == 0,
    {
        Gas { value: 0 }
    }

    pub fn checked_add(self, other: Gas) -> (r: Option<Gas>)
        ensures
            self.value + other.value <= u128::MAX ==> r == Some(Gas {
                value: (self.value + other.value) as u128,
            }),
            self.value + other.value > u128::MAX ==> r is None,
    {
        match self.value.checked_add(other.value) {
            Some(value) => Some(Gas { value }),
            None => None,
        }
    }

    pub fn checked_sub(self, other: Gas) -> (r: Option<Gas>)
        ensures
            other.value <= self.value ==> r == Some(Gas {
                value: (self.value - other.value) as u128,
            }),
            other.value > self.value ==> r is None,
    {
        match self.value.checked_sub(other.value) {
            Some(value) => Some(Gas { value }),
            None => None,
        }
    }
}

impl Motes {
    pub fn new(value: u128) -> (r: Motes)
        ensures
            r.value == value,
    {
        Motes { value }
    }

    pub fn zero() -> (r: Motes)
        ensures
            r.value == 0,
    {
        Motes { value: 0 }
    }

    pub fn checked_add(self, other: Motes) -> (r: Option<Motes>)
        ensures
            self.value + other.value <= u128::MAX ==> r == Some(Motes {
                value: (self.value + other.value) as u128,
            }),
            self.value + other.value > u128::MAX ==> r is None,
    {
        match self.value.checked_add(other.value) {
            Some(value) => Some(Motes { value }),
            None => None,
        }
    }

    pub fn checked_sub(self, other: Motes) -> (r: Option<Motes>)
        ensures
            other.value <= self.value ==> r == Some(Motes {
                value: (self.value - other.value) as u128,
            }),
            other.value > self.value ==> r is None,
    {
        match self.value.checked_sub(other.value) {
            Some(value) => Some(Motes { value }),
            None => None,
        }
    }
}

/// Converts gas to motes at the given price: `motes = gas * price`.
/// Overflow is reported as `None`, never wrapped.
pub fn gas_to_motes(gas: Gas, gas_price: u64) -> (r: Option<Motes>)
    ensures
        gas.value * gas_price <= u128::MAX ==> r == Some(Motes {
            value: (gas.value * gas_price) as u128,
        }),
        gas.value * gas_price > u128::MAX ==> r is None,
{
    match gas.value.checked_mul(gas_price as u128) {
        Some(value) => Some(Motes { value }),
        None => None,
    }
}

/// Converts motes to gas at the given price: `gas = motes / price` (integer
/// division).  A zero price is reported as `None`.
pub fn motes_to_gas(motes: Motes, gas_price: u64) -> (r: Option<Gas>)
    ensures
        gas_price > 0 ==> r == Some(Gas { value: (motes.value / gas_price as u128) as u128 }),
        gas_price == 0 ==> r is None,
{
    if gas_price == 0 {
        None
    } else {
        Some(Gas { value: motes.value / gas_price as u128 })
    }
}

/// Converting a gas amount to motes and back at the same price returns the
/// original amount, for every gas amount and every price for which the
/// conversion to motes does not overflow.
pub proof fn lemma_gas_motes_round_trip(gas: Gas, gas_price: u64)
    requires
        gas_price >= 1,
        gas.value * gas_price <= u128::MAX,
    ensures
        gas.value * gas_price / (gas_price as int) == gas.value,
{
    let g = gas.value as int;
    let p = gas_price as int;
    assert(g * p / p == g) by (nonlinear_arith)
        requires
            p >= 1,
            g >= 0,
    ;
}

} // verus!

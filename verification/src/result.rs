//! Typed outcomes of one transaction: errors, execution results, and the
//! builder that merges the payment, session and finalization stages.

use vstd::prelude::*;

use crate::amounts::{Gas, Motes};
use crate::effects::{Effects, Transform, TransformKind, TransformV, TransformKindV};
use crate::keys::{Addr, Key};
use crate::values::StoredValue;

verus! {

/// Which system contract a missing-hash error names.
#[derive(Clone, Copy, PartialEq, Eq, Structural, Debug)]
pub enum SystemContract {
    Mint,
    Auction,
    HandlePayment,
}

/// An error raised while executing session or payment logic.
#[derive(Clone, Copy, PartialEq, Eq, Debug)]
pub enum ExecError {
    /// The provided module could not be preprocessed as executable code.
    WasmPreprocessing,
    /// The provided module carries an unsupported start section.
    UnsupportedWasmStart,
    /// The gas limit was exhausted.
    GasLimit,
    /// The executed logic reverted with this user error code.
    Revert(u16),
    /// A key the logic needed was not found.
    KeyNotFound(Key),
    /// A record held a value of an unexpected kind.
    TypeMismatch(Key),
    /// The key is not an unforgeable purse reference.
    KeyIsNotAURef(Key),
    /// The signer may not deploy with the given authorization keys.
    DeploymentAuthorizationFailure,
    /// Unrestricted transfers are disabled on this chain.
    DisabledUnrestrictedTransfers,
    /// The configured call-stack height was exceeded.
    RuntimeStackOverflow,
    /// An argument the logic needed was missing.
    MissingArgument,
}

/// An error raised by the engine around execution.
#[derive(Clone, Copy, PartialEq, Eq, Debug)]
pub enum Error {
    /// The requested pre-state root does not exist.
    RootNotFound(u64),
    /// The signer is not authorized for the account.
    Authorization,
    /// An error from session or payment logic.
    Exec(ExecError),
    /// The main purse cannot cover the minimum payment collateral.
    InsufficientPayment,
    /// A gas-to-motes or motes-to-gas conversion overflowed.
    GasConversionOverflow,
    /// The deploy is malformed.
    Deploy,
    /// Finalization failed.
    Finalization,
    /// The provided module could not be preprocessed as executable code.
    WasmPreprocessing,
    /// The provided module could not be serialized.
    WasmSerialization,
    /// A system contract hash is missing from the registry.
    MissingSystemContractHash(SystemContract),
    /// The system contract registry itself is missing.
    MissingSystemContractRegistry,
    /// The checksum registry is missing.
    MissingChecksumRegistry,
    /// A key holds a value of the wrong variant.
    InvalidKeyVariant,
    /// The protocol version of an upgrade is not a valid successor.
    InvalidProtocolVersion,
    /// The accumulation purse could not be found.
    FailedToRetrieveAccumulationPurse,
    /// Committing effects failed.
    CommitError,
    /// Pruning failed for the given root.
    FailedToPrune,
    /// The account record is missing or not migrated.
    MissingContractByAccountHash(Addr),
    /// Direct invocation of a stored contract as the session is a
    /// deliberately unsupported quadrant of the payer-resolution table: the
    /// sender is penalized and nothing runs.
    DirectContractUnsupported,
}

/// The outcome of one stage or one whole transaction: cost and transfers are
/// present even on failure, so that partial charging is possible.
#[derive(Clone, PartialEq, Eq, Debug)]
pub enum ExecutionResult {
    Success { transfers: Vec<Addr>, cost: Gas, effects: Effects },
    Failure { error: Error, transfers: Vec<Addr>, cost: Gas, effects: Effects },
}

/// The spec view of an `ExecutionResult`.
#[verifier::ext_equal]
pub enum ExecutionResultV {
    Success { transfers: Seq<Addr>, cost: Gas, effects: Seq<TransformV> },
    Failure { error: Error, transfers: Seq<Addr>, cost: Gas, effects: Seq<TransformV> },
}

impl View for ExecutionResult {
    type V = ExecutionResultV;

    open spec fn view(&self) -> ExecutionResultV {
        match self {
            ExecutionResult::Success { transfers, cost, effects } => ExecutionResultV::Success {
                transfers: transfers@,
                cost: *cost,
                effects: effects@,
            },
            ExecutionResult::Failure { error, transfers, cost, effects } => {
                ExecutionResultV::Failure {
                    error: *error,
                    transfers: transfers@,
                    cost: *cost,
                    effects: effects@,
                }
            },
        }
    }
}

impl ExecutionResultV {
    /// The cost of the result, success or failure.
    pub open spec fn cost(self) -> Gas {
        match self {
            ExecutionResultV::Success { cost, .. } => cost,
            ExecutionResultV::Failure { cost, .. } => cost,
        }
    }

    /// The effect log of the result.
    pub open spec fn effects(self) -> Seq<TransformV> {
        match self {
            ExecutionResultV::Success { effects, .. } => effects,
            ExecutionResultV::Failure { effects, .. } => effects,
        }
    }

    /// The error of a failure.
    pub open spec fn error(self) -> Option<Error> {
        match self {
            ExecutionResultV::Success { .. } => None,
            ExecutionResultV::Failure { error, .. } => Some(error),
        }
    }
}

impl ExecutionResult {
    /// A failure before the transaction became chargeable: no cost, no
    /// effects.
    pub fn precondition_failure(error: Error) -> (r: ExecutionResult)
        ensures
            r@ == (ExecutionResultV::Failure {
                error,
                transfers: Seq::<Addr>::empty(),
                cost: Gas { value: 0 },
                effects: Seq::<TransformV>::empty(),
            }),
    {
        let r = ExecutionResult::Failure {
            error,
            transfers: Vec::new(),
            cost: Gas::zero(),
            effects: Effects::new(),
        };
        proof {
            assert(r@ =~= ExecutionResultV::Failure {
                error,
                transfers: Seq::<Addr>::empty(),
                cost: Gas { value: 0 },
                effects: Seq::<TransformV>::empty(),
            });
        }
        r
    }

    /// Whether the result is a success.
    pub fn is_success(&self) -> (r: bool)
        ensures
            r == (self@ is Success),
    {
        matches!(self, ExecutionResult::Success { .. })
    }

    /// The cost of the result.
    pub fn cost(&self) -> (r: Gas)
        ensures
            r == self@.cost(),
    {
        match self {
            ExecutionResult::Success { cost, .. } => *cost,
            ExecutionResult::Failure { cost, .. } => *cost,
        }
    }

    /// Replaces the cost of the result.
    pub fn with_cost(self, cost: Gas) -> (r: ExecutionResult)
        ensures
            r@.cost() == cost,
            r@.effects() == self@.effects(),
            r@.error() == self@.error(),
            r@ is Success <==> self@ is Success,
    {
        match self {
            ExecutionResult::Success { transfers, effects, .. } => ExecutionResult::Success {
                transfers,
                cost,
                effects,
            },
            ExecutionResult::Failure { error, transfers, effects, .. } => {
                ExecutionResult::Failure { error, transfers, cost, effects }
            },
        }
    }

    /// Replaces the effect log of the result.
    pub fn with_effects(self, effects: Effects) -> (r: ExecutionResult)
        ensures
            r@.cost() == self@.cost(),
            r@.effects() == effects@,
            r@.error() == self@.error(),
            r@ is Success <==> self@ is Success,
    {
        match self {
            ExecutionResult::Success { transfers, cost, .. } => ExecutionResult::Success {
                transfers,
                cost,
                effects,
            },
            ExecutionResult::Failure { error, transfers, cost, .. } => ExecutionResult::Failure {
                error,
                transfers,
                cost,
                effects,
            },
        }
    }

    /// A charged failure computed from what was actually collateralized:
    /// the collected amount leaves the payer's purse and is added to the
    /// rewards purse, and the given gas cost is recorded.  A payer whose
    /// balance cannot cover the amount is an insufficient-payment error.
    pub fn new_payment_code_error(
        error: Error,
        payment_amount: Motes,
        account_main_purse_balance: Motes,
        gas_cost: Gas,
        account_main_purse_balance_key: Key,
        rewards_target_purse_balance_key: Key,
    ) -> (r: Result<ExecutionResult, Error>)
        ensures
            payment_amount.value <= account_main_purse_balance.value ==> (match r {
                Ok(res) => res@ == (ExecutionResultV::Failure {
                    error,
                    transfers: Seq::<Addr>::empty(),
                    cost: gas_cost,
                    effects: Seq::<TransformV>::empty().push(
                        TransformV {
                            key: account_main_purse_balance_key,
                            kind: TransformKindV::Write(
                                crate::values::ValueV::Amount(
                                    (account_main_purse_balance.value - payment_amount.value)
                                        as u128,
                                ),
                            ),
                        },
                    ).push(
                        TransformV {
                            key: rewards_target_purse_balance_key,
                            kind: TransformKindV::Add(payment_amount.value),
                        },
                    ),
                }),
                Err(_) => false,
            }),
            payment_amount.value > account_main_purse_balance.value ==> r == Err::<
                ExecutionResult,
                Error,
            >(Error::InsufficientPayment),
    {
        let new_balance = match account_main_purse_balance.checked_sub(payment_amount) {
            Some(b) => b,
            None => {
                return Err(Error::InsufficientPayment);
            },
        };
        let mut effects = Effects::new();
        effects.push(
            Transform {
                key: account_main_purse_balance_key,
                kind: TransformKind::Write(StoredValue::Amount(new_balance.value)),
            },
        );
        effects.push(
            Transform {
                key: rewards_target_purse_balance_key,
                kind: TransformKind::Add(payment_amount.value),
            },
        );
        let r = ExecutionResult::Failure {
            error,
            transfers: Vec::new(),
            cost: gas_cost,
            effects,
        };
        Ok(r)
    }
}

/// Whether a failed execution is charged although nothing ran: a module that
/// could not even be preprocessed is charged in full, so that malformed code
/// cannot probe the chain for free.
pub fn should_charge_for_errors_in_wasm(execution_result: &ExecutionResult) -> (r: bool)
    ensures
        r == (match execution_result@.error() {
            Some(Error::Exec(ExecError::WasmPreprocessing)) => true,
            Some(Error::Exec(ExecError::UnsupportedWasmStart)) => true,
            Some(Error::WasmPreprocessing) => true,
            Some(Error::WasmSerialization) => true,
            _ => false,
        }),
{
    match execution_result {
        ExecutionResult::Failure { error, .. } => match error {
            Error::Exec(ExecError::WasmPreprocessing) => true,
            Error::Exec(ExecError::UnsupportedWasmStart) => true,
            Error::WasmPreprocessing => true,
            Error::WasmSerialization => true,
            _ => false,
        },
        ExecutionResult::Success { .. } => false,
    }
}

/// Merges the three stages of one transaction into its final result.
///
/// Used once per transaction; using it before all three stages are set is a
/// programming error, ruled out by precondition.
pub struct ExecutionResultBuilder {
    pub payment: Option<ExecutionResult>,
    pub session: Option<ExecutionResult>,
    pub finalize: Option<ExecutionResult>,
}

impl ExecutionResultBuilder {
    /// A builder with no stage set.
    pub fn new() -> (r: ExecutionResultBuilder)
        ensures
            r.payment is None,
            r.session is None,
            r.finalize is None,
    {
        ExecutionResultBuilder { payment: None, session: None, finalize: None }
    }

    /// Sets the payment-stage result.
    pub fn set_payment_execution_result(&mut self, r: ExecutionResult)
        ensures
            final(self).payment == Some(r),
            final(self).session == old(self).session,
            final(self).finalize == old(self).finalize,
    {
        self.payment = Some(r);
    }

    /// Sets the session-stage result.
    pub fn set_session_execution_result(&mut self, r: ExecutionResult)
        ensures
            final(self).session == Some(r),
            final(self).payment == old(self).payment,
            final(self).finalize == old(self).finalize,
    {
        self.session = Some(r);
    }

    /// Sets the finalization-stage result.
    pub fn set_finalize_execution_result(&mut self, r: ExecutionResult)
        ensures
            final(self).finalize == Some(r),
            final(self).payment == old(self).payment,
            final(self).session == old(self).session,
    {
        self.finalize = Some(r);
    }

    /// The cost charged so far: payment plus session.
    pub fn total_cost(&self) -> (r: Option<Gas>)
        requires
            self.payment is Some,
            self.session is Some,
        ensures
            self.payment.unwrap()@.cost().value + self.session.unwrap()@.cost().value
                <= u128::MAX ==> r == Some(Gas {
                value: (self.payment.unwrap()@.cost().value
                    + self.session.unwrap()@.cost().value) as u128,
            }),
            self.payment.unwrap()@.cost().value + self.session.unwrap()@.cost().value
                > u128::MAX ==> r is None,
    {
        let p = match &self.payment {
            Some(p) => p.cost(),
            None => Gas::zero(),
        };
        let s = match &self.session {
            Some(s) => s.cost(),
            None => Gas::zero(),
        };
        p.checked_add(s)
    }

    /// Builds the final result: the cost is payment plus session; the
    /// effects are payment's, then session's, then finalization's; failure
    /// of any stage makes the whole a failure, payment's error first, then
    /// session's, then finalization's.  The transaction receipt carries
    /// session transfers only.
    pub fn build(self) -> (r: ExecutionResult)
        requires
            self.payment is Some,
            self.session is Some,
            self.finalize is Some,
            self.payment.unwrap()@.cost().value + self.session.unwrap()@.cost().value
                <= u128::MAX,
        ensures
            ({
                let p = self.payment.unwrap()@;
                let s = self.session.unwrap()@;
                let f = self.finalize.unwrap()@;
                &&& r@.cost().value == p.cost().value + s.cost().value
                &&& r@.effects() == p.effects() + s.effects() + f.effects()
                &&& r@.error() == (if p.error() is Some {
                    p.error()
                } else if s.error() is Some {
                    s.error()
                } else {
                    f.error()
                })
                &&& (r@ is Success <==> (p is Success && s is Success && f is Success))
            }),
    {
        let payment = match self.payment {
            Some(p) => p,
            None => {
                proof {
                    assert(false);
                }
                ExecutionResult::precondition_failure(Error::Deploy)
            },
        };
        let session = match self.session {
            Some(s) => s,
            None => {
                proof {
                    assert(false);
                }
                ExecutionResult::precondition_failure(Error::Deploy)
            },
        };
        let finalize = match self.finalize {
            Some(f) => f,
            None => {
                proof {
                    assert(false);
                }
                ExecutionResult::precondition_failure(Error::Deploy)
            },
        };
        let cost = match payment.cost().checked_add(session.cost()) {
            Some(c) => c,
            None => {
                proof {
                    assert(false);
                }
                Gas::zero()
            },
        };
        let (p_err, p_effects): (Option<Error>, Effects) = match payment {
            ExecutionResult::Success { effects, .. } => (None, effects),
            ExecutionResult::Failure { error, effects, .. } => (Some(error), effects),
        };
        let (s_err, s_transfers, s_effects): (Option<Error>, Vec<Addr>, Effects) = match session {
            ExecutionResult::Success { transfers, effects, .. } => (None, transfers, effects),
            ExecutionResult::Failure { error, transfers, effects, .. } => (
                Some(error),
                transfers,
                effects,
            ),
        };
        let (f_err, f_effects): (Option<Error>, Effects) = match finalize {
            ExecutionResult::Success { effects, .. } => (None, effects),
            ExecutionResult::Failure { error, effects, .. } => (Some(error), effects),
        };
        let mut effects = p_effects;
        effects.append(&s_effects);
        effects.append(&f_effects);
        let error: Option<Error> = match (p_err, s_err, f_err) {
            (Some(e), _, _) => Some(e),
            (None, Some(e), _) => Some(e),
            (None, None, Some(e)) => Some(e),
            (None, None, None) => None,
        };
        match error {
            Some(error) => ExecutionResult::Failure {
                error,
                transfers: s_transfers,
                cost,
                effects,
            },
            None => ExecutionResult::Success { transfers: s_transfers, cost, effects },
        }
    }
}

} // verus!

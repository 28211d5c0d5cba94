//! The block execution orchestrator: an ordered list of transactions
//! against one state root, producing one new state root, per-transaction
//! artifacts, and an optional end-of-era outcome.

use vstd::prelude::*;

use crate::auction;
use crate::auction::AuctionMethodCall;
use crate::codec;
use crate::engine_state::{EngineState, StepError, ACCUMULATION_PURSE_NAME};
use crate::execution::{TransferArgs, WasmOutcome};
use crate::handle_payment::handle_fee;
use crate::keys::{Addr, Key};
use crate::mint;
use crate::result::{Error, ExecError};
use crate::values::{ChecksumRegistry, SeigniorageSnapshot, StoredValue, ValueV};

verus! {

/// Which lane a transaction runs in.
#[derive(Clone, Copy, PartialEq, Eq, Structural, Debug)]
pub enum TransactionCategory {
    /// A native transfer.
    Mint,
    /// A native auction call.
    Auction,
    /// Ordinary session logic.
    Standard,
    /// Installing or upgrading stored logic.
    InstallUpgrade,
}

/// The era-end report of equivocating and inactive validators, both of
/// which are evicted.
pub struct InternalEraReport {
    pub equivocators: Vec<Addr>,
    pub inactive_validators: Vec<Addr>,
}

/// One transaction of a finalized block, as the orchestrator consumes it.
pub struct BlockTransaction {
    pub hash: Addr,
    pub initiator: Addr,
    pub is_account_session: bool,
    pub is_standard_payment: bool,
    pub category: TransactionCategory,
    pub gas_limit: u64,
    pub transfer_args: Option<TransferArgs>,
    pub auction_method: Option<AuctionMethodCall>,
    pub session_outcome: Option<WasmOutcome>,
    pub custom_payment_outcome: Option<WasmOutcome>,
}

/// A finalized block ready for execution.
pub struct ExecutableBlock {
    pub height: u64,
    pub era_id: u64,
    pub timestamp_millis: u64,
    pub random_bit: bool,
    pub proposer: Addr,
    pub transactions: Vec<BlockTransaction>,
    pub era_report: Option<InternalEraReport>,
    pub rewards: Option<Vec<(Addr, u128)>>,
}

/// What block execution starts from.
pub struct ExecutionPreState {
    pub next_block_height: u64,
    pub pre_state_root_hash: u64,
    pub parent_hash: Addr,
    pub parent_seed: Addr,
}

/// The record of one transaction's processing; penalized or
/// balance-insufficient transactions still appear, with zero effect.
pub struct ExecutionArtifact {
    pub hash: Addr,
    pub cost: u128,
    pub consumed: u128,
    pub error: Option<Error>,
}

/// The end-of-era outcome of a switch block.
pub struct StepOutcome {
    pub upcoming_era_validators: SeigniorageSnapshot,
}

/// Everything block execution hands back.
pub struct BlockAndExecutionArtifacts {
    pub state_root_hash: u64,
    pub height: u64,
    pub era_id: u64,
    pub approvals_checksum: u64,
    pub execution_results_checksum: u64,
    pub artifacts: Vec<ExecutionArtifact>,
    pub step_outcome: Option<StepOutcome>,
    pub next_era_gas_price: Option<u8>,
}

/// Why a whole block failed to execute; no partial state root is returned.
#[derive(Clone, Copy, PartialEq, Eq, Debug)]
pub enum BlockExecutionError {
    /// The block's height does not follow the pre-state.
    WrongBlockHeight,
    /// An era-ending block came without a gas price for the next era.
    FailedToGetNewEraGasPrice,
    /// The pre-state root does not exist.
    RootNotFound(u64),
    /// Era-reward distribution failed.
    DistributeBlockRewards(StepError),
    /// The era-boundary step failed.
    Step(StepError),
    /// Committing the scratch state failed.
    CommitError,
}

/// The era ids a block at this height should prune, in batches, up to the
/// activation point: all expired era records, last of all mutation.
pub fn calculate_prune_eras(
    activation_era_id: u64,
    key_block_height: u64,
    previous_block_height: u64,
    batch_size: u64,
) -> (r: Option<Vec<Key>>)
    ensures
        batch_size == 0 ==> r is None,
        previous_block_height < key_block_height ==> r is None,
        (batch_size > 0 && previous_block_height >= key_block_height) ==> ({
            let batch_index = previous_block_height - key_block_height;
            &&& (batch_index > activation_era_id / batch_size ==> r is None)
            &&& (batch_index <= activation_era_id / batch_size ==> ({
                let start = batch_index * batch_size;
                let count = if activation_era_id - start >= batch_size - 1 {
                    batch_size as int
                } else {
                    activation_era_id - start + 1
                };
                &&& r matches Some(keys)
                &&& keys@.len() == count
                &&& forall|j: int|
                    0 <= j < keys@.len() ==> #[trigger] keys@[j] == Key::EraInfo(
                        (start + j) as u64,
                    )
            }))
        }),
        r matches Some(keys) ==> ({
            &&& keys@.len() <= batch_size
            &&& forall|j: int|
                0 <= j < keys@.len() ==> ((#[trigger] keys@[j]) matches Key::EraInfo(e)
                    && e <= activation_era_id)
        }),
{
    if batch_size == 0 {
        return None;
    }
    if previous_block_height < key_block_height {
        return None;
    }
    let batch_index = previous_block_height - key_block_height;
    if batch_index > activation_era_id / batch_size {
        return None;
    }
    proof {
        assert(batch_index * batch_size <= (activation_era_id as int / batch_size as int)
            * batch_size) by (nonlinear_arith)
            requires
                batch_size > 0,
                batch_index <= activation_era_id as int / batch_size as int,
        ;
        assert((activation_era_id as int / batch_size as int) * batch_size
            <= activation_era_id as int) by (nonlinear_arith)
            requires
                batch_size > 0,
        ;
    }
    let start = batch_index * batch_size;
    let count_cap: u64 = if activation_era_id - start >= batch_size - 1 {
        batch_size
    } else {
        activation_era_id - start + 1
    };
    let mut keys: Vec<Key> = Vec::new();
    let mut c: u64 = 0;
    while c < count_cap
        invariant
            c <= count_cap,
            count_cap <= batch_size,
            count_cap > 0 ==> start + count_cap - 1 <= activation_era_id,
            keys@.len() == c,
            forall|j: int|
                0 <= j < keys@.len() ==> #[trigger] keys@[j] == Key::EraInfo((start + j) as u64),
            forall|j: int|
                0 <= j < keys@.len() ==> ((#[trigger] keys@[j]) matches Key::EraInfo(x) && x
                    <= activation_era_id),
        decreases count_cap - c,
    {
        keys.push(Key::EraInfo(start + c));
        c = c + 1;
    }
    Some(keys)
}

/// The era window a block at this height prunes, mirrored from the batch
/// arithmetic: the first era of the due batch and how many follow.
pub open spec fn spec_prune_window(
    activation_era_id: u64,
    key_block_height: u64,
    block_height: u64,
    batch_size: u64,
) -> Option<(u64, int)> {
    if batch_size == 0 || block_height == 0 || block_height - 1 < key_block_height {
        None
    } else {
        let bi = block_height - 1 - key_block_height;
        if bi > activation_era_id as int / batch_size as int {
            None
        } else {
            let start = bi * batch_size;
            let count = if activation_era_id - start >= batch_size - 1 {
                batch_size as int
            } else {
                activation_era_id - start + 1
            };
            Some((start as u64, count))
        }
    }
}

/// Whether a transaction is penalized instead of executed: a direct
/// contract-session invocation, or custom payment that is missing or that
/// itself failed.  A penalized transaction is charged and not run.
pub open spec fn spec_penalized(tx: BlockTransaction) -> bool {
    ||| !tx.is_account_session
    ||| (!tx.is_standard_payment && (match tx.custom_payment_outcome {
        Some(out) => out.error is Some,
        None => true,
    }))
}

/// Executes a finalized block: applies its transactions strictly in order
/// against one scratch view — each transaction's effects visible to the
/// next — settles each fee per the configured mode, records the approvals
/// and execution-results checksums, distributes era rewards, runs the
/// era-boundary step on a switch block, commits once, prunes expired era
/// records last, and flushes durable storage exactly once.
///
/// Every transaction of the block yields exactly one artifact, skipped ones
/// included, so block-level accounting covers them.  An era-ending block
/// yields a step outcome; any other yields none.
pub fn execute_finalized_block(
    engine: &mut EngineState,
    execution_pre_state: &ExecutionPreState,
    executable_block: ExecutableBlock,
    key_block_height_for_activation_point: u64,
    activation_era_id: u64,
    current_gas_price: u8,
    next_era_gas_price: Option<u8>,
) -> (r: Result<BlockAndExecutionArtifacts, BlockExecutionError>)
    requires
        old(engine).state.spec_root_count() + 2 < u64::MAX,
        old(engine).state.spec_flush_count() < u64::MAX,
    ensures
        final(engine).config == old(engine).config,
        executable_block.height != execution_pre_state.next_block_height ==> r == Err::<
            BlockAndExecutionArtifacts,
            BlockExecutionError,
        >(BlockExecutionError::WrongBlockHeight),
        (executable_block.height == execution_pre_state.next_block_height
            && executable_block.era_report is Some && next_era_gas_price is None) ==> r == Err::<
            BlockAndExecutionArtifacts,
            BlockExecutionError,
        >(BlockExecutionError::FailedToGetNewEraGasPrice),
        (executable_block.height == execution_pre_state.next_block_height && !(
        executable_block.era_report is Some && next_era_gas_price is None) && !old(
            engine,
        ).state.has_root(execution_pre_state.pre_state_root_hash)) ==> r == Err::<
            BlockAndExecutionArtifacts,
            BlockExecutionError,
        >(BlockExecutionError::RootNotFound(execution_pre_state.pre_state_root_hash)),
        ({
            &&& executable_block.height == execution_pre_state.next_block_height
            &&& executable_block.era_report is None
            &&& executable_block.rewards is None
            &&& old(engine).state.has_root(execution_pre_state.pre_state_root_hash)
        }) ==> r is Ok,
        r matches Ok(out) ==> ({
            &&& out.artifacts@.len() == executable_block.transactions@.len()
            &&& forall|j: int|
                0 <= j < out.artifacts@.len() ==> ({
                    let tx = executable_block.transactions@[j];
                    &&& (#[trigger] out.artifacts@[j]).hash == tx.hash
                    &&& (tx.gas_limit as u128 * current_gas_price as u128 > u128::MAX ==> (
                    out.artifacts@[j].cost == 0 && out.artifacts@[j].consumed == 0
                        && out.artifacts@[j].error == Some(Error::GasConversionOverflow)))
                    &&& ((tx.gas_limit as u128 * current_gas_price as u128 <= u128::MAX
                        && tx.is_account_session && spec_penalized(tx)) ==> (
                    out.artifacts@[j].consumed == 0 && out.artifacts@[j].error == Some(
                        Error::Authorization,
                    )))
                    &&& ((tx.gas_limit as u128 * current_gas_price as u128 <= u128::MAX
                        && !tx.is_account_session) ==> (out.artifacts@[j].consumed == 0
                        && out.artifacts@[j].error == Some(Error::DirectContractUnsupported)))
                    &&& (out.artifacts@[j].error == Some(Error::InsufficientPayment) ==> (
                    out.artifacts@[j].consumed == 0 && out.artifacts@[j].cost == 0))
                    &&& (out.artifacts@[j].error is None ==> out.artifacts@[j].cost == tx.gas_limit
                        as u128 * current_gas_price as u128)
                    &&& (out.artifacts@[j].cost == 0 || out.artifacts@[j].cost == tx.gas_limit
                        as u128 * current_gas_price as u128)
                })
            &&& final(engine).state.spec_flush_count() == old(engine).state.spec_flush_count() + 1
            &&& final(engine).state.has_root(out.state_root_hash)
            &&& (out.step_outcome is Some <==> executable_block.era_report is Some)
            &&& out.height == executable_block.height
            &&& out.era_id == executable_block.era_id
            &&& final(engine).state.root_map(out.state_root_hash).contains_key(
                Key::ChecksumRegistry,
            )
            &&& final(engine).state.root_map(out.state_root_hash)[Key::ChecksumRegistry]
                == ValueV::Checksums(
                ChecksumRegistry {
                    approvals_checksum: out.approvals_checksum,
                    execution_results_checksum: out.execution_results_checksum,
                },
            )
            &&& (match spec_prune_window(
                activation_era_id,
                key_block_height_for_activation_point,
                executable_block.height,
                old(engine).config.prune_batch_size,
            ) {
                Some(w) => forall|e: u64|
                    w.0 <= e < w.0 + w.1 ==> !(#[trigger] final(engine).state.root_map(
                        out.state_root_hash,
                    ).contains_key(Key::EraInfo(e))),
                None => true,
            })
        }),
        r is Err ==> final(engine).state.spec_flush_count() == old(engine).state.spec_flush_count(),
{
    if executable_block.height != execution_pre_state.next_block_height {
        return Err(BlockExecutionError::WrongBlockHeight);
    }
    if executable_block.era_report.is_some() && next_era_gas_price.is_none() {
        return Err(BlockExecutionError::FailedToGetNewEraGasPrice);
    }
    let pre_state_root_hash = execution_pre_state.pre_state_root_hash;
    let mut scratch = match engine.tracking_copy(pre_state_root_hash) {
        Some(tc) => tc,
        None => {
            return Err(BlockExecutionError::RootNotFound(pre_state_root_hash));
        },
    };
    let fee_handling = engine.config.fee_handling;
    let block_time = executable_block.timestamp_millis;
    let mut artifacts: Vec<ExecutionArtifact> = Vec::new();
    let mut approvals_bytes: Vec<u8> = Vec::new();
    let mut results_bytes: Vec<u8> = Vec::new();
    let mut t: usize = 0;
    while t < executable_block.transactions.len()
        invariant
            t <= executable_block.transactions.len(),
            scratch.wf(),
            scratch.reader_map() == old(engine).state.root_map(pre_state_root_hash),
            *engine == *old(engine),
            artifacts@.len() == t,
            forall|j: int|
                0 <= j < artifacts@.len() ==> ({
                    let tx = executable_block.transactions@[j];
                    &&& (#[trigger] artifacts@[j]).hash == tx.hash
                    &&& (tx.gas_limit as u128 * current_gas_price as u128 > u128::MAX ==> (
                    artifacts@[j].cost == 0 && artifacts@[j].consumed == 0 && artifacts@[j].error
                        == Some(Error::GasConversionOverflow)))
                    &&& ((tx.gas_limit as u128 * current_gas_price as u128 <= u128::MAX
                        && tx.is_account_session && spec_penalized(tx)) ==> (
                    artifacts@[j].consumed == 0 && artifacts@[j].error == Some(
                        Error::Authorization,
                    )))
                    &&& ((tx.gas_limit as u128 * current_gas_price as u128 <= u128::MAX
                        && !tx.is_account_session) ==> (artifacts@[j].consumed == 0
                        && artifacts@[j].error == Some(Error::DirectContractUnsupported)))
                    &&& (artifacts@[j].error == Some(Error::InsufficientPayment) ==> (
                    artifacts@[j].consumed == 0 && artifacts@[j].cost == 0))
                    &&& (artifacts@[j].error is None ==> artifacts@[j].cost == tx.gas_limit
                        as u128 * current_gas_price as u128)
                    &&& (artifacts@[j].cost == 0 || artifacts@[j].cost == tx.gas_limit as u128
                        * current_gas_price as u128)
                }),
        decreases executable_block.transactions.len() - t,
    {
        let tx = &executable_block.transactions[t];
        codec::write_u64(&mut approvals_bytes, tx.hash);
        let gas_limit = tx.gas_limit;
        let cost: u128 = match (gas_limit as u128).checked_mul(current_gas_price as u128) {
            Some(c) => c,
            None => {
                artifacts.push(
                    ExecutionArtifact {
                        hash: tx.hash,
                        cost: 0,
                        consumed: 0,
                        error: Some(Error::GasConversionOverflow),
                    },
                );
                codec::write_u64(&mut results_bytes, tx.hash);
                t = t + 1;
                continue ;
            },
        };
        // Resolve who pays: the two-by-two of account-vs-contract session
        // and standard-vs-custom payment.  Direct contract invocation is a
        // deliberate gap: it penalizes the sender and does not execute.
        let mut penalized = false;
        let mut tx_error: Option<Error> = None;
        if tx.is_account_session {
            if !tx.is_standard_payment {
                match &tx.custom_payment_outcome {
                    Some(out) => {
                        if out.error.is_some() {
                            penalized = true;
                        }
                    },
                    None => {
                        penalized = true;
                    },
                }
            }
        } else {
            penalized = true;
        }
        let payer_purse: Option<Addr> = match scratch.read(Key::Account(tx.initiator)) {
            Some(StoredValue::Key(ek)) => match scratch.read(ek) {
                Some(StoredValue::Entity(e)) => Some(e.main_purse),
                _ => None,
            },
            Some(StoredValue::Account(a)) => Some(a.main_purse),
            _ => None,
        };
        let initial_balance: Option<u128> = match payer_purse {
            Some(p) => match mint::read_balance(&scratch, p) {
                Ok(b) => Some(b),
                Err(_) => None,
            },
            None => None,
        };
        let sufficient = match initial_balance {
            Some(b) => b >= cost,
            None => false,
        };
        let allow_execution = !penalized && sufficient;
        let mut consumed: u128 = 0;
        if allow_execution {
            match tx.category {
                TransactionCategory::Mint => {
                    match (&tx.transfer_args, payer_purse) {
                        (Some(args), Some(pp)) => {
                            let source = match args.source {
                                Some(s) => s,
                                None => pp,
                            };
                            let target = match args.target {
                                crate::execution::TransferTarget::Purse(p) => Some(p),
                                crate::execution::TransferTarget::AccountHash(a) => {
                                    match scratch.read(Key::Account(a)) {
                                        Some(StoredValue::Key(ek)) => match scratch.read(ek) {
                                            Some(StoredValue::Entity(e)) => Some(e.main_purse),
                                            _ => None,
                                        },
                                        Some(StoredValue::Account(acct)) => Some(acct.main_purse),
                                        _ => None,
                                    }
                                },
                            };
                            match target {
                                Some(tp) => {
                                    match mint::transfer(&mut scratch, source, tp, args.amount) {
                                        Ok(()) => {},
                                        Err(e) => {
                                            tx_error = Some(Error::Exec(e));
                                        },
                                    }
                                },
                                None => {
                                    tx_error = Some(
                                        Error::MissingContractByAccountHash(tx.initiator),
                                    );
                                },
                            }
                            consumed = gas_limit as u128;
                        },
                        _ => {
                            tx_error = Some(Error::Deploy);
                        },
                    }
                },
                TransactionCategory::Auction => {
                    match (&tx.auction_method, payer_purse) {
                        (Some(method), Some(pp)) => {
                            match auction::bidding(&mut scratch, tx.initiator, pp, *method) {
                                Ok(()) => {},
                                Err(e) => {
                                    tx_error = Some(e);
                                },
                            }
                            consumed = gas_limit as u128;
                        },
                        _ => {
                            tx_error = Some(Error::Deploy);
                        },
                    }
                },
                TransactionCategory::Standard | TransactionCategory::InstallUpgrade => {
                    match &tx.session_outcome {
                        Some(out) => {
                            if out.consumed > gas_limit as u128 {
                                tx_error = Some(Error::Exec(ExecError::GasLimit));
                                consumed = gas_limit as u128;
                            } else {
                                match &out.error {
                                    Some(e) => {
                                        tx_error = Some(Error::Exec(*e));
                                        consumed = out.consumed;
                                    },
                                    None => {
                                        let mut w: usize = 0;
                                        while w < out.writes.len()
                                            invariant
                                                w <= out.writes.len(),
                                                scratch.wf(),
                                                scratch.reader_map() == old(
                                                    engine,
                                                ).state.root_map(pre_state_root_hash),
                                            decreases out.writes.len() - w,
                                        {
                                            let (k, v) = (
                                                out.writes[w].0,
                                                out.writes[w].1.duplicate(),
                                            );
                                            scratch.write(k, v);
                                            w = w + 1;
                                        }
                                        consumed = out.consumed;
                                    },
                                }
                            }
                        },
                        None => {
                            tx_error = Some(Error::Deploy);
                        },
                    }
                },
            }
        } else if penalized {
            tx_error = if tx.is_account_session {
                Some(Error::Authorization)
            } else {
                Some(Error::DirectContractUnsupported)
            };
        } else {
            tx_error = Some(Error::InsufficientPayment);
        }
        // Settle the fee per the configured mode.
        match payer_purse {
            Some(pp) => {
                let proposer_purse: Option<Addr> = match scratch.read(
                    Key::Account(executable_block.proposer),
                ) {
                    Some(StoredValue::Key(ek)) => match scratch.read(ek) {
                        Some(StoredValue::Entity(e)) => Some(e.main_purse),
                        _ => None,
                    },
                    Some(StoredValue::Account(a)) => Some(a.main_purse),
                    _ => None,
                };
                let accumulation_purse: Option<Addr> = match scratch.read(
                    Key::SystemContractRegistry,
                ) {
                    Some(StoredValue::Registry(reg)) => match scratch.read(
                        Key::NamedKey(reg.handle_payment, ACCUMULATION_PURSE_NAME),
                    ) {
                        Some(StoredValue::NamedKey(nk)) => match nk.key {
                            Key::Uref(p) => Some(p),
                            _ => None,
                        },
                        _ => None,
                    },
                    _ => None,
                };
                let rp = match proposer_purse {
                    Some(x) => x,
                    None => 0,
                };
                let ap = match accumulation_purse {
                    Some(x) => x,
                    None => 0,
                };
                if pp != rp && pp != ap && sufficient {
                    match handle_fee(&mut scratch, fee_handling, pp, rp, ap, cost, block_time) {
                        Ok(()) => {},
                        Err(_) => {},
                    }
                }
            },
            None => {},
        }
        let charged = if sufficient {
            cost
        } else {
            0
        };
        artifacts.push(
            ExecutionArtifact { hash: tx.hash, cost: charged, consumed, error: tx_error },
        );
        codec::write_u64(&mut results_bytes, tx.hash);
        codec::write_u64(&mut results_bytes, charged as u64);
        t = t + 1;
    }
    // Block-level checksums over the exact ordered set of processed
    // transactions, committed into state alongside a registry.
    let approvals_checksum = codec::checksum(&approvals_bytes);
    let execution_results_checksum = codec::checksum(&results_bytes);
    let registry = ChecksumRegistry { approvals_checksum, execution_results_checksum };
    scratch.write(Key::ChecksumRegistry, StoredValue::Checksums(registry));
    // Era rewards, on a switch block carrying them.
    match &executable_block.rewards {
        Some(rewards) => {
            let mut ok = true;
            let mut i: usize = 0;
            while i < rewards.len()
                invariant
                    i <= rewards.len(),
                    scratch.wf(),
                    scratch.reader_map() == old(engine).state.root_map(pre_state_root_hash),
                    scratch.spec_read(Key::ChecksumRegistry) == Some(
                        ValueV::Checksums(
                            ChecksumRegistry { approvals_checksum, execution_results_checksum },
                        ),
                    ),
                decreases rewards.len() - i,
            {
                let (v, amount) = rewards[i];
                match scratch.read(Key::BidAddr(v)) {
                    Some(StoredValue::BidKind(crate::values::BidKind::Validator(vb))) => {
                        match vb.stake.checked_add(amount) {
                            Some(ns) => {
                                scratch.write(
                                    Key::BidAddr(v),
                                    StoredValue::BidKind(
                                        crate::values::BidKind::Validator(
                                            crate::values::ValidatorBid {
                                                validator: vb.validator,
                                                stake: ns,
                                                inactive: vb.inactive,
                                            },
                                        ),
                                    ),
                                );
                            },
                            None => {
                                ok = false;
                            },
                        }
                    },
                    _ => {
                        ok = false;
                    },
                }
                i = i + 1;
            }
            if !ok {
                return Err(
                    BlockExecutionError::DistributeBlockRewards(
                        StepError::DistributeError(Error::Deploy),
                    ),
                );
            }
        },
        None => {},
    }
    // The era-boundary step, on a switch block: evict the reported
    // validators and rotate the validator set.
    let step_outcome: Option<StepOutcome> = match &executable_block.era_report {
        Some(report) => {
            let mut evicted: Vec<Addr> = Vec::new();
            let mut i: usize = 0;
            while i < report.equivocators.len()
                invariant
                    i <= report.equivocators.len(),
                decreases report.equivocators.len() - i,
            {
                evicted.push(report.equivocators[i]);
                i = i + 1;
            }
            let mut i: usize = 0;
            while i < report.inactive_validators.len()
                invariant
                    i <= report.inactive_validators.len(),
                decreases report.inactive_validators.len() - i,
            {
                evicted.push(report.inactive_validators[i]);
                i = i + 1;
            }
            let next_era = match executable_block.era_id.checked_add(1) {
                Some(e) => e,
                None => {
                    return Err(BlockExecutionError::Step(StepError::CommitError));
                },
            };
            match auction::run_auction(&mut scratch, &evicted, next_era) {
                Ok(()) => {},
                Err(e) => {
                    return Err(BlockExecutionError::Step(StepError::AuctionError(e)));
                },
            }
            let snapshot = match scratch.read(Key::SeigniorageSnapshot) {
                Some(StoredValue::Snapshot(s)) => s,
                _ => {
                    return Err(BlockExecutionError::Step(StepError::CommitError));
                },
            };
            Some(StepOutcome { upcoming_era_validators: snapshot })
        },
        None => None,
    };
    // One commit of the cumulative scratch changes.
    let effects = scratch.effects();
    proof {
        scratch.lemma_overlay_effects_apply();
    }
    let mut state_root_hash = match engine.state.commit(pre_state_root_hash, &effects) {
        Ok(h) => h,
        Err(_) => {
            return Err(BlockExecutionError::CommitError);
        },
    };
    proof {
        assert(scratch.spec_read(Key::ChecksumRegistry) == Some(
            ValueV::Checksums(
                ChecksumRegistry { approvals_checksum, execution_results_checksum },
            ),
        ));
        assert(engine.state.root_map(state_root_hash).contains_key(Key::ChecksumRegistry));
        assert(engine.state.root_map(state_root_hash)[Key::ChecksumRegistry] == ValueV::Checksums(
            ChecksumRegistry { approvals_checksum, execution_results_checksum },
        ));
    }
    // Pruning of expired era records happens last, after all balance and
    // reward mutation, to avoid read-before-write ordering hazards.
    if executable_block.height > 0 {
        let previous_block_height = executable_block.height - 1;
        match calculate_prune_eras(
            activation_era_id,
            key_block_height_for_activation_point,
            previous_block_height,
            engine.config.prune_batch_size,
        ) {
            Some(keys_to_prune) => {
                let ghost m_before = engine.state.root_map(state_root_hash);
                match engine.commit_prune(state_root_hash, &keys_to_prune) {
                    Ok(Some(h)) => {
                        state_root_hash = h;
                        proof {
                            let w = spec_prune_window(
                                activation_era_id,
                                key_block_height_for_activation_point,
                                executable_block.height,
                                engine.config.prune_batch_size,
                            ).unwrap();
                            assert(keys_to_prune@.len() == w.1);
                            assert forall|e: u64|
                                w.0 <= e < w.0 + w.1 implies !(
                            #[trigger] engine.state.root_map(state_root_hash).contains_key(
                                Key::EraInfo(e),
                            )) by {
                                let j = e - w.0;
                                assert(keys_to_prune@[j as int] == Key::EraInfo(e));
                                assert(!engine.state.root_map(state_root_hash).contains_key(
                                    keys_to_prune@[j as int],
                                ));
                            }
                            assert(forall|j: int|
                                0 <= j < keys_to_prune@.len() ==> #[trigger] keys_to_prune@[j]
                                    != Key::ChecksumRegistry);
                            assert(!keys_to_prune@.contains(Key::ChecksumRegistry));
                            assert(crate::execution::spec_untouched_except(
                                m_before,
                                engine.state.root_map(state_root_hash),
                                keys_to_prune@,
                            ));
                            assert(engine.state.root_map(state_root_hash).contains_key(
                                Key::ChecksumRegistry,
                            ));
                            assert(engine.state.root_map(state_root_hash)[Key::ChecksumRegistry]
                                == ValueV::Checksums(
                                ChecksumRegistry {
                                    approvals_checksum,
                                    execution_results_checksum,
                                },
                            ));
                        }
                    },
                    Ok(None) => {
                        return Err(BlockExecutionError::RootNotFound(state_root_hash));
                    },
                    Err(_) => {
                        return Err(BlockExecutionError::CommitError);
                    },
                }
            },
            None => {
                proof {
                    assert(spec_prune_window(
                        activation_era_id,
                        key_block_height_for_activation_point,
                        executable_block.height,
                        engine.config.prune_batch_size,
                    ) is None);
                }
            },
        }
    }
    let ghost pre_flush_engine = *engine;
    // Exactly one flush to durable storage, at the very end.
    engine.state.flush();
    proof {
        assert(engine.state.has_root(state_root_hash));
        assert(engine.state.root_map(state_root_hash) == pre_flush_engine.state.root_map(
            state_root_hash,
        ));
        match spec_prune_window(
            activation_era_id,
            key_block_height_for_activation_point,
            executable_block.height,
            engine.config.prune_batch_size,
        ) {
            Some(w) => {
                assert forall|e: u64|
                    w.0 <= e < w.0 + w.1 implies !(#[trigger] engine.state.root_map(
                    state_root_hash,
                ).contains_key(Key::EraInfo(e))) by {
                    assert(!pre_flush_engine.state.root_map(state_root_hash).contains_key(
                        Key::EraInfo(e),
                    ));
                }
            },
            None => {},
        }
    }
    Ok(
        BlockAndExecutionArtifacts {
            state_root_hash,
            height: executable_block.height,
            era_id: executable_block.era_id,
            approvals_checksum,
            execution_results_checksum,
            artifacts,
            step_outcome,
            next_era_gas_price,
        },
    )
}

} // verus!

//! Transactions as submitted: targets, entry points, pricing, and the rules
//! that sort a transaction into its lane.

use vstd::prelude::*;

use crate::keys::Addr;
use crate::rng::rand_below;
use crate::vec_util::clone_copy_vec;

verus! {

/// The lane of native transfers.
pub const MINT_LANE_ID: u8 = 0;

/// The lane of native auction calls.
pub const AUCTION_LANE_ID: u8 = 1;

/// The lane of installing or upgrading stored logic.
pub const INSTALL_UPGRADE_LANE_ID: u8 = 2;

/// Which runtime executes stored or session logic.
#[derive(Clone, Copy, PartialEq, Eq, Debug)]
pub enum TransactionRuntime {
    VmCasperV1,
    VmCasperV2,
}

/// The tag of a contract runtime.
#[derive(Clone, Copy, PartialEq, Eq, Debug)]
pub enum ContractRuntimeTag {
    VmCasperV1,
    VmCasperV2,
}

/// Runtime parameters of a transaction target.
#[derive(Clone, Copy, PartialEq, Eq, Debug)]
pub enum TransactionRuntimeParams {
    VmCasperV1,
    VmCasperV2 {
        /// The most motes the session may draw from the caller up front.
        transferred_value: u64,
        /// The seed for installer session logic.
        seed: Option<u64>,
    },
}

impl TransactionRuntimeParams {
    /// Returns the contract runtime tag.
    pub fn contract_runtime_tag(&self) -> (r: ContractRuntimeTag)
        ensures
            self is VmCasperV1 ==> r == ContractRuntimeTag::VmCasperV1,
            self is VmCasperV2 ==> r == ContractRuntimeTag::VmCasperV2,
    {
        match self {
            TransactionRuntimeParams::VmCasperV1 => ContractRuntimeTag::VmCasperV1,
            TransactionRuntimeParams::VmCasperV2 { .. } => ContractRuntimeTag::VmCasperV2,
        }
    }

    /// Returns the installer seed, if the runtime carries one.
    pub fn seed(&self) -> (r: Option<u64>)
        ensures
            self is VmCasperV1 ==> r is None,
            forall|t: u64, s: Option<u64>|
                *self == (TransactionRuntimeParams::VmCasperV2 { transferred_value: t, seed: s })
                    ==> r == s,
    {
        match self {
            TransactionRuntimeParams::VmCasperV1 => None,
            TransactionRuntimeParams::VmCasperV2 { seed, .. } => *seed,
        }
    }
}

/// The identifier of a stored execution target.
#[derive(Clone, Copy, PartialEq, Eq, Debug)]
pub enum TransactionInvocationTarget {
    ByHash(Addr),
    ByName(u64),
    ByPackageHash { addr: Addr, version: Option<u32> },
    ByPackageName { name: u64, version: Option<u32> },
}

impl TransactionInvocationTarget {
    /// The contract hash, where the target names one directly.
    pub fn contract_by_hash(&self) -> (r: Option<Addr>)
        ensures
            forall|a: Addr| *self == TransactionInvocationTarget::ByHash(a) ==> r == Some(a),
            !(self is ByHash) ==> r is None,
    {
        match self {
            TransactionInvocationTarget::ByHash(a) => Some(*a),
            _ => None,
        }
    }
}

/// The execution target of a transaction.
#[derive(Clone, PartialEq, Eq, Debug)]
pub enum TransactionTarget {
    /// A native operation, such as a transfer.
    Native,
    /// A stored entity or package.
    Stored { id: TransactionInvocationTarget, runtime: TransactionRuntimeParams },
    /// The included module bytes: compiled session logic.
    Session {
        is_install_upgrade: bool,
        module_bytes: Vec<u8>,
        runtime: TransactionRuntimeParams,
    },
}

/// The spec view of a `TransactionTarget`.
#[verifier::ext_equal]
pub enum TransactionTargetV {
    Native,
    Stored { id: TransactionInvocationTarget, runtime: TransactionRuntimeParams },
    Session { is_install_upgrade: bool, module_bytes: Seq<u8>, runtime: TransactionRuntimeParams },
}

impl View for TransactionTarget {
    type V = TransactionTargetV;

    open spec fn view(&self) -> TransactionTargetV {
        match self {
            TransactionTarget::Native => TransactionTargetV::Native,
            TransactionTarget::Stored { id, runtime } => TransactionTargetV::Stored {
                id: *id,
                runtime: *runtime,
            },
            TransactionTarget::Session { is_install_upgrade, module_bytes, runtime } => {
                TransactionTargetV::Session {
                    is_install_upgrade: *is_install_upgrade,
                    module_bytes: module_bytes@,
                    runtime: *runtime,
                }
            },
        }
    }
}

impl TransactionTarget {
    /// Returns a new native target.
    pub fn new_native() -> (r: TransactionTarget)
        ensures
            r@ == TransactionTargetV::Native,
    {
        TransactionTarget::Native
    }

    /// Returns a `hash_addr` for a targeted contract, if known.
    pub fn contract_hash_addr(&self) -> (r: Option<Addr>)
        ensures
            r == (match self@ {
                TransactionTargetV::Stored { id, .. } => match id {
                    TransactionInvocationTarget::ByHash(a) => Some(a),
                    _ => None,
                },
                _ => None,
            }),
    {
        match self.invocation_target() {
            Some(id) => id.contract_by_hash(),
            None => None,
        }
    }

    /// Returns the invocation target, if any.
    pub fn invocation_target(&self) -> (r: Option<TransactionInvocationTarget>)
        ensures
            r == (match self@ {
                TransactionTargetV::Stored { id, .. } => Some(id),
                _ => None,
            }),
    {
        match self {
            TransactionTarget::Native | TransactionTarget::Session { .. } => None,
            TransactionTarget::Stored { id, .. } => Some(*id),
        }
    }

    /// Whether the target is included session logic.
    pub fn is_session(&self) -> (r: bool)
        ensures
            r == (self@ is Session),
    {
        matches!(self, TransactionTarget::Session { .. })
    }

    /// Returns a random target, drawn from the generator: a native target,
    /// a stored target, or session logic of fewer than one hundred bytes.
    pub fn random(rng: &mut rand::rngs::StdRng) -> (r: TransactionTarget)
        ensures
            r@ is Session ==> r@->Session_module_bytes.len() < 100,
            r@ matches TransactionTargetV::Stored { runtime, .. } ==> runtime
                == TransactionRuntimeParams::VmCasperV1,
            r@ matches TransactionTargetV::Session { runtime, .. } ==> runtime
                == TransactionRuntimeParams::VmCasperV1,
    {
        let kind = rand_below(rng, 3);
        if kind == 0 {
            TransactionTarget::Native
        } else if kind == 1 {
            TransactionTarget::Stored {
                id: TransactionInvocationTarget::ByHash(rand_below(rng, u64::MAX)),
                runtime: TransactionRuntimeParams::VmCasperV1,
            }
        } else {
            let len = rand_below(rng, 100);
            let mut module_bytes: Vec<u8> = Vec::new();
            let mut i: u64 = 0;
            while i < len
                invariant
                    i <= len,
                    len < 100,
                    module_bytes@.len() == i,
                decreases len - i,
            {
                module_bytes.push(rand_below(rng, 256) as u8);
                i = i + 1;
            }
            let is_install_upgrade = rand_below(rng, 2) == 1;
            TransactionTarget::Session {
                is_install_upgrade,
                module_bytes,
                runtime: TransactionRuntimeParams::VmCasperV1,
            }
        }
    }

    /// Copies the target, preserving its view.
    pub fn duplicate(&self) -> (r: TransactionTarget)
        ensures
            r@ == self@,
    {
        match self {
            TransactionTarget::Native => TransactionTarget::Native,
            TransactionTarget::Stored { id, runtime } => TransactionTarget::Stored {
                id: *id,
                runtime: *runtime,
            },
            TransactionTarget::Session { is_install_upgrade, module_bytes, runtime } => {
                let r = TransactionTarget::Session {
                    is_install_upgrade: *is_install_upgrade,
                    module_bytes: clone_copy_vec(module_bytes),
                    runtime: *runtime,
                };
                proof {
                    assert(r@ =~= self@);
                }
                r
            },
        }
    }
}

/// An entry point of a transaction.
#[derive(Clone, Copy, PartialEq, Eq, Debug)]
pub enum TransactionEntryPoint {
    Call,
    Custom(u64),
    Transfer,
    AddBid,
    WithdrawBid,
    Delegate,
    Undelegate,
    Redelegate,
    ActivateBid,
    ChangeBidPublicKey,
    AddReservations,
    CancelReservations,
}

/// When a transaction may run.
#[derive(Clone, Copy, PartialEq, Eq, Debug)]
pub enum TransactionScheduling {
    Standard,
}

/// How a transaction prices its execution.
#[derive(Clone, Copy, PartialEq, Eq, Debug)]
pub enum PricingMode {
    /// The user caps payment; gas beyond it is unavailable.
    PaymentLimited { payment_amount: u64, gas_price_tolerance: u8, standard_payment: bool },
    /// A fixed cost per lane.
    Fixed { gas_price_tolerance: u8, additional_computation_factor: u8 },
    /// Prepaid through a receipt.
    Prepaid { receipt: Addr },
}

/// Who initiates a transaction.
#[derive(Clone, Copy, PartialEq, Eq, Debug)]
pub enum InitiatorAddr {
    PublicKey(Addr),
    AccountHash(Addr),
}

/// One lane's limits, as the chainspec configures them.
#[derive(Clone, Copy, PartialEq, Eq, Debug)]
pub struct TransactionLaneDefinition {
    pub id: u8,
    pub max_transaction_length: u64,
    pub max_transaction_args_length: u64,
    pub max_transaction_gas_limit: u64,
    pub max_transaction_count: u64,
}

/// Whether a lane admits a transaction of the given size.
pub open spec fn spec_lane_fits_size(l: TransactionLaneDefinition, size: u64) -> bool {
    l.max_transaction_length >= size
}

/// Whether a lane admits both the payment cap and the size.
pub open spec fn spec_lane_fits_limited(
    l: TransactionLaneDefinition,
    payment: u64,
    size: u64,
) -> bool {
    l.max_transaction_gas_limit >= payment && l.max_transaction_length >= size
}


/// The chainspec's transaction configuration: the wasm lanes.
#[derive(Clone, PartialEq, Eq, Debug)]
pub struct TransactionV1Config {
    pub wasm_lanes: Vec<TransactionLaneDefinition>,
}

/// Why a transaction is invalid.
#[derive(Clone, Copy, PartialEq, Eq, Debug)]
pub enum InvalidTransactionV1 {
    EntryPointCannotBeCall,
    EntryPointCannotBeCustom,
    EntryPointMustBeCustom,
    EntryPointMustBeCall,
    NoWasmLaneMatchesTransaction,
    PricingModeNotSupported,
    InvalidChainspecConfiguration,
}

impl TransactionV1Config {
    /// The first wasm lane whose size limit admits the transaction.
    pub fn get_wasm_lane_id_by_size(&self, transaction_size: u64) -> (r: Option<u8>)
        ensures
            r is Some <==> exists|j: int|
                0 <= j < self.wasm_lanes@.len() && (#[trigger] self.wasm_lanes@[j])
                    .max_transaction_length >= transaction_size,
            r matches Some(id) ==> exists|j: int|
                0 <= j < self.wasm_lanes@.len() && #[trigger] spec_lane_fits_size(
                    self.wasm_lanes@[j],
                    transaction_size,
                ) && (forall|i: int|
                    0 <= i < j ==> !spec_lane_fits_size(
                        #[trigger] self.wasm_lanes@[i],
                        transaction_size,
                    )) && self.wasm_lanes@[j].id == id,
    {
        let mut i: usize = 0;
        while i < self.wasm_lanes.len()
            invariant
                i <= self.wasm_lanes.len(),
                forall|j: int|
                    0 <= j < i ==> (#[trigger] self.wasm_lanes@[j]).max_transaction_length
                        < transaction_size,
            decreases self.wasm_lanes.len() - i,
        {
            if self.wasm_lanes[i].max_transaction_length >= transaction_size {
                proof {
                    assert(self.wasm_lanes@[i as int].max_transaction_length >= transaction_size);
                    assert(spec_lane_fits_size(self.wasm_lanes@[i as int], transaction_size));
                    assert(forall|x: int|
                        0 <= x < i ==> !spec_lane_fits_size(
                            #[trigger] self.wasm_lanes@[x],
                            transaction_size,
                        ));
                }
                return Some(self.wasm_lanes[i].id);
            }
            i = i + 1;
        }
        None
    }

    /// The first wasm lane admitting both the payment cap and the size.
    pub fn get_wasm_lane_id_by_payment_limited(
        &self,
        payment_amount: u64,
        transaction_size: u64,
    ) -> (r: Option<u8>)
        ensures
            r is Some <==> exists|j: int|
                0 <= j < self.wasm_lanes@.len() && (#[trigger] self.wasm_lanes@[j])
                    .max_transaction_gas_limit >= payment_amount && self.wasm_lanes@[j]
                    .max_transaction_length >= transaction_size,
            r matches Some(id) ==> exists|j: int|
                0 <= j < self.wasm_lanes@.len() && #[trigger] spec_lane_fits_limited(
                    self.wasm_lanes@[j],
                    payment_amount,
                    transaction_size,
                ) && (forall|i: int|
                    0 <= i < j ==> !spec_lane_fits_limited(
                        #[trigger] self.wasm_lanes@[i],
                        payment_amount,
                        transaction_size,
                    )) && self.wasm_lanes@[j].id == id,
    {
        let mut i: usize = 0;
        while i < self.wasm_lanes.len()
            invariant
                i <= self.wasm_lanes.len(),
                forall|j: int|
                    0 <= j < i ==> !((#[trigger] self.wasm_lanes@[j]).max_transaction_gas_limit
                        >= payment_amount && self.wasm_lanes@[j].max_transaction_length
                        >= transaction_size),
            decreases self.wasm_lanes.len() - i,
        {
            if self.wasm_lanes[i].max_transaction_gas_limit >= payment_amount
                && self.wasm_lanes[i].max_transaction_length >= transaction_size {
                proof {
                    assert((self.wasm_lanes@[i as int]).max_transaction_gas_limit
                        >= payment_amount && self.wasm_lanes@[i as int].max_transaction_length
                        >= transaction_size);
                    assert(spec_lane_fits_limited(
                        self.wasm_lanes@[i as int],
                        payment_amount,
                        transaction_size,
                    ));
                    assert(forall|x: int|
                        0 <= x < i ==> !spec_lane_fits_limited(
                            #[trigger] self.wasm_lanes@[x],
                            payment_amount,
                            transaction_size,
                        ));
                }
                return Some(self.wasm_lanes[i].id);
            }
            i = i + 1;
        }
        None
    }
}

/// The lane of the largest configured wasm lane: the one with the greatest
/// size limit, the later of equals deciding.
pub fn calculate_lane_id_of_biggest_wasm(wasm_lanes: &Vec<TransactionLaneDefinition>) -> (r:
    Option<u8>)
    ensures
        r is None <==> wasm_lanes@.len() == 0,
        r matches Some(id) ==> exists|j: int|
            0 <= j < wasm_lanes@.len() && (#[trigger] wasm_lanes@[j]).id == id && (forall|k: int|
                0 <= k < wasm_lanes@.len() ==> (#[trigger] wasm_lanes@[k]).max_transaction_length
                    <= wasm_lanes@[j].max_transaction_length),
{
    if wasm_lanes.len() == 0 {
        return None;
    }
    let mut best: usize = 0;
    let mut i: usize = 1;
    while i < wasm_lanes.len()
        invariant
            1 <= i <= wasm_lanes.len(),
            best < i,
            forall|k: int|
                0 <= k < i ==> (#[trigger] wasm_lanes@[k]).max_transaction_length <= wasm_lanes@[
                    best as int].max_transaction_length,
        decreases wasm_lanes.len() - i,
    {
        if wasm_lanes[i].max_transaction_length >= wasm_lanes[best].max_transaction_length {
            best = i;
        }
        i = i + 1;
    }
    proof {
        assert(wasm_lanes@[best as int].id == wasm_lanes@[best as int].id);
    }
    Some(wasm_lanes[best].id)
}

/// Which entry points are native auction calls.
pub open spec fn spec_is_auction_entry_point(ep: TransactionEntryPoint) -> bool {
    ||| ep is AddBid
    ||| ep is WithdrawBid
    ||| ep is Delegate
    ||| ep is Undelegate
    ||| ep is Redelegate
    ||| ep is ActivateBid
    ||| ep is ChangeBidPublicKey
    ||| ep is AddReservations
    ||| ep is CancelReservations
}

/// Sorts a transaction into its lane from its target, entry point and
/// pricing: native transfers to the mint lane, native auction calls to the
/// auction lane, installers to the install lane, and other session or
/// stored logic to the wasm lane its size and pricing admit.
pub fn calculate_transaction_lane(
    entry_point: &TransactionEntryPoint,
    target: &TransactionTarget,
    pricing_mode: &PricingMode,
    config: &TransactionV1Config,
    size_estimation: u64,
) -> (r: Result<u8, InvalidTransactionV1>)
    ensures
        target@ is Native ==> ({
            &&& *entry_point is Transfer ==> r == Ok::<u8, InvalidTransactionV1>(MINT_LANE_ID)
            &&& spec_is_auction_entry_point(*entry_point) ==> r == Ok::<u8, InvalidTransactionV1>(
                AUCTION_LANE_ID,
            )
            &&& *entry_point is Call ==> r == Err::<u8, InvalidTransactionV1>(
                InvalidTransactionV1::EntryPointCannotBeCall,
            )
            &&& *entry_point is Custom ==> r == Err::<u8, InvalidTransactionV1>(
                InvalidTransactionV1::EntryPointCannotBeCustom,
            )
        }),
        target@ is Stored ==> ({
            &&& !(*entry_point is Custom) ==> r == Err::<u8, InvalidTransactionV1>(
                InvalidTransactionV1::EntryPointMustBeCustom,
            )
            &&& (*entry_point is Custom && pricing_mode is Prepaid) ==> r == Err::<
                u8,
                InvalidTransactionV1,
            >(InvalidTransactionV1::PricingModeNotSupported)
        }),
        (target@ matches TransactionTargetV::Session { is_install_upgrade, .. }
            && *entry_point is Call && is_install_upgrade) ==> r == Ok::<u8, InvalidTransactionV1>(
            INSTALL_UPGRADE_LANE_ID,
        ),
        (target@ is Session && !(*entry_point is Call)) ==> r is Err,
        ((({
            &&& target@ is Stored
            &&& *entry_point is Custom
        }) || (target@ matches TransactionTargetV::Session { is_install_upgrade, .. }
            && *entry_point is Call && !is_install_upgrade)) && pricing_mode
            matches PricingMode::Fixed { .. }) ==> ({
            &&& (r is Ok <==> exists|j: int|
                0 <= j < config.wasm_lanes@.len() && #[trigger] spec_lane_fits_size(
                    config.wasm_lanes@[j],
                    size_estimation,
                ))
            &&& (r matches Ok(id) ==> exists|j: int|
                0 <= j < config.wasm_lanes@.len() && #[trigger] spec_lane_fits_size(
                    config.wasm_lanes@[j],
                    size_estimation,
                ) && (forall|i: int|
                    0 <= i < j ==> !spec_lane_fits_size(
                        #[trigger] config.wasm_lanes@[i],
                        size_estimation,
                    )) && config.wasm_lanes@[j].id == id)
            &&& (r is Err ==> r == Err::<u8, InvalidTransactionV1>(
                InvalidTransactionV1::NoWasmLaneMatchesTransaction,
            ))
        }),
        pricing_mode matches PricingMode::PaymentLimited { payment_amount: pa, .. } ==> ((({
            &&& target@ is Stored
            &&& *entry_point is Custom
        }) || (target@ matches TransactionTargetV::Session { is_install_upgrade, .. }
            && *entry_point is Call && !is_install_upgrade)) ==> ({
            &&& (r is Ok <==> exists|j: int|
                0 <= j < config.wasm_lanes@.len() && #[trigger] spec_lane_fits_limited(
                    config.wasm_lanes@[j],
                    *pa,
                    size_estimation,
                ))
            &&& (r matches Ok(id) ==> exists|j: int|
                0 <= j < config.wasm_lanes@.len() && #[trigger] spec_lane_fits_limited(
                    config.wasm_lanes@[j],
                    *pa,
                    size_estimation,
                ) && (forall|i: int|
                    0 <= i < j ==> !spec_lane_fits_limited(
                        #[trigger] config.wasm_lanes@[i],
                        *pa,
                        size_estimation,
                    )) && config.wasm_lanes@[j].id == id)
            &&& (r is Err ==> r == Err::<u8, InvalidTransactionV1>(
                InvalidTransactionV1::NoWasmLaneMatchesTransaction,
            ))
        })),
{
    match target {
        TransactionTarget::Native => match entry_point {
            TransactionEntryPoint::Transfer => Ok(MINT_LANE_ID),
            TransactionEntryPoint::AddBid
            | TransactionEntryPoint::WithdrawBid
            | TransactionEntryPoint::Delegate
            | TransactionEntryPoint::Undelegate
            | TransactionEntryPoint::Redelegate
            | TransactionEntryPoint::ActivateBid
            | TransactionEntryPoint::ChangeBidPublicKey
            | TransactionEntryPoint::AddReservations
            | TransactionEntryPoint::CancelReservations => Ok(AUCTION_LANE_ID),
            TransactionEntryPoint::Call => Err(InvalidTransactionV1::EntryPointCannotBeCall),
            TransactionEntryPoint::Custom(_) => Err(
                InvalidTransactionV1::EntryPointCannotBeCustom,
            ),
        },
        TransactionTarget::Stored { .. } => match entry_point {
            TransactionEntryPoint::Custom(_) => get_lane_for_non_install_wasm(
                config,
                size_estimation,
                pricing_mode,
            ),
            _ => Err(InvalidTransactionV1::EntryPointMustBeCustom),
        },
        TransactionTarget::Session { is_install_upgrade, .. } => match entry_point {
            TransactionEntryPoint::Call => {
                if *is_install_upgrade {
                    Ok(INSTALL_UPGRADE_LANE_ID)
                } else {
                    get_lane_for_non_install_wasm(config, size_estimation, pricing_mode)
                }
            },
            _ => Err(InvalidTransactionV1::EntryPointMustBeCall),
        },
    }
}

/// The wasm lane of a non-installer transaction, per its pricing mode.
fn get_lane_for_non_install_wasm(
    config: &TransactionV1Config,
    transaction_size: u64,
    pricing_mode: &PricingMode,
) -> (r: Result<u8, InvalidTransactionV1>)
    ensures
        pricing_mode is Prepaid ==> r == Err::<u8, InvalidTransactionV1>(
            InvalidTransactionV1::PricingModeNotSupported,
        ),
        pricing_mode matches PricingMode::Fixed { .. } ==> ({
            &&& (r is Ok <==> exists|j: int|
                0 <= j < config.wasm_lanes@.len() && #[trigger] spec_lane_fits_size(
                    config.wasm_lanes@[j],
                    transaction_size,
                ))
            &&& (r matches Ok(id) ==> exists|j: int|
                0 <= j < config.wasm_lanes@.len() && #[trigger] spec_lane_fits_size(
                    config.wasm_lanes@[j],
                    transaction_size,
                ) && (forall|i: int|
                    0 <= i < j ==> !spec_lane_fits_size(
                        #[trigger] config.wasm_lanes@[i],
                        transaction_size,
                    )) && config.wasm_lanes@[j].id == id)
            &&& (r is Err ==> r == Err::<u8, InvalidTransactionV1>(
                InvalidTransactionV1::NoWasmLaneMatchesTransaction,
            ))
        }),
        pricing_mode matches PricingMode::PaymentLimited { payment_amount: pa, .. } ==> ({
            &&& (r is Ok <==> exists|j: int|
                0 <= j < config.wasm_lanes@.len() && #[trigger] spec_lane_fits_limited(
                    config.wasm_lanes@[j],
                    *pa,
                    transaction_size,
                ))
            &&& (r matches Ok(id) ==> exists|j: int|
                0 <= j < config.wasm_lanes@.len() && #[trigger] spec_lane_fits_limited(
                    config.wasm_lanes@[j],
                    *pa,
                    transaction_size,
                ) && (forall|i: int|
                    0 <= i < j ==> !spec_lane_fits_limited(
                        #[trigger] config.wasm_lanes@[i],
                        *pa,
                        transaction_size,
                    )) && config.wasm_lanes@[j].id == id)
            &&& (r is Err ==> r == Err::<u8, InvalidTransactionV1>(
                InvalidTransactionV1::NoWasmLaneMatchesTransaction,
            ))
        }),
{
    match pricing_mode {
        PricingMode::PaymentLimited { payment_amount, .. } => {
            match config.get_wasm_lane_id_by_payment_limited(*payment_amount, transaction_size) {
                Some(id) => Ok(id),
                None => Err(InvalidTransactionV1::NoWasmLaneMatchesTransaction),
            }
        },
        PricingMode::Fixed { .. } => {
            match config.get_wasm_lane_id_by_size(transaction_size) {
                Some(id) => Ok(id),
                None => Err(InvalidTransactionV1::NoWasmLaneMatchesTransaction),
            }
        },
        PricingMode::Prepaid { .. } => Err(InvalidTransactionV1::PricingModeNotSupported),
    }
}

} // verus!

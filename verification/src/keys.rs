//! Addresses in global state.
//!
//! A `Key` is a tagged union identifying one record in the key-value trie.
//! Addresses are modelled as plain 64-bit values; exactly one `StoredValue`
//! variant is valid per key tag.

use vstd::prelude::*;

verus! {

/// A 64-bit address standing for an account hash, entity hash, purse
/// address, deploy hash or public key, depending on the key tag.
pub type Addr = u64;

/// An address in global state.  The derived ordering is canonical, used
/// for placement in the trie.
#[derive(Clone, Copy, PartialEq, Eq, PartialOrd, Ord, Structural, Debug)]
pub enum Key {
    /// An account record, addressed by account hash.  Holds either a legacy
    /// account record or an indirection to the entity record.
    Account(Addr),
    /// A legacy contract record, addressed by contract hash.
    Hash(Addr),
    /// An addressable-entity record.
    Entity(Addr),
    /// A package record.
    Package(Addr),
    /// An unforgeable reference to a purse.
    Uref(Addr),
    /// The balance record of a purse.
    Balance(Addr),
    /// A legacy bid record, addressed by validator.
    Bid(Addr),
    /// A current-form bid record, addressed by validator.
    BidAddr(Addr),
    /// The receipt of one executed deploy, addressed by deploy hash.
    DeployInfo(Addr),
    /// The record of one era, addressed by era id.
    EraInfo(u64),
    /// The record of the most recent era.
    EraSummary,
    /// A gas hold placed against a purse.
    BalanceHold(Addr),
    /// A named key of an entity: (entity address, name id).
    NamedKey(Addr, u64),
    /// The registry of system contract hashes; a trie-resident singleton.
    SystemContractRegistry,
    /// The registry of the chainspec the chain was launched or upgraded with.
    ChainspecRegistry,
    /// The registry of block-level checksums; a trie-resident singleton.
    ChecksumRegistry,
    /// The seigniorage-recipients snapshot; a trie-resident singleton.
    SeigniorageSnapshot,
}

impl Key {
    /// The balance key of a purse key, as the mint resolves it: a `Uref` key
    /// maps to the `Balance` key of the same address; any other key has none.
    pub fn uref_to_balance(self) -> (r: Option<Key>)
        ensures
            forall|a: Addr| self == Key::Uref(a) ==> r == Some(Key::Balance(a)),
            !(self is Uref) ==> r is None,
    {
        match self {
            Key::Uref(addr) => Some(Key::Balance(addr)),
            _ => None,
        }
    }
}

} // verus!

//! Ledger addresses as plain values.

use vstd::prelude::*;

verus! {

/// The two kinds of party that a ledger address can name.
#[derive(Clone, Copy, Debug, PartialEq, Eq, Structural)]
pub enum AddressKind {
    /// An account, named by its public key.
    Account,
    /// A deployed contract, named by its hash.
    Contract,
}

/// A ledger address as a plain value: its kind and the 256-bit key or hash behind it, split
/// into two big-endian halves.
#[derive(Clone, Copy, Debug, PartialEq, Eq, Structural)]
pub struct Address {
    pub kind: AddressKind,
    pub high: u128,
    pub low: u128,
}

impl View for Address {
    type V = Address;

    open spec fn view(&self) -> Address {
        *self
    }
}

} // verus!

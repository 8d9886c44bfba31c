//! The contract's entry points.
//!
//! Each entry point is described by two functions: one that gives the reason for which a call is
//! refused, if it is, and one that gives the ledger after the call has been accepted. A refused
//! call leaves the ledger as it was.

use vstd::prelude::*;

pub mod admin;
pub mod attestations;
pub mod bonds;
pub mod checks;
pub mod custody;
pub mod fees;
pub mod guard;
pub mod slashing;

verus! {

/// The bond contract.
pub struct CredenceBond;

} // verus!

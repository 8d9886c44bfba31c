//! The periods of a bond that renews itself.

use crate::bond::IdentityBond;
use vstd::prelude::*;

verus! {

/// Whether a period that began at `bond_start` is over.
pub fn is_period_ended(now: u64, bond_start: u64, bond_duration: u64) -> (ended: bool)
    ensures
        ended == (now >= bond_start + bond_duration || now == u64::MAX),
{
    now >= bond_start.saturating_add(bond_duration)
}

/// Begins a new period.
pub fn apply_renewal(bond: &mut IdentityBond, now: u64)
    ensures
        *final(bond) == (IdentityBond { bond_start: now, ..*old(bond) }),
{
    bond.bond_start = now;
}

} // verus!

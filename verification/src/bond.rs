//! The bond that an identity puts up.

use crate::address::Address;
use vstd::prelude::*;

verus! {

/// Identity tier based on bonded amount (Bronze < Silver < Gold < Platinum).
#[derive(Clone, Copy, Debug, PartialEq, Eq, Structural)]
pub enum BondTier {
    Bronze,
    Silver,
    Gold,
    Platinum,
}

impl BondTier {
    /// The tier's place in the order, from the bottom.
    pub open spec fn rank(self) -> nat {
        match self {
            BondTier::Bronze => 0,
            BondTier::Silver => 1,
            BondTier::Gold => 2,
            BondTier::Platinum => 3,
        }
    }
}

/// A bond. The contract keeps one at a time.
#[derive(Clone, Copy, Debug, PartialEq, Eq, Structural)]
pub struct IdentityBond {
    /// Who put the bond up and may withdraw it.
    pub identity: Address,
    /// What is bonded, slashed or not.
    pub bonded_amount: i128,
    /// When the current period began.
    pub bond_start: u64,
    /// How long a period lasts (seconds).
    pub bond_duration: u64,
    /// The part of the bonded amount that has been slashed.
    pub slashed_amount: i128,
    /// Whether the bond still stands: false once it has been withdrawn as a whole.
    pub active: bool,
    /// If true, bond auto-renews at period end unless withdrawal was requested.
    pub is_rolling: bool,
    /// When withdrawal was requested (0 = not requested).
    pub withdrawal_requested_at: u64,
    /// Notice period duration for rolling bonds (seconds). Recorded with the bond; it bars no
    /// withdrawal.
    pub notice_period_duration: u64,
}

impl IdentityBond {
    /// What is bonded and not slashed.
    pub open spec fn available(self) -> int {
        self.bonded_amount - self.slashed_amount
    }

    /// When the current period ends; the clock's last instant where the sum lies beyond it.
    pub open spec fn period_end(self) -> int {
        if self.bond_start + self.bond_duration > u64::MAX {
            u64::MAX as int
        } else {
            self.bond_start + self.bond_duration
        }
    }

    /// Amounts are never negative, and a standing bond is never slashed beyond what it holds.
    pub open spec fn sound(self) -> bool {
        &&& 0 <= self.bonded_amount
        &&& 0 <= self.slashed_amount
        &&& self.active ==> self.slashed_amount <= self.bonded_amount
    }
}

impl View for IdentityBond {
    type V = IdentityBond;

    open spec fn view(&self) -> IdentityBond {
        *self
    }
}

} // verus!

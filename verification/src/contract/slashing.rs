//! Slashing the bond.

use crate::address::Address;
use crate::bond::IdentityBond;
use crate::contract::guard::guarded_call_ended;
use crate::contract::CredenceBond;
use crate::effect::{Event, Hook};
use crate::error::ContractError;
use crate::ledger::{Ledger, LedgerView};
use vstd::prelude::*;

verus! {

/// Why a slash is refused, if it is, whatever the bond holds.
pub open spec fn slash_claim_refusal(s: LedgerView, admin: Address, amount: i128) -> Option<
    ContractError,
> {
    if s.storage.paused {
        Some(ContractError::ContractPaused)
    } else if s.admin_refusal(admin) is Some {
        s.admin_refusal(admin)
    } else if amount <= 0 {
        Some(ContractError::SlashAmountNotPositive)
    } else {
        match s.storage.bond {
            None => Some(ContractError::BondNotFound),
            Some(bond) => if !bond.active {
                Some(ContractError::BondNotActive)
            } else {
                None
            },
        }
    }
}

/// Why `slash_bond` is refused, if it is.
pub open spec fn slash_bond_refusal(s: LedgerView, admin: Address, slash_amount: i128) -> Option<
    ContractError,
> {
    let bond = s.storage.bond->0;
    if slash_claim_refusal(s, admin, slash_amount) is Some {
        slash_claim_refusal(s, admin, slash_amount)
    } else if bond.slashed_amount + slash_amount > i128::MAX {
        Some(ContractError::SlashOverflow)
    } else if bond.slashed_amount + slash_amount > bond.bonded_amount {
        Some(ContractError::SlashExceedsBond)
    } else if s.storage.locked {
        Some(ContractError::ReentrancyDetected)
    } else {
        None
    }
}

/// The bond after an amount of it has been slashed.
pub open spec fn slashed(bond: IdentityBond, amount: i128) -> IdentityBond {
    IdentityBond { slashed_amount: (bond.slashed_amount + amount) as i128, ..bond }
}

/// The ledger after an amount has been slashed: the bond records it, it is announced, and the
/// callback is to be told of it.
pub open spec fn slash_accepted(s: LedgerView, amount: i128) -> LedgerView {
    let bond = slashed(s.storage.bond->0, amount);
    guarded_call_ended(
        s.with_bond(bond).with_event(
            Event::BondSlashed {
                identity: bond.identity,
                slash_amount: amount,
                total_slashed: bond.slashed_amount,
            },
        ),
        Hook::OnSlash,
        amount,
        false,
    )
}

/// The part of an amount that a bond has left to be slashed.
pub open spec fn capped_slash(bond: IdentityBond, amount: i128) -> i128 {
    if bond.available() <= 0 {
        0
    } else if amount <= bond.available() {
        amount
    } else {
        bond.available() as i128
    }
}

/// Why `slash` is refused, if it is.
pub open spec fn slash_refusal(s: LedgerView, admin: Address, amount: i128) -> Option<
    ContractError,
> {
    if slash_claim_refusal(s, admin, amount) is Some {
        slash_claim_refusal(s, admin, amount)
    } else if s.storage.locked {
        Some(ContractError::ReentrancyDetected)
    } else {
        None
    }
}

/// Slashing.
impl CredenceBond {
    /// The bond, if the admin may slash it by an amount of this kind.
    fn require_slashable(e: &Ledger, admin: Address, amount: i128) -> (answer: Result<
        IdentityBond,
        ContractError,
    >)
        ensures
            answer == (match slash_claim_refusal(e@, admin, amount) {
                Some(refusal) => Err::<IdentityBond, ContractError>(refusal),
                None => Ok(e@.storage.bond->0),
            }),
    {
        Self::require_not_paused(e)?;
        Self::require_admin(e, admin)?;
        Self::require_positive_amount(amount, ContractError::SlashAmountNotPositive)?;
        let bond = Self::get_identity_state(e)?;
        if !bond.active {
            return Err(ContractError::BondNotActive);
        }
        Ok(bond)
    }

    /// Records a slash, announces it and tells the callback.
    fn apply_slash(e: &mut Ledger, bond: IdentityBond, amount: i128) -> (answer: Result<
        IdentityBond,
        ContractError,
    >)
        requires
            old(e)@.storage.bond == Some(bond),
            i128::MIN <= bond.slashed_amount + amount <= i128::MAX,
        ensures
            if old(e)@.storage.locked {
                answer == Err::<IdentityBond, ContractError>(ContractError::ReentrancyDetected)
                    && final(e)@ == old(e)@
            } else {
                answer == Ok::<IdentityBond, ContractError>(slashed(bond, amount)) && final(e)@
                    == slash_accepted(old(e)@, amount)
            },
    {
        Self::acquire_lock(e)?;
        let updated = IdentityBond {
            identity: bond.identity,
            bonded_amount: bond.bonded_amount,
            bond_start: bond.bond_start,
            bond_duration: bond.bond_duration,
            slashed_amount: bond.slashed_amount + amount,
            active: bond.active,
            is_rolling: bond.is_rolling,
            withdrawal_requested_at: bond.withdrawal_requested_at,
            notice_period_duration: bond.notice_period_duration,
        };
        e.storage.bond = Some(updated);
        e.publish(
            Event::BondSlashed {
                identity: updated.identity,
                slash_amount: amount,
                total_slashed: updated.slashed_amount,
            },
        );
        Self::end_guarded_call(e, Hook::OnSlash, amount, false);
        Ok(updated)
    }

    /// Slash a positive portion of a bond. Only callable by admin. Blocked while paused.
    /// Validates `slash_amount > 0`, uses checked arithmetic, rejects over-slashing,
    /// and emits `bond_slashed(identity, slash_amount, total_slashed_amount)` on success.
    /// Uses a reentrancy guard to prevent re-entrance during external calls: while a callback is
    /// being told, the lock stays held, and `release_lock` ends the call.
    pub fn slash_bond(e: &mut Ledger, admin: Address, slash_amount: i128) -> (answer: Result<
        i128,
        ContractError,
    >)
        ensures
            match slash_bond_refusal(old(e)@, admin, slash_amount) {
                Some(refusal) => answer == Err::<i128, ContractError>(refusal) && final(e)@ == old(
                    e,
                )@,
                None => answer == Ok::<i128, ContractError>(
                    slashed(old(e)@.storage.bond->0, slash_amount).slashed_amount,
                ) && final(e)@ == slash_accepted(old(e)@, slash_amount),
            },
    {
        let bond = Self::require_slashable(e, admin, slash_amount)?;
        let new_slashed: i128 = match bond.slashed_amount.checked_add(slash_amount) {
            Some(new_slashed) => new_slashed,
            None => return Err(ContractError::SlashOverflow),
        };
        if new_slashed > bond.bonded_amount {
            return Err(ContractError::SlashExceedsBond);
        }
        let updated = Self::apply_slash(e, bond, slash_amount)?;
        Ok(updated.slashed_amount)
    }

    /// Slash a portion of the bond (admin only). Reduces the bond's value as a penalty.
    /// Increases slashed_amount up to the bonded_amount (over-slash prevention).
    ///
    /// # Arguments
    /// * `admin` - Address claiming admin authority (must be contract admin)
    /// * `amount` - Amount to slash (i128). Will be capped at bonded_amount.
    ///
    /// # Returns
    /// Updated IdentityBond with increased slashed_amount
    ///
    /// # Events
    /// Emits `bond_slashed` event with (identity, slash_amount, total_slashed_amount)
    pub fn slash(e: &mut Ledger, admin: Address, amount: i128) -> (answer: Result<
        IdentityBond,
        ContractError,
    >)
        ensures
            match slash_refusal(old(e)@, admin, amount) {
                Some(refusal) => answer == Err::<IdentityBond, ContractError>(refusal) && final(e)@
                    == old(e)@,
                None => {
                    let bond = old(e)@.storage.bond->0;
                    answer == Ok::<IdentityBond, ContractError>(
                        slashed(bond, capped_slash(bond, amount)),
                    ) && final(e)@ == slash_accepted(old(e)@, capped_slash(bond, amount))
                },
            },
    {
        let bond = Self::require_slashable(e, admin, amount)?;
        let capped: i128 = if bond.slashed_amount >= bond.bonded_amount {
            0
        } else {
            match bond.bonded_amount.checked_sub(bond.slashed_amount) {
                Some(available) => if amount <= available {
                    amount
                } else {
                    available
                },
                None => amount,
            }
        };
        Self::apply_slash(e, bond, capped)
    }
}

} // verus!

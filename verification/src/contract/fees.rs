//! The fee pool.

use crate::address::Address;
use crate::contract::guard::guarded_call_ended;
use crate::contract::CredenceBond;
use crate::effect::Hook;
use crate::error::ContractError;
use crate::ledger::{Ledger, LedgerView, StorageView};
use vstd::prelude::*;

verus! {

/// The ledger with another fee pool.
pub open spec fn with_fees(s: LedgerView, fees: i128) -> LedgerView {
    s.with_storage(StorageView { fees, ..s.storage })
}

/// Why `deposit_fees` is refused, if it is.
pub open spec fn deposit_fees_refusal(s: LedgerView, amount: i128) -> Option<ContractError> {
    if s.storage.paused {
        Some(ContractError::ContractPaused)
    } else if !(i128::MIN <= s.storage.fees + amount <= i128::MAX) {
        Some(ContractError::ArithmeticOverflow)
    } else {
        None
    }
}

/// The ledger after `deposit_fees` has been accepted.
pub open spec fn deposit_fees_accepted(s: LedgerView, amount: i128) -> LedgerView {
    with_fees(s, (s.storage.fees + amount) as i128)
}

/// Why `collect_fees` is refused, if it is.
pub open spec fn collect_fees_refusal(s: LedgerView, admin: Address) -> Option<ContractError> {
    if s.storage.paused {
        Some(ContractError::ContractPaused)
    } else if s.auth_refusal(admin) is Some {
        s.auth_refusal(admin)
    } else if s.storage.locked {
        Some(ContractError::ReentrancyDetected)
    } else if s.storage.admin is None {
        Some(ContractError::NoAdmin)
    } else if s.storage.admin != Some(admin) {
        Some(ContractError::NotAdmin)
    } else {
        None
    }
}

/// The ledger after `collect_fees` has been accepted: the pool is empty, and the callback is to be
/// told what was in it.
pub open spec fn collect_fees_accepted(s: LedgerView) -> LedgerView {
    guarded_call_ended(with_fees(s, 0), Hook::OnCollect, s.storage.fees, false)
}

/// The fee pool.
impl CredenceBond {
    /// Deposit fees into the contract's fee pool. Blocked while paused.
    pub fn deposit_fees(e: &mut Ledger, amount: i128) -> (answer: Result<(), ContractError>)
        ensures
            match deposit_fees_refusal(old(e)@, amount) {
                Some(refusal) => answer == Err::<(), ContractError>(refusal) && final(e)@ == old(
                    e,
                )@,
                None => answer == Ok::<(), ContractError>(()) && final(e)@
                    == deposit_fees_accepted(old(e)@, amount),
            },
    {
        Self::require_not_paused(e)?;
        e.storage.fees =
        match e.storage.fees.checked_add(amount) {
            Some(fees) => fees,
            None => return Err(ContractError::ArithmeticOverflow),
        };
        Ok(())
    }

    /// Collect accumulated protocol fees. Only callable by admin. Blocked while paused.
    /// Uses a reentrancy guard to prevent re-entrance during external calls: while a callback is
    /// being told, the lock stays held, and `release_lock` ends the call.
    pub fn collect_fees(e: &mut Ledger, admin: Address) -> (answer: Result<i128, ContractError>)
        ensures
            match collect_fees_refusal(old(e)@, admin) {
                Some(refusal) => answer == Err::<i128, ContractError>(refusal) && final(e)@ == old(
                    e,
                )@,
                None => answer == Ok::<i128, ContractError>(old(e)@.storage.fees) && final(e)@
                    == collect_fees_accepted(old(e)@),
            },
    {
        Self::require_not_paused(e)?;
        e.require_auth(admin)?;
        if Self::is_locked(e) {
            return Err(ContractError::ReentrancyDetected);
        }
        match e.storage.admin {
            None => return Err(ContractError::NoAdmin),
            Some(stored_admin) => if stored_admin != admin {
                return Err(ContractError::NotAdmin);
            },
        }
        Self::acquire_lock(e)?;
        let fees: i128 = e.storage.fees;
        e.storage.fees = 0;
        Self::end_guarded_call(e, Hook::OnCollect, fees, false);
        Ok(fees)
    }
}

} // verus!

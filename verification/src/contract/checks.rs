//! The checks that entry points share.

use crate::address::Address;
use crate::contract::CredenceBond;
use crate::error::ContractError;
use crate::ledger::{Ledger, LedgerView};
use vstd::prelude::*;

verus! {

/// Why a call that a pause blocks is refused, if it is.
pub open spec fn paused_refusal(s: LedgerView) -> Option<ContractError> {
    if s.storage.paused {
        Some(ContractError::ContractPaused)
    } else {
        None
    }
}

/// Why an admin's call that a pause blocks is refused, if it is.
pub open spec fn unpaused_admin_refusal(s: LedgerView, admin: Address) -> Option<ContractError> {
    if s.storage.paused {
        Some(ContractError::ContractPaused)
    } else {
        s.admin_refusal(admin)
    }
}

/// A check that is passed where there is nothing to refuse.
pub open spec fn check_result(refusal: Option<ContractError>) -> Result<(), ContractError> {
    match refusal {
        Some(reason) => Err(reason),
        None => Ok(()),
    }
}

impl CredenceBond {
    /// Whether emergency pause mode is active.
    pub(crate) fn paused(e: &Ledger) -> (paused: bool)
        ensures
            paused == e@.storage.paused,
    {
        e.storage.paused
    }

    /// Refuses a call while the contract is paused.
    pub(crate) fn require_not_paused(e: &Ledger) -> (checked: Result<(), ContractError>)
        ensures
            checked == check_result(paused_refusal(e@)),
    {
        if Self::paused(e) {
            Err(ContractError::ContractPaused)
        } else {
            Ok(())
        }
    }

    /// Refuses a call that does not come from the stored admin.
    pub(crate) fn require_admin(e: &Ledger, admin: Address) -> (checked: Result<(), ContractError>)
        ensures
            checked == check_result(e@.admin_refusal(admin)),
    {
        match e.storage.admin {
            None => Err(ContractError::NotInitialized),
            Some(stored_admin) => {
                if stored_admin != admin {
                    Err(ContractError::NotAdmin)
                } else {
                    e.require_auth(admin)
                }
            },
        }
    }

    /// Refuses an amount of nothing or less, for the reason given.
    pub fn require_positive_amount(amount: i128, refusal: ContractError) -> (checked: Result<
        (),
        ContractError,
    >)
        ensures
            amount > 0 ==> checked == Ok::<(), ContractError>(()),
            amount <= 0 ==> checked == Err::<(), ContractError>(refusal),
    {
        if amount <= 0 {
            Err(refusal)
        } else {
            Ok(())
        }
    }
}

} // verus!

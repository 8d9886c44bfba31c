//! The reentrancy guard, and withdrawing the bond as a whole.

use crate::address::Address;
use crate::bond::IdentityBond;
use crate::contract::custody::{push_tokens_accepted, push_tokens_refusal};
use crate::contract::CredenceBond;
use crate::effect::{Effect, Hook};
use crate::error::ContractError;
use crate::ledger::{Ledger, LedgerView, StorageView};
use vstd::prelude::*;

verus! {

/// The ledger with the lock held or free.
pub open spec fn with_lock(s: LedgerView, locked: bool) -> LedgerView {
    s.with_storage(StorageView { locked, ..s.storage })
}

/// The ledger once the callback, if one is registered, is to be told of an amount.
pub open spec fn callback_told(s: LedgerView, hook: Hook, amount: i128) -> LedgerView {
    match s.storage.callback {
        Some(callback) => s.with_effect(Effect::InvokeCallback { callback, hook, amount }),
        None => s,
    }
}

/// The ledger after a guarded call has made its changes. The callback, if one is registered, is to
/// be told of the amount. Where external calls are asked for, be it this one or a payment, the lock
/// is held until the last of them is over, and then to be freed; otherwise it is free.
pub open spec fn guarded_call_ended(
    s: LedgerView,
    hook: Hook,
    amount: i128,
    paying: bool,
) -> LedgerView {
    if paying || s.storage.callback is Some {
        callback_told(with_lock(s, true), hook, amount).with_effect(Effect::ReleaseLock)
    } else {
        with_lock(s, false)
    }
}

/// Why `withdraw_bond` is refused, if it is.
pub open spec fn withdraw_bond_refusal(s: LedgerView, identity: Address) -> Option<ContractError> {
    if s.storage.paused {
        Some(ContractError::ContractPaused)
    } else if s.auth_refusal(identity) is Some {
        s.auth_refusal(identity)
    } else if s.storage.locked {
        Some(ContractError::ReentrancyDetected)
    } else {
        match s.storage.bond {
            None => Some(ContractError::BondNotFound),
            Some(bond) => if bond.identity != identity {
                Some(ContractError::NotBondOwner)
            } else if !bond.active {
                Some(ContractError::BondNotActive)
            } else if !(i128::MIN <= bond.available() <= i128::MAX) {
                Some(ContractError::ArithmeticOverflow)
            } else {
                push_tokens_refusal(s, bond.available() as i128)
            },
        }
    }
}

/// The bond after `withdraw_bond` has been accepted.
pub open spec fn closed_bond(bond: IdentityBond) -> IdentityBond {
    IdentityBond { bonded_amount: 0, active: false, ..bond }
}

/// The ledger after `withdraw_bond` has been accepted: nothing is bonded any more, the owner is
/// paid what was bonded and not slashed, and the callback is to be told of it, all under the lock.
pub open spec fn withdraw_bond_accepted(s: LedgerView) -> LedgerView {
    let bond = s.storage.bond->0;
    let amount = bond.available() as i128;
    guarded_call_ended(
        push_tokens_accepted(s.with_bond(closed_bond(bond)), bond.identity, amount),
        Hook::OnWithdraw,
        amount,
        amount != 0,
    )
}

/// The reentrancy guard, and withdrawing the bond as a whole.
impl CredenceBond {
    /// Takes the lock, or refuses a call that comes while it is held.
    pub(crate) fn acquire_lock(e: &mut Ledger) -> (answer: Result<(), ContractError>)
        ensures
            if old(e)@.storage.locked {
                answer == Err::<(), ContractError>(ContractError::ReentrancyDetected) && final(e)@
                    == old(e)@
            } else {
                answer == Ok::<(), ContractError>(()) && final(e)@ == with_lock(old(e)@, true)
            },
    {
        if Self::check_lock(e) {
            return Err(ContractError::ReentrancyDetected);
        }
        e.storage.locked = true;
        Ok(())
    }

    /// Frees the lock. Due once the external calls that a guarded call asked for are over.
    pub fn release_lock(e: &mut Ledger)
        ensures
            final(e)@ == with_lock(old(e)@, false),
    {
        e.storage.locked = false;
    }

    /// Whether the lock is held.
    fn check_lock(e: &Ledger) -> (locked: bool)
        ensures
            locked == e@.storage.locked,
    {
        e.storage.locked
    }

    /// Check if the reentrancy lock is currently held.
    pub fn is_locked(e: &Ledger) -> (locked: bool)
        ensures
            locked == e@.storage.locked,
    {
        Self::check_lock(e)
    }

    /// Asks for the callback, if one is registered, to be told of an amount, and for the lock to be
    /// freed after it and after the payment, if one has been asked for. Without either, the guarded
    /// call is over and the lock is freed at once.
    pub(crate) fn end_guarded_call(e: &mut Ledger, hook: Hook, amount: i128, paying: bool)
        requires
            old(e)@.storage.locked,
        ensures
            final(e)@ == guarded_call_ended(old(e)@, hook, amount, paying),
    {
        match e.storage.callback {
            Some(callback) => {
                e.request(Effect::InvokeCallback { callback, hook, amount });
                e.request(Effect::ReleaseLock);
            },
            None => if paying {
                e.request(Effect::ReleaseLock);
            } else {
                Self::release_lock(e);
            },
        }
    }

    /// Withdraw the full bonded amount back to the identity, less what has been slashed. Blocked
    /// while paused. Custody invariant: the contract transfers the withdrawn amount to the bond
    /// identity after persisting the closed bond.
    /// Uses a reentrancy guard to prevent re-entrance during external calls: while tokens are being
    /// transferred or a callback is being told, the lock stays held, and `release_lock` ends the
    /// call.
    pub fn withdraw_bond(e: &mut Ledger, identity: Address) -> (answer: Result<i128, ContractError>)
        ensures
            match withdraw_bond_refusal(old(e)@, identity) {
                Some(refusal) => answer == Err::<i128, ContractError>(refusal) && final(e)@ == old(
                    e,
                )@,
                None => answer is Ok && answer->Ok_0 == old(e)@.storage.bond->0.available()
                    && final(e)@ == withdraw_bond_accepted(old(e)@),
            },
    {
        Self::require_not_paused(e)?;
        e.require_auth(identity)?;
        if Self::check_lock(e) {
            return Err(ContractError::ReentrancyDetected);
        }
        let bond = Self::get_identity_state(e)?;
        if bond.identity != identity {
            return Err(ContractError::NotBondOwner);
        }
        if !bond.active {
            return Err(ContractError::BondNotActive);
        }
        let withdraw_amount: i128 = match bond.bonded_amount.checked_sub(bond.slashed_amount) {
            Some(withdraw_amount) => withdraw_amount,
            None => return Err(ContractError::ArithmeticOverflow),
        };
        if withdraw_amount != 0 {
            Self::get_token(e)?;
        }
        Self::acquire_lock(e)?;
        let updated = IdentityBond {
            identity: bond.identity,
            bonded_amount: 0,
            bond_start: bond.bond_start,
            bond_duration: bond.bond_duration,
            slashed_amount: bond.slashed_amount,
            active: false,
            is_rolling: bond.is_rolling,
            withdrawal_requested_at: bond.withdrawal_requested_at,
            notice_period_duration: bond.notice_period_duration,
        };
        e.storage.bond = Some(updated);
        Self::push_tokens(e, updated.identity, withdraw_amount)?;
        Self::end_guarded_call(e, Hook::OnWithdraw, withdraw_amount, withdraw_amount != 0);
        Ok(withdraw_amount)
    }
}

} // verus!

//! Setting the contract up and keeping it in order.

use crate::address::Address;
use crate::contract::checks::{paused_refusal, unpaused_admin_refusal};
use crate::contract::CredenceBond;
use crate::early_exit_penalty;
use crate::effect::Event;
use crate::error::ContractError;
use crate::ledger::{EarlyExitConfig, Ledger, LedgerView, StorageView};
use vstd::prelude::*;

verus! {

/// The ledger after `initialize` has been accepted.
pub open spec fn initialize_accepted(s: LedgerView, admin: Address, token: Address) -> LedgerView {
    s.with_storage(
        StorageView { admin: Some(admin), token: Some(token), paused: false, ..s.storage },
    )
}

/// The ledger after `pause` has been accepted.
pub open spec fn pause_accepted(s: LedgerView, admin: Address) -> LedgerView {
    s.with_storage(StorageView { paused: true, ..s.storage }).with_event(Event::Paused { admin })
}

/// The ledger after `unpause` has been accepted.
pub open spec fn unpause_accepted(s: LedgerView, admin: Address) -> LedgerView {
    s.with_storage(StorageView { paused: false, ..s.storage }).with_event(Event::Unpaused { admin })
}

/// The ledger after `set_early_exit_config` has been accepted.
pub open spec fn set_early_exit_config_accepted(
    s: LedgerView,
    treasury: Address,
    penalty_bps: u32,
) -> LedgerView {
    s.with_storage(
        StorageView {
            early_exit: Some(EarlyExitConfig { treasury, penalty_bps }),
            ..s.storage
        },
    )
}

/// The ledger after `set_callback` has been accepted.
pub open spec fn set_callback_accepted(s: LedgerView, addr: Address) -> LedgerView {
    s.with_storage(StorageView { callback: Some(addr), ..s.storage })
}

/// Setting the contract up and keeping it in order.
impl CredenceBond {
    /// Initialize the contract (admin) with the token used for custody.
    pub fn initialize(e: &mut Ledger, admin: Address, token: Address) -> (answer: Result<
        (),
        ContractError,
    >)
        ensures
            match old(e)@.auth_refusal(admin) {
                Some(refusal) => answer == Err::<(), ContractError>(refusal) && final(e)@ == old(
                    e,
                )@,
                None => answer == Ok::<(), ContractError>(()) && final(e)@ == initialize_accepted(
                    old(e)@,
                    admin,
                    token,
                ),
            },
    {
        e.require_auth(admin)?;
        e.storage.admin = Some(admin);
        e.storage.token = Some(token);
        e.storage.paused = false;
        Ok(())
    }

    /// Return whether emergency pause mode is active.
    pub fn is_paused(e: &Ledger) -> (paused: bool)
        ensures
            paused == e@.storage.paused,
    {
        Self::paused(e)
    }

    /// Pause mutating bond entrypoints. Only the stored admin can call.
    pub fn pause(e: &mut Ledger, admin: Address) -> (answer: Result<(), ContractError>)
        ensures
            match old(e)@.admin_refusal(admin) {
                Some(refusal) => answer == Err::<(), ContractError>(refusal) && final(e)@ == old(
                    e,
                )@,
                None => answer == Ok::<(), ContractError>(()) && final(e)@ == pause_accepted(
                    old(e)@,
                    admin,
                ),
            },
    {
        Self::require_admin(e, admin)?;
        e.storage.paused = true;
        e.publish(Event::Paused { admin });
        Ok(())
    }

    /// Unpause mutating bond entrypoints. Only the stored admin can call.
    pub fn unpause(e: &mut Ledger, admin: Address) -> (answer: Result<(), ContractError>)
        ensures
            match old(e)@.admin_refusal(admin) {
                Some(refusal) => answer == Err::<(), ContractError>(refusal) && final(e)@ == old(
                    e,
                )@,
                None => answer == Ok::<(), ContractError>(()) && final(e)@ == unpause_accepted(
                    old(e)@,
                    admin,
                ),
            },
    {
        Self::require_admin(e, admin)?;
        e.storage.paused = false;
        e.publish(Event::Unpaused { admin });
        Ok(())
    }

    /// Set early exit penalty config. Only admin should call. Blocked while paused.
    pub fn set_early_exit_config(
        e: &mut Ledger,
        admin: Address,
        treasury: Address,
        penalty_bps: u32,
    ) -> (answer: Result<(), ContractError>)
        ensures
            match unpaused_admin_refusal(old(e)@, admin) {
                Some(refusal) => answer == Err::<(), ContractError>(refusal) && final(e)@ == old(
                    e,
                )@,
                None => answer == Ok::<(), ContractError>(()) && final(e)@
                    == set_early_exit_config_accepted(old(e)@, treasury, penalty_bps),
            },
    {
        Self::require_not_paused(e)?;
        Self::require_admin(e, admin)?;
        early_exit_penalty::set_config(e, treasury, penalty_bps);
        Ok(())
    }

    /// Register a callback contract address (for testing external call hooks). Blocked while
    /// paused.
    pub fn set_callback(e: &mut Ledger, addr: Address) -> (answer: Result<(), ContractError>)
        ensures
            match paused_refusal(old(e)@) {
                Some(refusal) => answer == Err::<(), ContractError>(refusal) && final(e)@ == old(
                    e,
                )@,
                None => answer == Ok::<(), ContractError>(()) && final(e)@
                    == set_callback_accepted(old(e)@, addr),
            },
    {
        Self::require_not_paused(e)?;
        e.storage.callback = Some(addr);
        Ok(())
    }
}

} // verus!

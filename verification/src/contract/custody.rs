//! Tokens in and out of custody.

use crate::address::Address;
use crate::bond::IdentityBond;
use crate::contract::CredenceBond;
use crate::early_exit_penalty::{self, early_exit_penalty, penalty_announced, penalty_computable};
use crate::effect::Effect;
use crate::error::ContractError;
use crate::ledger::{Ledger, LedgerView};
use crate::tiered_bond::{self, tier_change_announced, tier_for_amount};
use vstd::prelude::*;

verus! {

/// Why tokens cannot be pulled in, if they cannot, given the allowance that the token reports.
pub open spec fn pull_tokens_refusal(s: LedgerView, amount: i128, allowance: i128) -> Option<
    ContractError,
> {
    if amount == 0 {
        None
    } else if s.storage.token is None {
        Some(ContractError::TokenNotConfigured)
    } else if allowance < amount {
        Some(ContractError::InsufficientAllowance)
    } else {
        None
    }
}

/// The ledger after tokens have been asked to be pulled in.
pub open spec fn pull_tokens_accepted(s: LedgerView, from: Address, amount: i128) -> LedgerView {
    if amount == 0 {
        s
    } else {
        s.with_effect(
            Effect::TransferFrom {
                token: s.storage.token->0,
                spender: s.contract,
                from,
                to: s.contract,
                amount,
            },
        )
    }
}

/// Why tokens cannot be paid out, if they cannot.
pub open spec fn push_tokens_refusal(s: LedgerView, amount: i128) -> Option<ContractError> {
    if amount != 0 && s.storage.token is None {
        Some(ContractError::TokenNotConfigured)
    } else {
        None
    }
}

/// The ledger after tokens have been asked to be paid out.
pub open spec fn push_tokens_accepted(s: LedgerView, to: Address, amount: i128) -> LedgerView {
    if amount == 0 {
        s
    } else {
        s.with_effect(
            Effect::Transfer { token: s.storage.token->0, from: s.contract, to, amount },
        )
    }
}

/// Why an amount cannot be taken from the bond, if it cannot, leaving the token aside.
pub open spec fn balance_refusal(s: LedgerView, amount: i128) -> Option<ContractError> {
    if s.storage.paused {
        Some(ContractError::ContractPaused)
    } else {
        match s.storage.bond {
            None => Some(ContractError::BondNotFound),
            Some(bond) => if s.auth_refusal(bond.identity) is Some {
                s.auth_refusal(bond.identity)
            } else if amount <= 0 {
                Some(ContractError::WithdrawAmountNotPositive)
            } else if !(i128::MIN <= bond.available() <= i128::MAX) {
                Some(ContractError::SlashedExceedsBonded)
            } else if amount > bond.available() {
                Some(ContractError::InsufficientBalance)
            } else {
                None
            },
        }
    }
}

/// The bond after an amount has been taken from it.
pub open spec fn reduced(bond: IdentityBond, amount: i128) -> IdentityBond {
    IdentityBond { bonded_amount: (bond.bonded_amount - amount) as i128, ..bond }
}

/// Why `withdraw` is refused, if it is.
pub open spec fn withdraw_refusal(s: LedgerView, amount: i128) -> Option<ContractError> {
    if balance_refusal(s, amount) is Some {
        balance_refusal(s, amount)
    } else {
        push_tokens_refusal(s, amount)
    }
}

/// The ledger after `withdraw` has been accepted: less is bonded, and the owner is paid.
pub open spec fn withdraw_accepted(s: LedgerView, amount: i128) -> LedgerView {
    let bond = s.storage.bond->0;
    push_tokens_accepted(s.with_bond(reduced(bond, amount)), bond.identity, amount)
}

/// The penalty that `withdraw_early` applies.
pub open spec fn withdraw_early_penalty(s: LedgerView, amount: i128) -> int {
    let bond = s.storage.bond->0;
    early_exit_penalty(
        amount as int,
        bond.period_end() - s.timestamp,
        bond.bond_duration as int,
        s.storage.early_exit->0.penalty_bps as int,
    )
}

/// Why `withdraw_early` is refused, if it is.
pub open spec fn withdraw_early_refusal(s: LedgerView, amount: i128) -> Option<ContractError> {
    let bond = s.storage.bond->0;
    if balance_refusal(s, amount) is Some {
        balance_refusal(s, amount)
    } else if s.timestamp >= bond.period_end() {
        Some(ContractError::LockupEnded)
    } else if s.storage.early_exit is None {
        Some(ContractError::EarlyExitNotConfigured)
    } else if !penalty_computable(
        amount as int,
        bond.period_end() - s.timestamp,
        bond.bond_duration as int,
        s.storage.early_exit->0.penalty_bps as int,
    ) {
        Some(ContractError::PenaltyOverflow)
    } else if withdraw_early_penalty(s, amount) > amount {
        Some(ContractError::PenaltyExceedsWithdrawal)
    } else {
        push_tokens_refusal(s, amount)
    }
}

/// The ledger after `withdraw_early` has been accepted: the penalty is announced, and so is the
/// lower tier if there is one; less is bonded; the owner is paid what the penalty leaves, and the
/// treasury is paid the penalty.
pub open spec fn withdraw_early_accepted(s: LedgerView, amount: i128) -> LedgerView {
    let bond = s.storage.bond->0;
    let after = reduced(bond, amount);
    let treasury = s.storage.early_exit->0.treasury;
    let penalty = withdraw_early_penalty(s, amount) as i128;
    let announced = tier_change_announced(
        penalty_announced(s, bond.identity, amount, penalty, treasury),
        bond.identity,
        tier_for_amount(s.rules.tiers, bond.bonded_amount),
        tier_for_amount(s.rules.tiers, after.bonded_amount),
    );
    push_tokens_accepted(
        push_tokens_accepted(announced.with_bond(after), bond.identity, (amount - penalty) as i128),
        treasury,
        penalty,
    )
}

/// Tokens in and out.
impl CredenceBond {
    /// The token used for custody.
    fn token_address(e: &Ledger) -> (answer: Result<Address, ContractError>)
        ensures
            answer == (match e@.storage.token {
                Some(token) => Ok::<Address, ContractError>(token),
                None => Err(ContractError::TokenNotConfigured),
            }),
    {
        match e.storage.token {
            Some(token) => Ok(token),
            None => Err(ContractError::TokenNotConfigured),
        }
    }

    /// Return the token configured for bond custody.
    pub fn get_token(e: &Ledger) -> (answer: Result<Address, ContractError>)
        ensures
            answer == (match e@.storage.token {
                Some(token) => Ok::<Address, ContractError>(token),
                None => Err(ContractError::TokenNotConfigured),
            }),
    {
        Self::token_address(e)
    }

    /// Pull tokens into custody, given how much of `from`'s balance the token lets this contract
    /// pull.
    pub fn pull_tokens(e: &mut Ledger, from: Address, amount: i128, allowance: i128) -> (answer:
        Result<(), ContractError>)
        ensures
            match pull_tokens_refusal(old(e)@, amount, allowance) {
                Some(refusal) => answer == Err::<(), ContractError>(refusal) && final(e)@ == old(
                    e,
                )@,
                None => answer == Ok::<(), ContractError>(()) && final(e)@ == pull_tokens_accepted(
                    old(e)@,
                    from,
                    amount,
                ),
            },
    {
        if amount == 0 {
            return Ok(());
        }
        let contract_addr = e.contract;
        let token = Self::token_address(e)?;
        if allowance < amount {
            return Err(ContractError::InsufficientAllowance);
        }
        e.request(
            Effect::TransferFrom {
                token,
                spender: contract_addr,
                from,
                to: contract_addr,
                amount,
            },
        );
        Ok(())
    }

    /// Pay tokens out of custody.
    pub(crate) fn push_tokens(e: &mut Ledger, to: Address, amount: i128) -> (answer: Result<
        (),
        ContractError,
    >)
        ensures
            match push_tokens_refusal(old(e)@, amount) {
                Some(refusal) => answer == Err::<(), ContractError>(refusal) && final(e)@ == old(
                    e,
                )@,
                None => answer == Ok::<(), ContractError>(()) && final(e)@ == push_tokens_accepted(
                    old(e)@,
                    to,
                    amount,
                ),
            },
    {
        if amount == 0 {
            return Ok(());
        }
        let token = Self::token_address(e)?;
        let contract_addr = e.contract;
        e.request(Effect::Transfer { token, from: contract_addr, to, amount });
        Ok(())
    }

    /// The bond, if `amount` may be taken from it.
    fn require_available(e: &Ledger, amount: i128) -> (answer: Result<IdentityBond, ContractError>)
        ensures
            answer == (match balance_refusal(e@, amount) {
                Some(refusal) => Err::<IdentityBond, ContractError>(refusal),
                None => Ok(e@.storage.bond->0),
            }),
    {
        Self::require_not_paused(e)?;
        let bond = Self::get_identity_state(e)?;
        e.require_auth(bond.identity)?;
        Self::require_positive_amount(amount, ContractError::WithdrawAmountNotPositive)?;
        let available: i128 = match bond.bonded_amount.checked_sub(bond.slashed_amount) {
            Some(available) => available,
            None => return Err(ContractError::SlashedExceedsBonded),
        };
        if amount > available {
            return Err(ContractError::InsufficientBalance);
        }
        Ok(bond)
    }

    /// Withdraw from bond. Blocked while paused.
    /// Checks that the bond has sufficient balance after accounting for slashed amount.
    /// Custody invariant: the contract transfers the withdrawn amount to the bond identity
    /// after persisting the reduced bond state.
    pub fn withdraw(e: &mut Ledger, amount: i128) -> (answer: Result<IdentityBond, ContractError>)
        ensures
            match withdraw_refusal(old(e)@, amount) {
                Some(refusal) => answer == Err::<IdentityBond, ContractError>(refusal) && final(e)@
                    == old(e)@,
                None => answer == Ok::<IdentityBond, ContractError>(
                    reduced(old(e)@.storage.bond->0, amount),
                ) && final(e)@ == withdraw_accepted(old(e)@, amount),
            },
    {
        let mut bond = Self::require_available(e, amount)?;
        Self::token_address(e)?;
        bond.bonded_amount = bond.bonded_amount - amount;
        e.storage.bond = Some(bond);
        Self::push_tokens(e, bond.identity, amount)?;
        Ok(bond)
    }

    /// Withdraw before lock-up end; blocked while paused.
    /// Applies early exit penalty and transfers penalty to treasury.
    /// Custody invariant: after persisting the reduced bond state, the contract transfers
    /// `amount - penalty` to the bond identity and `penalty` to the configured treasury.
    /// Net amount to user = amount - penalty. Use when lock-up has not yet ended.
    pub fn withdraw_early(e: &mut Ledger, amount: i128) -> (answer: Result<
        IdentityBond,
        ContractError,
    >)
        ensures
            match withdraw_early_refusal(old(e)@, amount) {
                Some(refusal) => answer == Err::<IdentityBond, ContractError>(refusal) && final(e)@
                    == old(e)@,
                None => answer == Ok::<IdentityBond, ContractError>(
                    reduced(old(e)@.storage.bond->0, amount),
                ) && final(e)@ == withdraw_early_accepted(old(e)@, amount),
            },
    {
        let mut bond = Self::require_available(e, amount)?;
        let now: u64 = e.timestamp;
        let end: u64 = bond.bond_start.saturating_add(bond.bond_duration);
        if now >= end {
            return Err(ContractError::LockupEnded);
        }
        let config = early_exit_penalty::get_config(e)?;
        let remaining: u64 = end.saturating_sub(now);
        let penalty: i128 = early_exit_penalty::calculate_penalty(
            amount,
            remaining,
            bond.bond_duration,
            config.penalty_bps,
        )?;
        if penalty > amount {
            return Err(ContractError::PenaltyExceedsWithdrawal);
        }
        Self::token_address(e)?;
        proof {
            early_exit_penalty::lemma_penalty_is_not_negative(
                amount as int,
                remaining as int,
                bond.bond_duration as int,
                config.penalty_bps as int,
            );
        }
        let net_amount: i128 = amount - penalty;
        early_exit_penalty::emit_penalty_event(e, bond.identity, amount, penalty, config.treasury);
        let old_tier = tiered_bond::get_tier_for_amount(&e.rules.tiers, bond.bonded_amount);
        bond.bonded_amount = bond.bonded_amount - amount;
        let new_tier = tiered_bond::get_tier_for_amount(&e.rules.tiers, bond.bonded_amount);
        tiered_bond::emit_tier_change_if_needed(e, bond.identity, old_tier, new_tier);
        e.storage.bond = Some(bond);
        Self::push_tokens(e, bond.identity, net_amount)?;
        Self::push_tokens(e, config.treasury, penalty)?;
        Ok(bond)
    }
}

} // verus!

//! Creating a bond, adding to it, and its periods.

use crate::address::Address;
use crate::bond::{BondTier, IdentityBond};
use crate::contract::CredenceBond;
use crate::effect::{Effect, Event};
use crate::error::ContractError;
use crate::ledger::{Ledger, LedgerView};
use crate::rolling_bond;
use crate::tiered_bond::{self, tier_change_announced, tier_for_amount};
use vstd::prelude::*;

verus! {

/// The bond that a call of `create_bond_with_rolling` would create.
pub open spec fn new_bond(
    s: LedgerView,
    identity: Address,
    amount: i128,
    duration: u64,
    is_rolling: bool,
    notice_period_duration: u64,
) -> IdentityBond {
    IdentityBond {
        identity,
        bonded_amount: amount,
        bond_start: s.timestamp,
        bond_duration: duration,
        slashed_amount: 0,
        active: true,
        is_rolling,
        withdrawal_requested_at: 0,
        notice_period_duration,
    }
}

/// Why a bond cannot be created, if it cannot.
pub open spec fn create_bond_refusal(
    s: LedgerView,
    identity: Address,
    amount: i128,
    duration: u64,
) -> Option<ContractError> {
    if s.storage.paused {
        Some(ContractError::ContractPaused)
    } else if s.auth_refusal(identity) is Some {
        s.auth_refusal(identity)
    } else if amount <= 0 {
        Some(ContractError::BondAmountNotPositive)
    } else if s.timestamp + duration > u64::MAX {
        Some(ContractError::BondEndOverflow)
    } else {
        None
    }
}

/// The ledger after a bond has been created: the bond stands, its tier is announced if it is not
/// the lowest, and the bonded tokens are asked for.
pub open spec fn create_bond_accepted(s: LedgerView, bond: IdentityBond) -> LedgerView {
    tier_change_announced(
        s.with_bond(bond),
        bond.identity,
        BondTier::Bronze,
        tier_for_amount(s.rules.tiers, bond.bonded_amount),
    ).with_effect(Effect::PullTokens { from: bond.identity, amount: bond.bonded_amount })
}

/// Why `top_up` is refused, if it is.
pub open spec fn top_up_refusal(s: LedgerView, amount: i128) -> Option<ContractError> {
    if s.storage.paused {
        Some(ContractError::ContractPaused)
    } else {
        match s.storage.bond {
            None => Some(ContractError::BondNotFound),
            Some(bond) => if s.auth_refusal(bond.identity) is Some {
                s.auth_refusal(bond.identity)
            } else if amount <= 0 {
                Some(ContractError::TopUpAmountNotPositive)
            } else if bond.bonded_amount + amount > i128::MAX {
                Some(ContractError::TopUpOverflow)
            } else {
                None
            },
        }
    }
}

/// The bond after `top_up` has been accepted.
pub open spec fn topped_up(bond: IdentityBond, amount: i128) -> IdentityBond {
    IdentityBond { bonded_amount: (bond.bonded_amount + amount) as i128, ..bond }
}

/// The ledger after `top_up` has been accepted: more is bonded, and the tokens for it are asked
/// for.
pub open spec fn top_up_accepted(s: LedgerView, amount: i128) -> LedgerView {
    let bond = s.storage.bond->0;
    s.with_bond(topped_up(bond, amount)).with_effect(
        Effect::PullTokens { from: bond.identity, amount },
    )
}

/// Why `extend_duration` is refused, if it is.
pub open spec fn extend_duration_refusal(s: LedgerView, additional_duration: u64) -> Option<
    ContractError,
> {
    if s.storage.paused {
        Some(ContractError::ContractPaused)
    } else {
        match s.storage.bond {
            None => Some(ContractError::BondNotFound),
            Some(bond) => if bond.bond_duration + additional_duration > u64::MAX {
                Some(ContractError::DurationOverflow)
            } else if bond.bond_start + bond.bond_duration + additional_duration > u64::MAX {
                Some(ContractError::BondEndOverflow)
            } else {
                None
            },
        }
    }
}

/// The bond after `extend_duration` has been accepted.
pub open spec fn extended(bond: IdentityBond, additional_duration: u64) -> IdentityBond {
    IdentityBond { bond_duration: (bond.bond_duration + additional_duration) as u64, ..bond }
}

/// The ledger after `extend_duration` has been accepted.
pub open spec fn extend_duration_accepted(s: LedgerView, additional_duration: u64) -> LedgerView {
    s.with_bond(extended(s.storage.bond->0, additional_duration))
}

/// Why `request_withdrawal` is refused, if it is.
pub open spec fn request_withdrawal_refusal(s: LedgerView) -> Option<ContractError> {
    if s.storage.paused {
        Some(ContractError::ContractPaused)
    } else {
        match s.storage.bond {
            None => Some(ContractError::BondNotFound),
            Some(bond) => if !bond.is_rolling {
                Some(ContractError::NotRollingBond)
            } else if bond.withdrawal_requested_at != 0 {
                Some(ContractError::WithdrawalAlreadyRequested)
            } else {
                None
            },
        }
    }
}

/// The time that a withdrawal request is recorded with. A zero would say that there is none, so
/// at the clock's zero the instant after it is recorded.
pub open spec fn request_time(timestamp: u64) -> u64 {
    if timestamp == 0 {
        1
    } else {
        timestamp
    }
}

/// The bond after `request_withdrawal` has been accepted.
pub open spec fn withdrawal_requested(s: LedgerView) -> IdentityBond {
    IdentityBond { withdrawal_requested_at: request_time(s.timestamp), ..s.storage.bond->0 }
}

/// The ledger after `request_withdrawal` has been accepted.
pub open spec fn request_withdrawal_accepted(s: LedgerView) -> LedgerView {
    let bond = withdrawal_requested(s);
    s.with_bond(bond).with_event(
        Event::WithdrawalRequested {
            identity: bond.identity,
            requested_at: bond.withdrawal_requested_at,
        },
    )
}

/// Why a call that only needs a bond to be there is refused, if it is.
pub open spec fn bond_refusal(s: LedgerView) -> Option<ContractError> {
    if s.storage.paused {
        Some(ContractError::ContractPaused)
    } else if s.storage.bond is None {
        Some(ContractError::BondNotFound)
    } else {
        None
    }
}

/// Whether the bond is due for a new period.
pub open spec fn renewal_due(s: LedgerView) -> bool {
    let bond = s.storage.bond->0;
    bond.is_rolling && bond.withdrawal_requested_at == 0 && s.timestamp >= bond.period_end()
}

/// The bond after `renew_if_rolling` has been accepted.
pub open spec fn renewed(s: LedgerView) -> IdentityBond {
    if renewal_due(s) {
        IdentityBond { bond_start: s.timestamp, ..s.storage.bond->0 }
    } else {
        s.storage.bond->0
    }
}

/// The ledger after `renew_if_rolling` has been accepted.
pub open spec fn renew_if_rolling_accepted(s: LedgerView) -> LedgerView {
    let bond = renewed(s);
    if renewal_due(s) {
        s.with_bond(bond).with_event(
            Event::BondRenewed {
                identity: bond.identity,
                bond_start: bond.bond_start,
                bond_duration: bond.bond_duration,
            },
        )
    } else {
        s
    }
}

/// The bond and its periods.
impl CredenceBond {
    /// Create a bond that does not renew itself. Otherwise as `create_bond_with_rolling`.
    pub fn create_bond(e: &mut Ledger, identity: Address, amount: i128, duration: u64) -> (answer:
        Result<IdentityBond, ContractError>)
        ensures
            match create_bond_refusal(old(e)@, identity, amount, duration) {
                Some(refusal) => answer == Err::<IdentityBond, ContractError>(refusal) && final(e)@
                    == old(e)@,
                None => {
                    let bond = new_bond(old(e)@, identity, amount, duration, false, 0);
                    answer == Ok::<IdentityBond, ContractError>(bond) && final(e)@
                        == create_bond_accepted(old(e)@, bond)
                },
            },
    {
        Self::create_bond_with_rolling(e, identity, amount, duration, false, 0)
    }

    /// Create a bond and ask for the amount to be escrowed in this contract. Blocked while paused.
    /// Custody invariant: once `pull_tokens` has accepted the owner's allowance, the contract
    /// holds the newly bonded tokens; if it refuses, the whole call is undone.
    /// The caller must approve this contract to pull `amount` of the configured token.
    pub fn create_bond_with_rolling(
        e: &mut Ledger,
        identity: Address,
        amount: i128,
        duration: u64,
        is_rolling: bool,
        notice_period_duration: u64,
    ) -> (answer: Result<IdentityBond, ContractError>)
        ensures
            match create_bond_refusal(old(e)@, identity, amount, duration) {
                Some(refusal) => answer == Err::<IdentityBond, ContractError>(refusal) && final(e)@
                    == old(e)@,
                None => {
                    let bond = new_bond(
                        old(e)@,
                        identity,
                        amount,
                        duration,
                        is_rolling,
                        notice_period_duration,
                    );
                    answer == Ok::<IdentityBond, ContractError>(bond) && final(e)@
                        == create_bond_accepted(old(e)@, bond)
                },
            },
    {
        Self::require_not_paused(e)?;
        e.require_auth(identity)?;
        Self::require_positive_amount(amount, ContractError::BondAmountNotPositive)?;
        let bond_start: u64 = e.timestamp;
        if bond_start.checked_add(duration).is_none() {
            return Err(ContractError::BondEndOverflow);
        }
        let bond = IdentityBond {
            identity,
            bonded_amount: amount,
            bond_start,
            bond_duration: duration,
            slashed_amount: 0,
            active: true,
            is_rolling,
            withdrawal_requested_at: 0,
            notice_period_duration,
        };
        e.storage.bond = Some(bond);
        let tier = tiered_bond::get_tier_for_amount(&e.rules.tiers, amount);
        tiered_bond::emit_tier_change_if_needed(e, identity, BondTier::Bronze, tier);
        e.request(Effect::PullTokens { from: identity, amount });
        Ok(bond)
    }

    /// Return current bond state for an identity (simplified: single bond per contract instance).
    pub fn get_identity_state(e: &Ledger) -> (answer: Result<IdentityBond, ContractError>)
        ensures
            answer == (match e@.storage.bond {
                Some(bond) => Ok::<IdentityBond, ContractError>(bond),
                None => Err(ContractError::BondNotFound),
            }),
    {
        match e.storage.bond {
            Some(bond) => Ok(bond),
            None => Err(ContractError::BondNotFound),
        }
    }

    /// Get current tier for the bond's bonded amount.
    pub fn get_tier(e: &Ledger) -> (answer: Result<BondTier, ContractError>)
        ensures
            answer == (match e@.storage.bond {
                Some(bond) => Ok::<BondTier, ContractError>(
                    tier_for_amount(e@.rules.tiers, bond.bonded_amount),
                ),
                None => Err(ContractError::BondNotFound),
            }),
    {
        let bond = Self::get_identity_state(e)?;
        Ok(tiered_bond::get_tier_for_amount(&e.rules.tiers, bond.bonded_amount))
    }

    /// Top up the bond with additional escrowed custody. Blocked while paused.
    /// Custody invariant: the higher bonded amount stands only if `pull_tokens` then accepts the
    /// owner's allowance and the additional tokens are pulled in.
    pub fn top_up(e: &mut Ledger, amount: i128) -> (answer: Result<IdentityBond, ContractError>)
        ensures
            match top_up_refusal(old(e)@, amount) {
                Some(refusal) => answer == Err::<IdentityBond, ContractError>(refusal) && final(e)@
                    == old(e)@,
                None => answer == Ok::<IdentityBond, ContractError>(
                    topped_up(old(e)@.storage.bond->0, amount),
                ) && final(e)@ == top_up_accepted(old(e)@, amount),
            },
    {
        Self::require_not_paused(e)?;
        let mut bond = Self::get_identity_state(e)?;
        e.require_auth(bond.identity)?;
        Self::require_positive_amount(amount, ContractError::TopUpAmountNotPositive)?;
        bond.bonded_amount =
        match bond.bonded_amount.checked_add(amount) {
            Some(bonded_amount) => bonded_amount,
            None => return Err(ContractError::TopUpOverflow),
        };
        e.storage.bond = Some(bond);
        e.request(Effect::PullTokens { from: bond.identity, amount });
        Ok(bond)
    }

    /// Extend bond duration (checks for u64 overflow on timestamps). Blocked while paused.
    pub fn extend_duration(e: &mut Ledger, additional_duration: u64) -> (answer: Result<
        IdentityBond,
        ContractError,
    >)
        ensures
            match extend_duration_refusal(old(e)@, additional_duration) {
                Some(refusal) => answer == Err::<IdentityBond, ContractError>(refusal) && final(e)@
                    == old(e)@,
                None => answer == Ok::<IdentityBond, ContractError>(
                    extended(old(e)@.storage.bond->0, additional_duration),
                ) && final(e)@ == extend_duration_accepted(old(e)@, additional_duration),
            },
    {
        Self::require_not_paused(e)?;
        let mut bond = Self::get_identity_state(e)?;
        bond.bond_duration =
        match bond.bond_duration.checked_add(additional_duration) {
            Some(bond_duration) => bond_duration,
            None => return Err(ContractError::DurationOverflow),
        };
        if bond.bond_start.checked_add(bond.bond_duration).is_none() {
            return Err(ContractError::BondEndOverflow);
        }
        e.storage.bond = Some(bond);
        Ok(bond)
    }

    /// Request withdrawal (rolling bonds). Blocked while paused.
    /// Withdrawal allowed after notice period. The notice period is a date for the parties to keep,
    /// not a bar: the request stops the bond from renewing itself, and `withdraw` pays what is
    /// available before the notice period is over as well as after it.
    pub fn request_withdrawal(e: &mut Ledger) -> (answer: Result<IdentityBond, ContractError>)
        ensures
            match request_withdrawal_refusal(old(e)@) {
                Some(refusal) => answer == Err::<IdentityBond, ContractError>(refusal) && final(e)@
                    == old(e)@,
                None => answer == Ok::<IdentityBond, ContractError>(withdrawal_requested(old(e)@))
                    && final(e)@ == request_withdrawal_accepted(old(e)@),
            },
    {
        Self::require_not_paused(e)?;
        let mut bond = Self::get_identity_state(e)?;
        if !bond.is_rolling {
            return Err(ContractError::NotRollingBond);
        }
        if bond.withdrawal_requested_at != 0 {
            return Err(ContractError::WithdrawalAlreadyRequested);
        }
        bond.withdrawal_requested_at =
        if e.timestamp == 0 {
            1
        } else {
            e.timestamp
        };
        e.storage.bond = Some(bond);
        e.publish(
            Event::WithdrawalRequested {
                identity: bond.identity,
                requested_at: bond.withdrawal_requested_at,
            },
        );
        Ok(bond)
    }

    /// If bond is rolling, its period has ended and no withdrawal was requested, renew (new period
    /// start = now). Blocked while paused. Emits renewal event.
    pub fn renew_if_rolling(e: &mut Ledger) -> (answer: Result<IdentityBond, ContractError>)
        ensures
            match bond_refusal(old(e)@) {
                Some(refusal) => answer == Err::<IdentityBond, ContractError>(refusal) && final(e)@
                    == old(e)@,
                None => answer == Ok::<IdentityBond, ContractError>(renewed(old(e)@)) && final(e)@
                    == renew_if_rolling_accepted(old(e)@),
            },
    {
        Self::require_not_paused(e)?;
        let mut bond = Self::get_identity_state(e)?;
        if !bond.is_rolling || bond.withdrawal_requested_at != 0 {
            return Ok(bond);
        }
        let now: u64 = e.timestamp;
        if !rolling_bond::is_period_ended(now, bond.bond_start, bond.bond_duration) {
            return Ok(bond);
        }
        rolling_bond::apply_renewal(&mut bond, now);
        e.storage.bond = Some(bond);
        e.publish(
            Event::BondRenewed {
                identity: bond.identity,
                bond_start: bond.bond_start,
                bond_duration: bond.bond_duration,
            },
        );
        Ok(bond)
    }
}

} // verus!

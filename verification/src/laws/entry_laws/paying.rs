//! Tokens in and out of custody.

use crate::address::Address;
use crate::bond::IdentityBond;
use crate::contract::CredenceBond;
use crate::early_exit_penalty::early_exit_penalty;
use crate::effect::{Effect, Event};
use crate::error::ContractError;
use crate::laws::entry_laws::shapes::{leaves, payment, refused, tier_notice};
use crate::laws::measure_laws::{law_penalty_is_in_proportion, law_small_charges_are_computable};
use crate::ledger::{Ledger, StorageView};
use crate::tiered_bond::tier_for_amount;
use vstd::prelude::*;

verus! {

/// Tokens are pulled if there is a configured token and the allowance covers the amount: the
/// contract is to move them from their owner to itself. For no tokens nothing is asked. Nothing
/// stored changes.
pub proof fn law_pull_tokens(
    e: &mut Ledger,
    from: Address,
    amount: i128,
    allowance: i128,
    answer: Result<(), ContractError>,
)
    requires
        call_ensures(CredenceBond::pull_tokens, (e, from, amount, allowance), answer),
    ensures
        ({
            let s = old(e)@;
            let configured = amount == 0 || s.storage.token is Some;
            let allowed = configured && (amount == 0 || amount <= allowance);
            &&& refused(answer, ContractError::TokenNotConfigured) <==> !configured
            &&& refused(answer, ContractError::InsufficientAllowance) <==> configured && !allowed
            &&& answer is Ok <==> allowed
            &&& answer is Err || amount == 0 ==> final(e)@ == s
            &&& answer is Ok && amount != 0 ==> leaves(
                s,
                final(e)@,
                s.storage,
                seq![
                    Effect::TransferFrom {
                        token: s.storage.token->0,
                        spender: s.contract,
                        from,
                        to: s.contract,
                        amount,
                    },
                ],
            )
        }),
{
}

/// Any positive amount up to what is bonded and not slashed can be withdrawn with the owner's
/// authorization, at any time and whatever else the bond says. It lowers the bonded amount by
/// itself, is paid to the owner, and changes nothing else of the bond. The bond stored is the bond
/// returned.
pub proof fn law_withdraw(
    e: &mut Ledger,
    amount: i128,
    answer: Result<IdentityBond, ContractError>,
)
    requires
        call_ensures(CredenceBond::withdraw, (e, amount), answer),
    ensures
        ({
            let s = old(e)@;
            let before = s.storage.bond->0;
            let available = before.bonded_amount - before.slashed_amount;
            let open = !s.storage.paused;
            let bonded = open && s.storage.bond is Some;
            let authorized = bonded && s.auths.contains(before.identity);
            let positive = authorized && 0 < amount;
            let fitting = positive && i128::MIN <= available <= i128::MAX;
            let covered = fitting && amount <= available;
            let payable = covered && s.storage.token is Some;
            &&& refused(answer, ContractError::ContractPaused) <==> !open
            &&& refused(answer, ContractError::BondNotFound) <==> open && !bonded
            &&& bonded && !authorized ==> refused(
                answer,
                ContractError::NotAuthorized(before.identity),
            )
            &&& refused(answer, ContractError::WithdrawAmountNotPositive) <==> authorized
                && !positive
            &&& refused(answer, ContractError::SlashedExceedsBonded) <==> positive && !fitting
            &&& refused(answer, ContractError::InsufficientBalance) <==> fitting && !covered
            &&& refused(answer, ContractError::TokenNotConfigured) <==> covered && !payable
            &&& answer is Ok <==> payable
            &&& answer is Err ==> final(e)@ == s
            &&& answer matches Ok(bond) ==> {
                &&& before.bonded_amount - bond.bonded_amount == amount
                &&& bond == (IdentityBond { bonded_amount: bond.bonded_amount, ..before })
                &&& leaves(
                    s,
                    final(e)@,
                    StorageView { bond: Some(bond), ..s.storage },
                    payment(s, before.identity, amount as int),
                )
            }
        }),
{
}

/// Before the period ends, any positive amount up to what is bonded and not slashed can be
/// withdrawn early with the owner's authorization, if the penalty is configured, can be computed,
/// and is no more than the amount: the charge on the amount for the time left stays below that of
/// one token more than the amount.
///
/// It lowers the bonded amount by itself and changes nothing else of the bond, whatever else the
/// bond says. The penalty announced is the largest whole number that is no more than `penalty_bps`
/// ten-thousandths of the amount, for the share of the period that is left; the owner is paid the
/// amount less the penalty, and the treasury is paid the penalty.
pub proof fn law_withdraw_early(
    e: &mut Ledger,
    amount: i128,
    answer: Result<IdentityBond, ContractError>,
)
    requires
        call_ensures(CredenceBond::withdraw_early, (e, amount), answer),
    ensures
        ({
            let s = old(e)@;
            let before = s.storage.bond->0;
            let config = s.storage.early_exit->0;
            let available = before.bonded_amount - before.slashed_amount;
            let end = if before.bond_start + before.bond_duration > u64::MAX {
                u64::MAX as int
            } else {
                before.bond_start + before.bond_duration
            };
            let charge = amount * config.penalty_bps * (end - s.timestamp);
            let open = !s.storage.paused;
            let bonded = open && s.storage.bond is Some;
            let authorized = bonded && s.auths.contains(before.identity);
            let positive = authorized && 0 < amount;
            let fitting = positive && i128::MIN <= available <= i128::MAX;
            let covered = fitting && amount <= available;
            let early = covered && s.timestamp < end;
            let configured = early && s.storage.early_exit is Some;
            let computable = configured && (before.bond_duration == 0 || charge <= i128::MAX);
            let fair = computable && (before.bond_duration == 0 || charge < (amount + 1) * (10_000
                * before.bond_duration));
            let payable = fair && s.storage.token is Some;
            &&& refused(answer, ContractError::ContractPaused) <==> !open
            &&& refused(answer, ContractError::BondNotFound) <==> open && !bonded
            &&& bonded && !authorized ==> refused(
                answer,
                ContractError::NotAuthorized(before.identity),
            )
            &&& refused(answer, ContractError::WithdrawAmountNotPositive) <==> authorized
                && !positive
            &&& refused(answer, ContractError::SlashedExceedsBonded) <==> positive && !fitting
            &&& refused(answer, ContractError::InsufficientBalance) <==> fitting && !covered
            &&& refused(answer, ContractError::LockupEnded) <==> covered && !early
            &&& refused(answer, ContractError::EarlyExitNotConfigured) <==> early && !configured
            &&& refused(answer, ContractError::PenaltyOverflow) <==> configured && !computable
            &&& refused(answer, ContractError::PenaltyExceedsWithdrawal) <==> computable && !fair
            &&& refused(answer, ContractError::TokenNotConfigured) <==> fair && !payable
            &&& answer is Ok <==> payable
        }),
        answer is Err ==> final(e)@ == old(e)@,
        answer matches Ok(bond) ==> {
            let s = old(e)@;
            let before = s.storage.bond->0;
            let config = s.storage.early_exit->0;
            let end = if before.bond_start + before.bond_duration > u64::MAX {
                u64::MAX as int
            } else {
                before.bond_start + before.bond_duration
            };
            let charge = amount * config.penalty_bps * (end - s.timestamp);
            let p = final(e)@.effects[s.effects.len() as int]->Publish_0->penalty;
            &&& 0 <= p <= amount
            &&& before.bond_duration == 0 ==> p == 0
            &&& before.bond_duration > 0 ==> p * (10_000 * before.bond_duration) <= charge < (p + 1)
                * (10_000 * before.bond_duration)
            &&& before.bonded_amount - bond.bonded_amount == amount
            &&& bond == (IdentityBond { bonded_amount: bond.bonded_amount, ..before })
            &&& leaves(
                s,
                final(e)@,
                StorageView { bond: Some(bond), ..s.storage },
                seq![
                    Effect::Publish(
                        Event::EarlyExitPenalty {
                            identity: before.identity,
                            amount,
                            penalty: p,
                            treasury: config.treasury,
                        },
                    ),
                ] + tier_notice(
                    s,
                    before.identity,
                    tier_for_amount(s.rules.tiers, before.bonded_amount),
                    bond.bonded_amount,
                ) + payment(s, before.identity, amount - p) + payment(s, config.treasury, p as int),
            )
        },
{
    let s = old(e)@;
    let bond = s.storage.bond->0;
    let bps = s.storage.early_exit->0.penalty_bps as int;
    let remaining = bond.period_end() - s.timestamp;
    let duration = bond.bond_duration as int;
    if s.storage.bond is Some && 0 < amount && 0 < remaining {
        law_small_charges_are_computable(amount as int, remaining, duration, bps);
        law_penalty_is_in_proportion(amount as int, remaining, duration, bps);
        let p = early_exit_penalty(amount as int, remaining, duration, bps);
        let charge = amount * bps * remaining;
        let whole = 10_000 * duration;
        if duration > 0 {
            assert(p <= amount <==> charge < (amount + 1) * whole) by (nonlinear_arith)
                requires
                    p * whole <= charge < (p + 1) * whole,
                    0 < whole,
            ;
        }
    }
}

} // verus!

//! What holds of the bond: withdrawals, slashes, periods and tiers.

use crate::address::Address;
use crate::bond::{BondTier, IdentityBond};
use crate::contract::bonds::{
    bond_refusal, create_bond_accepted, create_bond_refusal, extend_duration_refusal, extended,
    new_bond, renew_if_rolling_accepted, renewed, request_withdrawal_accepted,
    request_withdrawal_refusal, top_up_refusal, topped_up,
};
use crate::contract::custody::{
    reduced, withdraw_accepted, withdraw_early_refusal, withdraw_refusal,
};
use crate::contract::guard::{closed_bond, with_lock, withdraw_bond_accepted, withdraw_bond_refusal};
use crate::contract::slashing::{
    capped_slash, slash_accepted, slash_bond_refusal, slash_refusal, slashed,
};
use crate::early_exit_penalty::{law_penalty_is_within_amount, BPS_DENOMINATOR};
use crate::effect::{Effect, Event};
use crate::error::ContractError;
use crate::laws::soundness::bond_sound;
use crate::ledger::LedgerView;
use crate::tiered_bond::tier_for_amount;
use vstd::prelude::*;

verus! {

/// With a penalty of at most the whole, and a clock that is not behind the bond's start, an early
/// withdrawal is never refused because of the penalty's size.
pub proof fn law_fair_penalty_never_exceeds_withdrawal(s: LedgerView, amount: i128)
    requires
        s.storage.bond matches Some(bond) && bond.bond_start <= s.timestamp,
        s.storage.early_exit matches Some(config) && config.penalty_bps <= BPS_DENOMINATOR,
    ensures
        withdraw_early_refusal(s, amount) != Some(ContractError::PenaltyExceedsWithdrawal),
{
    let bond = s.storage.bond->0;
    if amount > 0 && s.timestamp < bond.period_end() {
        law_penalty_is_within_amount(
            amount as int,
            bond.period_end() - s.timestamp,
            bond.bond_duration as int,
            s.storage.early_exit->0.penalty_bps as int,
        );
    }
}

/// More than what is bonded and not slashed can never be withdrawn, early or not, and a withdrawal
/// leaves the slashed part covered.
pub proof fn law_slashed_tokens_cannot_be_withdrawn(s: LedgerView, amount: i128)
    requires
        s.storage.bond is Some,
    ensures
        amount > s.storage.bond->0.available() ==> {
            &&& withdraw_refusal(s, amount) is Some
            &&& withdraw_early_refusal(s, amount) is Some
        },
        withdraw_refusal(s, amount) is None || withdraw_early_refusal(s, amount) is None ==> reduced(
            s.storage.bond->0,
            amount,
        ).slashed_amount <= reduced(s.storage.bond->0, amount).bonded_amount,
{
}

/// What is bonded, and not slashed, can be withdrawn to the last token by an owner who has
/// authorized it, in part or at once. It makes no difference whether the bond is rolling, whether
/// and when a withdrawal was requested, and how long the notice period is.
pub proof fn law_available_amount_can_be_withdrawn(s: LedgerView, amount: i128)
    requires
        bond_sound(s.storage),
        !s.storage.paused,
        s.storage.token is Some,
        s.storage.bond matches Some(bond) && s.auths.contains(bond.identity) && 0 < amount
            <= bond.available(),
    ensures
        withdraw_refusal(s, amount) is None,
{
}

/// Two withdrawals do to the bond what one of their sum does.
pub proof fn law_withdrawals_add_up(s: LedgerView, first: i128, second: i128)
    requires
        withdraw_refusal(s, first) is None,
        withdraw_refusal(withdraw_accepted(s, first), second) is None,
    ensures
        first + second <= s.storage.bond->0.available(),
        withdraw_accepted(withdraw_accepted(s, first), second).storage.bond == Some(
            reduced(s.storage.bond->0, (first + second) as i128),
        ),
{
}

/// To top a bond up and to withdraw as much again leaves the bond as it was.
pub proof fn law_withdrawing_undoes_topping_up(s: LedgerView, amount: i128)
    requires
        top_up_refusal(s, amount) is None,
    ensures
        reduced(topped_up(s.storage.bond->0, amount), amount) == s.storage.bond->0,
{
}

/// Early withdrawal is for the time before the lock-up ends, and only for it.
pub proof fn law_early_withdrawal_ends_with_the_lock_up(s: LedgerView, amount: i128)
    requires
        s.storage.bond matches Some(bond) && s.timestamp >= bond.period_end(),
    ensures
        withdraw_early_refusal(s, amount) is Some,
        withdraw_refusal(s, amount) is None ==> withdraw_early_refusal(s, amount) == Some(
            ContractError::LockupEnded,
        ),
{
}

/// A slash takes its amount from what can be withdrawn, leaves the bonded amount alone, and never
/// takes more than there is.
pub proof fn law_slash_reduces_what_can_be_withdrawn(s: LedgerView, admin: Address, amount: i128)
    requires
        bond_sound(s.storage),
        slash_bond_refusal(s, admin, amount) is None,
    ensures
        ({
            let before = s.storage.bond->0;
            let after = slash_accepted(s, amount).storage.bond->0;
            &&& after.available() == before.available() - amount
            &&& 0 <= after.available()
            &&& after.bonded_amount == before.bonded_amount
            &&& after.slashed_amount == before.slashed_amount + amount
        }),
{
}

/// Slashing with a cap does what slashing without one does wherever the latter is accepted, and
/// where the latter would take too much it takes all that is left.
pub proof fn law_capped_slash_takes_at_most_all(s: LedgerView, admin: Address, amount: i128)
    requires
        bond_sound(s.storage),
        slash_refusal(s, admin, amount) is None,
    ensures
        ({
            let bond = s.storage.bond->0;
            let after = slashed(bond, capped_slash(bond, amount));
            &&& slash_bond_refusal(s, admin, amount) is None ==> slash_accepted(s, amount)
                == slash_accepted(s, capped_slash(bond, amount))
            &&& slash_bond_refusal(s, admin, amount) is Some ==> after.slashed_amount
                == bond.bonded_amount
            &&& bond.slashed_amount <= after.slashed_amount <= bond.bonded_amount
        }),
{
}

/// A bond that has been withdrawn as a whole, and paid out, is closed: as it stands it pays nothing
/// more, even once the lock is free again, and it can be neither slashed nor withdrawn as a whole
/// again.
pub proof fn law_closed_bond_pays_nothing(
    s: LedgerView,
    identity: Address,
    admin: Address,
    amount: i128,
)
    requires
        bond_sound(s.storage),
        withdraw_bond_refusal(s, identity) is None,
    ensures
        ({
            let closed = with_lock(withdraw_bond_accepted(s), false);
            &&& 0 <= s.storage.bond->0.available()
            &&& closed.storage.bond == Some(closed_bond(s.storage.bond->0))
            &&& withdraw_bond_refusal(closed, identity) is Some
            &&& slash_bond_refusal(closed, admin, amount) is Some
            &&& slash_refusal(closed, admin, amount) is Some
            &&& withdraw_refusal(closed, amount) is Some
            &&& withdraw_early_refusal(closed, amount) is Some
        }),
{
}

/// A withdrawal can be requested once per bond: after a request, at whatever time, another one is
/// refused.
pub proof fn law_withdrawal_is_requested_once(s: LedgerView, timestamp: u64)
    requires
        request_withdrawal_refusal(s) is None,
    ensures
        request_withdrawal_refusal(
            LedgerView { timestamp, ..request_withdrawal_accepted(s) },
        ) == Some(ContractError::WithdrawalAlreadyRequested),
{
}

/// A bond whose withdrawal has been requested does not renew itself, however late it gets; neither
/// does one that is not rolling.
pub proof fn law_requested_bond_does_not_renew(s: LedgerView)
    requires
        bond_refusal(s) is None,
        s.storage.bond->0.withdrawal_requested_at != 0 || !s.storage.bond->0.is_rolling,
    ensures
        renewed(s) == s.storage.bond->0,
        renew_if_rolling_accepted(s) == s,
{
}

/// A rolling bond without a request renews itself exactly when its period is over: the new period
/// begins now and lasts as long as the old one. Unless it has no length, or the clock is at its
/// end, it is not over at once.
pub proof fn law_rolling_bond_renews_at_period_end(s: LedgerView)
    requires
        bond_refusal(s) is None,
        s.storage.bond->0.is_rolling,
        s.storage.bond->0.withdrawal_requested_at == 0,
    ensures
        s.timestamp >= s.storage.bond->0.period_end() ==> renewed(s) == (IdentityBond {
            bond_start: s.timestamp,
            ..s.storage.bond->0
        }),
        s.timestamp < s.storage.bond->0.period_end() ==> renew_if_rolling_accepted(s) == s,
        s.storage.bond->0.bond_duration > 0 && s.timestamp < u64::MAX ==> {
            &&& renewed(s).period_end() > s.timestamp
            &&& renew_if_rolling_accepted(renew_if_rolling_accepted(s))
                == renew_if_rolling_accepted(s)
        },
{
}

/// The period of a bond that has just been created or extended ends within the reach of the clock.
pub proof fn law_period_end_fits_the_clock(
    s: LedgerView,
    identity: Address,
    amount: i128,
    duration: u64,
    rolling: bool,
    notice: u64,
    additional_duration: u64,
)
    ensures
        create_bond_refusal(s, identity, amount, duration) is None ==> new_bond(
            s,
            identity,
            amount,
            duration,
            rolling,
            notice,
        ).period_end() == s.timestamp + duration,
        extend_duration_refusal(s, additional_duration) is None ==> extended(
            s.storage.bond->0,
            additional_duration,
        ).period_end() == s.storage.bond->0.period_end() + additional_duration,
{
}

/// Two extensions do what one of their sum does.
pub proof fn law_extensions_add_up(s: LedgerView, first: u64, second: u64)
    requires
        extend_duration_refusal(s, first) is None,
        extend_duration_refusal(s.with_bond(extended(s.storage.bond->0, first)), second) is None,
    ensures
        extend_duration_refusal(s, (first + second) as u64) is None,
        extended(extended(s.storage.bond->0, first), second) == extended(
            s.storage.bond->0,
            (first + second) as u64,
        ),
{
}

/// A new bond announces its tier exactly when that is not the lowest.
pub proof fn law_new_tier_is_announced(s: LedgerView, bond: IdentityBond)
    ensures
        ({
            let tier = tier_for_amount(s.rules.tiers, bond.bonded_amount);
            let created = create_bond_accepted(s, bond);
            let announcement = Effect::<Seq<u8>>::Publish(
                Event::TierChanged {
                    identity: bond.identity,
                    old_tier: BondTier::Bronze,
                    new_tier: tier,
                },
            );
            let pull = Effect::<Seq<u8>>::PullTokens {
                from: bond.identity,
                amount: bond.bonded_amount,
            };
            &&& tier == BondTier::Bronze ==> created.effects == s.effects.push(pull)
            &&& tier != BondTier::Bronze ==> created.effects == s.effects.push(announcement).push(
                pull,
            )
        }),
{
}

} // verus!

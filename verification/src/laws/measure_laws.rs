//! What the contract's figures mean, in plain arithmetic: what a slot reads as, what is available,
//! when a period ends, which tier an amount earns, what a stake weighs and what leaving early
//! costs.

use crate::address::Address;
use crate::bond::{BondTier, IdentityBond};
use crate::early_exit_penalty::{early_exit_penalty, penalty_computable, BPS_DENOMINATOR};
use crate::error::ContractError;
use crate::ledger::{LedgerView, StorageView, TierThresholds, WeightConfig};
use crate::tiered_bond::tier_for_amount;
use crate::types::AttestationView;
use crate::weighted_attestation::{weight_of, weight_of_stake};
use vstd::prelude::*;

verus! {

/// A slot reads as what was last stored in it, and as nothing where nothing was: no nonce used, no
/// stake, no attestations, not an attester.
pub proof fn law_unset_slots_read_as_nothing(storage: StorageView, who: Address)
    ensures
        storage.nonces.contains_key(who) ==> storage.nonce_of(who) == storage.nonces[who],
        !storage.nonces.contains_key(who) ==> storage.nonce_of(who) == 0,
        storage.attester_stakes.contains_key(who) ==> storage.stake_of(who)
            == storage.attester_stakes[who],
        !storage.attester_stakes.contains_key(who) ==> storage.stake_of(who) == 0,
        storage.subject_attestations.contains_key(who) ==> storage.ids_of(who)
            == storage.subject_attestations[who],
        !storage.subject_attestations.contains_key(who) ==> storage.ids_of(who).len() == 0,
        storage.subject_attestation_counts.contains_key(who) ==> storage.count_of(who)
            == storage.subject_attestation_counts[who],
        !storage.subject_attestation_counts.contains_key(who) ==> storage.count_of(who) == 0,
        storage.is_attester(who) <==> storage.attesters.contains_key(who)
            && storage.attesters[who],
{
}

/// What is available and what has been slashed make up what is bonded. A period lasts from its
/// start for its duration, or until the clock ends.
pub proof fn law_bond_measures(bond: IdentityBond)
    ensures
        bond.available() + bond.slashed_amount == bond.bonded_amount,
        bond.bond_start + bond.bond_duration <= u64::MAX ==> bond.period_end() - bond.bond_start
            == bond.bond_duration,
        bond.bond_start + bond.bond_duration > u64::MAX ==> bond.period_end() == u64::MAX,
{
}

/// An address has authorized a call exactly if it is among those that have. The admin has, if it is
/// the stored one and has authorized the call; the first of these that fails is the reason given.
pub proof fn law_authority_checks(s: LedgerView, who: Address)
    ensures
        s.auth_refusal(who) is None <==> s.auths.contains(who),
        !s.auths.contains(who) ==> s.auth_refusal(who) == Some(ContractError::NotAuthorized(who)),
        s.admin_refusal(who) == Some(ContractError::NotInitialized) <==> s.storage.admin is None,
        s.admin_refusal(who) == Some(ContractError::NotAdmin) <==> s.storage.admin is Some
            && s.storage.admin != Some(who),
        s.storage.admin == Some(who) && !s.auths.contains(who) ==> s.admin_refusal(who) == Some(
            ContractError::NotAuthorized(who),
        ),
        s.admin_refusal(who) is None <==> s.storage.admin == Some(who) && s.auths.contains(who),
{
}

/// An amount earns the highest tier whose threshold it reaches, and the lowest one if it reaches
/// none.
pub proof fn law_tier_is_the_highest_reached(tiers: TierThresholds, amount: i128)
    ensures
        ({
            let tier = tier_for_amount(tiers, amount);
            &&& tier == BondTier::Platinum <==> tiers.platinum <= amount
            &&& tier == BondTier::Gold <==> tiers.gold <= amount < tiers.platinum
            &&& tier == BondTier::Silver <==> tiers.silver <= amount && amount < tiers.gold && amount
                < tiers.platinum
            &&& tier == BondTier::Bronze <==> amount < tiers.silver && amount < tiers.gold && amount
                < tiers.platinum
        }),
{
}

/// The quotient of a division is the largest number whose product with the divisor does not exceed
/// the dividend.
proof fn lemma_quotient(dividend: int, divisor: int)
    requires
        0 < divisor,
    ensures
        (dividend / divisor) * divisor <= dividend < (dividend / divisor + 1) * divisor,
{
    vstd::arithmetic::div_mod::lemma_fundamental_div_mod(dividend, divisor);
    vstd::arithmetic::div_mod::lemma_mod_bound(dividend, divisor);
    let q = dividend / divisor;
    assert(q * divisor <= dividend < (q + 1) * divisor) by (nonlinear_arith)
        requires
            dividend == divisor * q + dividend % divisor,
            0 <= dividend % divisor < divisor,
    ;
}

/// A stake weighs the largest whole number, up to the configured maximum, that is no more than
/// `multiplier_bps` ten-thousandths of it; a stake below zero weighs nothing.
pub proof fn law_weight_is_the_share_of_the_stake(stake: int, config: WeightConfig)
    ensures
        ({
            let w = weight_of_stake(stake, config);
            &&& stake < 0 ==> w == 0
            &&& stake >= 0 ==> {
                &&& 0 <= w <= config.max_weight
                &&& w * 10_000 <= stake * config.multiplier_bps
                &&& w == config.max_weight || stake * config.multiplier_bps < (w + 1) * 10_000
            }
        }),
{
    reveal(weight_of_stake);
    let counted: int = if stake < 0 {
        0
    } else {
        stake
    };
    let product = counted * config.multiplier_bps;
    assert(0 <= product) by (nonlinear_arith)
        requires
            product == counted * config.multiplier_bps,
            0 <= counted,
            0 <= config.multiplier_bps,
    ;
    assert(stake < 0 ==> product == 0) by (nonlinear_arith)
        requires
            product == counted * config.multiplier_bps,
            stake < 0 ==> counted == 0,
    ;
    lemma_quotient(product, 10_000);
}

/// An attester's attestations weigh the share of its own stake that the configuration in force
/// says: the one that the admin has set or, until then, the one of the deployment.
pub proof fn law_attesters_weigh_their_own_stake(s: LedgerView, attester: Address)
    ensures
        ({
            let config = match s.storage.weight_config {
                Some(set) => set,
                None => s.rules.default_weight_config,
            };
            let stake = s.storage.stake_of(attester);
            let w = weight_of(s, attester);
            &&& s.weight_config() == config
            &&& stake < 0 ==> w == 0
            &&& stake >= 0 ==> {
                &&& 0 <= w <= config.max_weight
                &&& w * 10_000 <= stake * config.multiplier_bps
                &&& w == config.max_weight || stake * config.multiplier_bps < (w + 1) * 10_000
            }
        }),
{
    law_weight_is_the_share_of_the_stake(
        s.storage.stake_of(attester) as int,
        s.weight_config(),
    );
}

/// The penalty is the largest whole number that is no more than `penalty_bps` ten-thousandths of
/// the amount, for the share of the period that is left. A bond without a period has none.
pub proof fn law_penalty_is_in_proportion(
    amount: int,
    remaining: int,
    duration: int,
    penalty_bps: int,
)
    requires
        0 <= amount,
        0 <= remaining,
        0 <= duration,
        0 <= penalty_bps,
    ensures
        ({
            let p = early_exit_penalty(amount, remaining, duration, penalty_bps);
            &&& 0 <= p
            &&& duration == 0 ==> p == 0
            &&& duration > 0 ==> p * (10_000 * duration) <= amount * penalty_bps * remaining < (p
                + 1) * (10_000 * duration)
        }),
{
    crate::early_exit_penalty::lemma_penalty_is_not_negative(
        amount,
        remaining,
        duration,
        penalty_bps,
    );
    reveal(early_exit_penalty);
    if duration > 0 {
        lemma_quotient(amount * penalty_bps * remaining, BPS_DENOMINATOR * duration);
    }
}

/// A penalty is too large to compute only if the charge on the amount for the time left, before it
/// is divided, is beyond the type of amounts.
pub proof fn law_small_charges_are_computable(
    amount: int,
    remaining: int,
    duration: int,
    penalty_bps: int,
)
    ensures
        penalty_computable(amount, remaining, duration, penalty_bps) <==> duration == 0 || amount
            * penalty_bps * remaining <= i128::MAX,
{
    reveal(penalty_computable);
}

/// Two attestations share a deduplication key exactly if they have the same verifier, identity and
/// data. To take one back changes nothing but that it is revoked.
pub proof fn law_attestation_keys(a: AttestationView, b: AttestationView)
    ensures
        a.dedup_key() == b.dedup_key() <==> a.verifier == b.verifier && a.identity == b.identity
            && a.attestation_data == b.attestation_data,
        a.dedup_key().verifier == a.verifier,
        a.dedup_key().identity == a.identity,
        a.dedup_key().attestation_data == a.attestation_data,
        a.revoke().revoked,
        a.revoke() == (AttestationView { revoked: true, ..a }),
{
}

} // verus!

//! The weight that an attester's stake lends to an attestation.

use crate::address::Address;
use crate::early_exit_penalty::BPS_DENOMINATOR;
use crate::ledger::{Ledger, LedgerView, StorageView, WeightConfig};
use vstd::prelude::*;

verus! {

/// The configured share of a stake, rounded down and capped. A stake below zero counts as none.
#[verifier::opaque]
pub open spec fn weight_of_stake(stake: int, config: WeightConfig) -> int {
    let counted: int = if stake < 0 {
        0
    } else {
        stake
    };
    let share = (counted * config.multiplier_bps) / (BPS_DENOMINATOR as int);
    if share > config.max_weight {
        config.max_weight as int
    } else {
        share
    }
}

/// The weight that an attester's stake gives an attestation now.
pub open spec fn weight_of(s: LedgerView, attester: Address) -> int {
    weight_of_stake(s.storage.stake_of(attester) as int, s.weight_config())
}

/// The stake of an attester.
fn get_attester_stake(e: &Ledger, attester: &Address) -> (stake: i128)
    ensures
        stake == e@.storage.stake_of(*attester),
{
    match e.storage.attester_stakes.get(attester) {
        Some(stake) => *stake,
        None => 0,
    }
}

/// Stores the stake of an attester.
pub fn set_attester_stake(e: &mut Ledger, attester: &Address, amount: i128)
    ensures
        final(e)@ == old(e)@.with_storage(
            (StorageView {
                attester_stakes: old(e)@.storage.attester_stakes.insert(*attester, amount),
                ..old(e)@.storage
            }),
        ),
{
    e.storage.attester_stakes.set(*attester, amount);
}

/// Stores how stakes turn into weights.
pub fn set_weight_config(e: &mut Ledger, multiplier_bps: u32, max_weight: u32)
    ensures
        final(e)@ == old(e)@.with_storage(
            (StorageView {
                weight_config: Some(WeightConfig { multiplier_bps, max_weight }),
                ..old(e)@.storage
            }),
        ),
{
    e.storage.weight_config = Some(WeightConfig { multiplier_bps, max_weight });
}

/// How stakes turn into weights: the multiplier in basis points and the highest weight.
pub fn get_weight_config(e: &Ledger) -> (config: (u32, u32))
    ensures
        config.0 == e@.weight_config().multiplier_bps,
        config.1 == e@.weight_config().max_weight,
{
    match e.storage.weight_config {
        Some(config) => (config.multiplier_bps, config.max_weight),
        None => (
            e.rules.default_weight_config.multiplier_bps,
            e.rules.default_weight_config.max_weight,
        ),
    }
}

/// The weight that an attester's stake gives an attestation now.
pub fn compute_weight(e: &Ledger, attester: &Address) -> (weight: u32)
    ensures
        weight == weight_of(e@, *attester),
{
    proof {
        reveal(weight_of_stake);
    }
    let stake: i128 = get_attester_stake(e, attester);
    let (multiplier_bps, max_weight) = get_weight_config(e);
    let denominator: i128 = BPS_DENOMINATOR as i128;
    if stake <= 0 || multiplier_bps == 0 {
        proof {
            let counted: int = if stake < 0 {
                0
            } else {
                stake as int
            };
            assert(counted * multiplier_bps == 0) by (nonlinear_arith)
                requires
                    counted == 0 || multiplier_bps == 0,
            ;
        }
        return 0;
    }
    // From this stake on, even one basis point is more than any weight.
    let saturating: i128 = denominator * 0x1_0000_0000;
    if stake >= saturating {
        proof {
            assert(stake * multiplier_bps >= saturating) by (nonlinear_arith)
                requires
                    stake >= saturating,
                    saturating >= 0,
                    multiplier_bps >= 1,
            ;
        }
        return max_weight;
    }
    proof {
        assert(0 <= stake * multiplier_bps <= saturating * 0x1_0000_0000) by (nonlinear_arith)
            requires
                0 <= stake <= saturating,
                0 <= multiplier_bps <= 0x1_0000_0000,
        ;
    }
    let share: i128 = stake * multiplier_bps as i128 / denominator;
    if share > max_weight as i128 {
        max_weight
    } else {
        share as u32
    }
}

/// No stake is worth more than the configuration allows, and none is worth less than nothing.
pub proof fn law_weight_is_bounded(stake: int, config: WeightConfig)
    ensures
        0 <= weight_of_stake(stake, config) <= config.max_weight,
{
    reveal(weight_of_stake);
    let counted: int = if stake < 0 {
        0
    } else {
        stake
    };
    assert(0 <= counted * config.multiplier_bps) by (nonlinear_arith)
        requires
            0 <= counted,
            0 <= config.multiplier_bps,
    ;
}

/// A larger stake never weighs less.
pub proof fn law_weight_is_monotone(smaller: int, larger: int, config: WeightConfig)
    requires
        smaller <= larger,
    ensures
        weight_of_stake(smaller, config) <= weight_of_stake(larger, config),
{
    reveal(weight_of_stake);
    let a: int = if smaller < 0 {
        0
    } else {
        smaller
    };
    let b: int = if larger < 0 {
        0
    } else {
        larger
    };
    let m: int = config.multiplier_bps as int;
    assert(a * m <= b * m) by (nonlinear_arith)
        requires
            a <= b,
            0 <= m,
    ;
}

} // verus!

//! The tier that a bonded amount earns.

use crate::address::Address;
use crate::bond::BondTier;
use crate::effect::Event;
use crate::ledger::{Ledger, LedgerView, TierThresholds};
use vstd::prelude::*;

verus! {

/// The highest tier whose threshold the amount reaches.
pub open spec fn tier_for_amount(tiers: TierThresholds, amount: i128) -> BondTier {
    if amount >= tiers.platinum {
        BondTier::Platinum
    } else if amount >= tiers.gold {
        BondTier::Gold
    } else if amount >= tiers.silver {
        BondTier::Silver
    } else {
        BondTier::Bronze
    }
}

/// The ledger after a change of tier has been announced, where there is one.
pub open spec fn tier_change_announced(
    s: LedgerView,
    identity: Address,
    old_tier: BondTier,
    new_tier: BondTier,
) -> LedgerView {
    if old_tier == new_tier {
        s
    } else {
        s.with_event(Event::TierChanged { identity, old_tier, new_tier })
    }
}

/// The highest tier whose threshold the amount reaches.
pub fn get_tier_for_amount(tiers: &TierThresholds, amount: i128) -> (tier: BondTier)
    ensures
        tier == tier_for_amount(*tiers, amount),
{
    if amount >= tiers.platinum {
        BondTier::Platinum
    } else if amount >= tiers.gold {
        BondTier::Gold
    } else if amount >= tiers.silver {
        BondTier::Silver
    } else {
        BondTier::Bronze
    }
}

/// Announces a change of tier, where there is one.
pub fn emit_tier_change_if_needed(
    e: &mut Ledger,
    identity: Address,
    old_tier: BondTier,
    new_tier: BondTier,
)
    ensures
        final(e)@ == tier_change_announced(old(e)@, identity, old_tier, new_tier),
{
    if old_tier != new_tier {
        e.publish(Event::TierChanged { identity, old_tier, new_tier });
    }
}

/// A larger bond never ranks lower.
pub proof fn law_tier_is_monotone(tiers: TierThresholds, smaller: i128, larger: i128)
    requires
        smaller <= larger,
    ensures
        tier_for_amount(tiers, smaller).rank() <= tier_for_amount(tiers, larger).rank(),
{
}

} // verus!

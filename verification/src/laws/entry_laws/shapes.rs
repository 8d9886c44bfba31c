//! The shapes that answers and ledgers take.

use crate::address::Address;
use crate::bond::BondTier;
use crate::effect::{Effect, Event, Hook};
use crate::error::ContractError;
use crate::ledger::{LedgerView, StorageView};
use crate::tiered_bond::tier_for_amount;
use vstd::prelude::*;

verus! {

/// Whether a call has been refused for a reason.
pub open spec fn refused<T>(answer: Result<T, ContractError>, reason: ContractError) -> bool {
    answer == Err::<T, ContractError>(reason)
}

/// Whether a call has left the given storage, and has asked for the given things and for nothing
/// else.
pub open spec fn leaves(
    s: LedgerView,
    later: LedgerView,
    storage: StorageView,
    asked: Seq<Effect<Seq<u8>>>,
) -> bool {
    &&& later.storage =~= storage
    &&& later.effects =~= s.effects + asked
    &&& later.contract == s.contract
    &&& later.timestamp == s.timestamp
    &&& later.auths == s.auths
    &&& later.rules == s.rules
}

/// The payment of an amount, if there is any.
pub open spec fn payment(s: LedgerView, to: Address, amount: int) -> Seq<Effect<Seq<u8>>> {
    if amount == 0 {
        seq![]
    } else {
        seq![
            Effect::Transfer {
                token: s.storage.token->0,
                from: s.contract,
                to,
                amount: amount as i128,
            },
        ]
    }
}

/// The notice that a bond has moved from a tier to the one of an amount, if that is another.
pub open spec fn tier_notice(
    s: LedgerView,
    identity: Address,
    old_tier: BondTier,
    new_amount: i128,
) -> Seq<Effect<Seq<u8>>> {
    let new_tier = tier_for_amount(s.rules.tiers, new_amount);
    if new_tier == old_tier {
        seq![]
    } else {
        seq![Effect::Publish(Event::TierChanged { identity, old_tier, new_tier })]
    }
}

/// How a guarded call ends: the callback, if there is one, is told, and the lock is freed after it
/// and after any payment.
pub open spec fn guarded_end(s: LedgerView, hook: Hook, amount: i128, paying: bool) -> Seq<
    Effect<Seq<u8>>,
> {
    match s.storage.callback {
        Some(callback) => seq![
            Effect::InvokeCallback { callback, hook, amount },
            Effect::ReleaseLock,
        ],
        None => if paying {
            seq![Effect::ReleaseLock]
        } else {
            seq![]
        },
    }
}

} // verus!

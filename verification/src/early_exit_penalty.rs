//! The penalty for taking tokens out before the lock-up ends.

use crate::address::Address;
use crate::effect::Event;
use crate::error::ContractError;
use crate::ledger::{EarlyExitConfig, Ledger, LedgerView, StorageView};
use vstd::prelude::*;

verus! {

/// A whole, in basis points.
pub const BPS_DENOMINATOR: u32 = 10_000;

/// The penalty on `amount`: `penalty_bps` of it, reduced to the share of the period that is left,
/// rounded down. There is none on a bond without a period.
#[verifier::opaque]
pub open spec fn early_exit_penalty(
    amount: int,
    remaining: int,
    duration: int,
    penalty_bps: int,
) -> int {
    if duration == 0 {
        0
    } else {
        (amount * penalty_bps * remaining) / (BPS_DENOMINATOR * duration)
    }
}

/// Whether the penalty can be computed in the type of amounts.
#[verifier::opaque]
pub open spec fn penalty_computable(
    amount: int,
    remaining: int,
    duration: int,
    penalty_bps: int,
) -> bool {
    duration == 0 || amount * penalty_bps * remaining <= i128::MAX
}

/// Stores where penalties go and how high they are.
pub fn set_config(e: &mut Ledger, treasury: Address, penalty_bps: u32)
    ensures
        final(e)@ == old(e)@.with_storage(
            (StorageView {
                early_exit: Some(EarlyExitConfig { treasury, penalty_bps }),
                ..old(e)@.storage
            }),
        ),
{
    e.storage.early_exit = Some(EarlyExitConfig { treasury, penalty_bps });
}

/// Where penalties go and how high they are.
pub fn get_config(e: &Ledger) -> (config: Result<EarlyExitConfig, ContractError>)
    ensures
        config == (match e@.storage.early_exit {
            Some(stored) => Ok::<EarlyExitConfig, ContractError>(stored),
            None => Err(ContractError::EarlyExitNotConfigured),
        }),
{
    match e.storage.early_exit {
        Some(stored) => Ok(stored),
        None => Err(ContractError::EarlyExitNotConfigured),
    }
}

/// The penalty on a withdrawal of `amount` with `remaining` of `duration` left.
pub fn calculate_penalty(amount: i128, remaining: u64, duration: u64, penalty_bps: u32) -> (penalty:
    Result<i128, ContractError>)
    requires
        0 <= amount,
    ensures
        penalty == (if penalty_computable(
            amount as int,
            remaining as int,
            duration as int,
            penalty_bps as int,
        ) {
            Ok::<i128, ContractError>(
                early_exit_penalty(
                    amount as int,
                    remaining as int,
                    duration as int,
                    penalty_bps as int,
                ) as i128,
            )
        } else {
            Err(ContractError::PenaltyOverflow)
        }),
        penalty matches Ok(p) ==> p == early_exit_penalty(
            amount as int,
            remaining as int,
            duration as int,
            penalty_bps as int,
        ),
{
    proof {
        reveal(early_exit_penalty);
        reveal(penalty_computable);
    }
    if duration == 0 {
        return Ok(0);
    }
    let ghost product = amount * penalty_bps * remaining;
    assert(0 < BPS_DENOMINATOR * duration <= 10_000 * u64::MAX) by (nonlinear_arith)
        requires
            BPS_DENOMINATOR == 10_000,
            0 < duration <= u64::MAX,
    ;
    let denominator: i128 = BPS_DENOMINATOR as i128 * duration as i128;
    if remaining == 0 {
        proof {
            assert(product == 0) by (nonlinear_arith)
                requires
                    product == amount * penalty_bps * remaining,
                    remaining == 0,
            ;
            assert(0int / (denominator as int) == 0) by (nonlinear_arith)
                requires
                    denominator > 0,
            ;
        }
        return Ok(0);
    }
    proof {
        assert(0 <= amount * penalty_bps <= product) by (nonlinear_arith)
            requires
                product == amount * penalty_bps * remaining,
                0 <= amount,
                0 <= penalty_bps,
                1 <= remaining,
        ;
        assert(0 <= product / (denominator as int) <= product) by (nonlinear_arith)
            requires
                0 <= product,
                1 <= denominator,
        ;
    }
    match amount.checked_mul(penalty_bps as i128) {
        Some(charged) => match charged.checked_mul(remaining as i128) {
            Some(scaled) => Ok(scaled / denominator),
            None => Err(ContractError::PenaltyOverflow),
        },
        None => Err(ContractError::PenaltyOverflow),
    }
}

/// The ledger after a penalty has been announced.
pub open spec fn penalty_announced(
    s: LedgerView,
    identity: Address,
    amount: i128,
    penalty: i128,
    treasury: Address,
) -> LedgerView {
    s.with_event(Event::EarlyExitPenalty { identity, amount, penalty, treasury })
}

/// Announces a penalty.
pub fn emit_penalty_event(
    e: &mut Ledger,
    identity: Address,
    amount: i128,
    penalty: i128,
    treasury: Address,
)
    ensures
        final(e)@ == penalty_announced(old(e)@, identity, amount, penalty, treasury),
{
    e.publish(Event::EarlyExitPenalty { identity, amount, penalty, treasury });
}

/// A penalty is never negative.
pub proof fn lemma_penalty_is_not_negative(
    amount: int,
    remaining: int,
    duration: int,
    penalty_bps: int,
)
    requires
        0 <= amount,
        0 <= remaining,
        0 <= duration,
        0 <= penalty_bps,
    ensures
        0 <= early_exit_penalty(amount, remaining, duration, penalty_bps),
{
    reveal(early_exit_penalty);
    if duration > 0 {
        let product = amount * penalty_bps * remaining;
        let whole = BPS_DENOMINATOR * duration;
        assert(0 <= product) by (nonlinear_arith)
            requires
                product == amount * penalty_bps * remaining,
                0 <= amount,
                0 <= penalty_bps,
                0 <= remaining,
        ;
        assert(0 <= product / whole) by (nonlinear_arith)
            requires
                0 <= product,
                0 < whole,
        ;
    }
}

/// A penalty of at most the whole, on a period of which at most the whole is left, lies between
/// nothing and the amount.
pub proof fn law_penalty_is_within_amount(
    amount: int,
    remaining: int,
    duration: int,
    penalty_bps: int,
)
    requires
        0 <= amount,
        0 <= remaining <= duration,
        0 <= penalty_bps <= BPS_DENOMINATOR,
    ensures
        0 <= early_exit_penalty(amount, remaining, duration, penalty_bps) <= amount,
{
    reveal(early_exit_penalty);
    if duration > 0 {
        let whole = BPS_DENOMINATOR * duration;
        let product = amount * penalty_bps * remaining;
        assert(0 <= product <= amount * whole) by (nonlinear_arith)
            requires
                product == amount * penalty_bps * remaining,
                whole == BPS_DENOMINATOR * duration,
                0 <= amount,
                0 <= remaining <= duration,
                0 <= penalty_bps <= BPS_DENOMINATOR,
        ;
        assert(0 <= product / whole <= amount) by (nonlinear_arith)
            requires
                0 <= product <= amount * whole,
                whole > 0,
        ;
    }
}

/// The longer the rest of the period, the higher the penalty.
pub proof fn law_penalty_grows_with_remaining_time(
    amount: int,
    shorter: int,
    longer: int,
    duration: int,
    penalty_bps: int,
)
    requires
        0 <= amount,
        0 <= penalty_bps,
        0 <= duration,
        0 <= shorter <= longer,
    ensures
        early_exit_penalty(amount, shorter, duration, penalty_bps) <= early_exit_penalty(
            amount,
            longer,
            duration,
            penalty_bps,
        ),
{
    reveal(early_exit_penalty);
    if duration > 0 {
        let rate = amount * penalty_bps;
        let whole = BPS_DENOMINATOR * duration;
        assert(0 <= rate) by (nonlinear_arith)
            requires
                rate == amount * penalty_bps,
                0 <= amount,
                0 <= penalty_bps,
        ;
        assert(rate * shorter <= rate * longer) by (nonlinear_arith)
            requires
                0 <= rate,
                shorter <= longer,
        ;
        vstd::arithmetic::div_mod::lemma_div_is_ordered(rate * shorter, rate * longer, whole);
    }
}

} // verus!

//! The calls that can change the ledger, as values.

use crate::address::Address;
use crate::contract::admin::{
    initialize_accepted, pause_accepted, set_callback_accepted, set_early_exit_config_accepted,
    unpause_accepted,
};
use crate::contract::attestations::{
    add_attestation_accepted, add_attestation_refusal, attester_register_refusal,
    register_attester_accepted, revoke_attestation_accepted, revoke_attestation_refusal,
    set_attester_stake_accepted, set_weight_config_accepted, unregister_attester_accepted,
};
use crate::contract::bonds::{
    bond_refusal, create_bond_accepted, create_bond_refusal, extend_duration_accepted,
    extend_duration_refusal, new_bond, renew_if_rolling_accepted, request_withdrawal_accepted,
    request_withdrawal_refusal, top_up_accepted, top_up_refusal,
};
use crate::contract::checks::{paused_refusal, unpaused_admin_refusal};
use crate::contract::custody::{
    pull_tokens_accepted, pull_tokens_refusal, withdraw_accepted, withdraw_early_accepted,
    withdraw_early_refusal, withdraw_refusal,
};
use crate::contract::fees::{
    collect_fees_accepted, collect_fees_refusal, deposit_fees_accepted, deposit_fees_refusal,
};
use crate::contract::guard::{with_lock, withdraw_bond_accepted, withdraw_bond_refusal};
use crate::contract::slashing::{
    capped_slash, slash_accepted, slash_bond_refusal, slash_refusal,
};
use crate::error::ContractError;
use crate::ledger::LedgerView;
use vstd::prelude::*;

verus! {

/// Setting the contract up and keeping it in order.
pub enum SetupCall {
    Initialize { admin: Address, token: Address },
    Pause { admin: Address },
    Unpause { admin: Address },
    SetEarlyExitConfig { admin: Address, treasury: Address, penalty_bps: u32 },
    SetCallback { addr: Address },
}

/// Deciding who may attest and for how much.
pub enum AttesterCall {
    RegisterAttester { attester: Address },
    UnregisterAttester { attester: Address },
    SetAttesterStake { admin: Address, attester: Address, amount: i128 },
    SetWeightConfig { admin: Address, multiplier_bps: u32, max_weight: u32 },
}

/// Attesting.
pub enum AttestationCall {
    AddAttestation { attester: Address, subject: Address, data: Seq<u8>, nonce: u64 },
    RevokeAttestation { attester: Address, attestation_id: u64, nonce: u64 },
}

/// Putting a bond up and keeping it.
pub enum BondCall {
    CreateBond { identity: Address, amount: i128, duration: u64, rolling: bool, notice: u64 },
    TopUp { amount: i128 },
    ExtendDuration { additional_duration: u64 },
    RequestWithdrawal,
    RenewIfRolling,
}

/// Moving tokens.
pub enum CustodyCall {
    PullTokens { from: Address, amount: i128, allowance: i128 },
    Withdraw { amount: i128 },
    WithdrawEarly { amount: i128 },
}

/// The calls that the reentrancy guard protects.
pub enum GuardedCall {
    WithdrawBond { identity: Address },
    SlashBond { admin: Address, amount: i128 },
    Slash { admin: Address, amount: i128 },
    CollectFees { admin: Address },
}

/// Filling the fee pool, and freeing the lock.
pub enum PoolCall {
    DepositFees { amount: i128 },
    ReleaseLock,
}

/// A call of one of the functions of `CredenceBond` that can change the ledger.
pub enum Call {
    Setup(SetupCall),
    Attester(AttesterCall),
    Attestation(AttestationCall),
    Bond(BondCall),
    Custody(CustodyCall),
    Guarded(GuardedCall),
    Pool(PoolCall),
}

/// Why a call of this kind is refused, if it is.
#[verifier::opaque]
pub open spec fn setup_call_refusal(s: LedgerView, call: SetupCall) -> Option<ContractError> {
    match call {
        SetupCall::Initialize { admin, .. } => s.auth_refusal(admin),
        SetupCall::Pause { admin } => s.admin_refusal(admin),
        SetupCall::Unpause { admin } => s.admin_refusal(admin),
        SetupCall::SetEarlyExitConfig { admin, .. } => unpaused_admin_refusal(s, admin),
        SetupCall::SetCallback { .. } => paused_refusal(s),
    }
}

/// The ledger after a call of this kind has been accepted.
#[verifier::opaque]
pub open spec fn setup_call_accepted(s: LedgerView, call: SetupCall) -> LedgerView {
    match call {
        SetupCall::Initialize { admin, token } => initialize_accepted(s, admin, token),
        SetupCall::Pause { admin } => pause_accepted(s, admin),
        SetupCall::Unpause { admin } => unpause_accepted(s, admin),
        SetupCall::SetEarlyExitConfig { treasury, penalty_bps, .. } => {
            set_early_exit_config_accepted(s, treasury, penalty_bps)
        },
        SetupCall::SetCallback { addr } => set_callback_accepted(s, addr),
    }
}

/// Why a call of this kind is refused, if it is.
#[verifier::opaque]
pub open spec fn attester_call_refusal(s: LedgerView, call: AttesterCall) -> Option<ContractError> {
    match call {
        AttesterCall::RegisterAttester { .. } => attester_register_refusal(s),
        AttesterCall::UnregisterAttester { .. } => attester_register_refusal(s),
        AttesterCall::SetAttesterStake { admin, .. } => unpaused_admin_refusal(s, admin),
        AttesterCall::SetWeightConfig { admin, .. } => unpaused_admin_refusal(s, admin),
    }
}

/// The ledger after a call of this kind has been accepted.
#[verifier::opaque]
pub open spec fn attester_call_accepted(s: LedgerView, call: AttesterCall) -> LedgerView {
    match call {
        AttesterCall::RegisterAttester { attester } => register_attester_accepted(s, attester),
        AttesterCall::UnregisterAttester { attester } => unregister_attester_accepted(s, attester),
        AttesterCall::SetAttesterStake { attester, amount, .. } => {
            set_attester_stake_accepted(s, attester, amount)
        },
        AttesterCall::SetWeightConfig { multiplier_bps, max_weight, .. } => {
            set_weight_config_accepted(s, multiplier_bps, max_weight)
        },
    }
}

/// Why a call of this kind is refused, if it is.
#[verifier::opaque]
pub open spec fn attestation_call_refusal(s: LedgerView, call: AttestationCall) -> Option<
    ContractError,
> {
    match call {
        AttestationCall::AddAttestation { attester, subject, data, nonce } => {
            add_attestation_refusal(s, attester, subject, data, nonce)
        },
        AttestationCall::RevokeAttestation { attester, attestation_id, nonce } => {
            revoke_attestation_refusal(s, attester, attestation_id, nonce)
        },
    }
}

/// The ledger after a call of this kind has been accepted.
#[verifier::opaque]
pub open spec fn attestation_call_accepted(s: LedgerView, call: AttestationCall) -> LedgerView {
    match call {
        AttestationCall::AddAttestation { attester, subject, data, .. } => {
            add_attestation_accepted(s, attester, subject, data)
        },
        AttestationCall::RevokeAttestation { attester, attestation_id, .. } => {
            revoke_attestation_accepted(s, attester, attestation_id)
        },
    }
}

/// Why a call of this kind is refused, if it is.
#[verifier::opaque]
pub open spec fn bond_call_refusal(s: LedgerView, call: BondCall) -> Option<ContractError> {
    match call {
        BondCall::CreateBond { identity, amount, duration, .. } => {
            create_bond_refusal(s, identity, amount, duration)
        },
        BondCall::TopUp { amount } => top_up_refusal(s, amount),
        BondCall::ExtendDuration { additional_duration } => {
            extend_duration_refusal(s, additional_duration)
        },
        BondCall::RequestWithdrawal => request_withdrawal_refusal(s),
        BondCall::RenewIfRolling => bond_refusal(s),
    }
}

/// The ledger after a call of this kind has been accepted.
#[verifier::opaque]
pub open spec fn bond_call_accepted(s: LedgerView, call: BondCall) -> LedgerView {
    match call {
        BondCall::CreateBond { identity, amount, duration, rolling, notice } => {
            create_bond_accepted(s, new_bond(s, identity, amount, duration, rolling, notice))
        },
        BondCall::TopUp { amount } => top_up_accepted(s, amount),
        BondCall::ExtendDuration { additional_duration } => {
            extend_duration_accepted(s, additional_duration)
        },
        BondCall::RequestWithdrawal => request_withdrawal_accepted(s),
        BondCall::RenewIfRolling => renew_if_rolling_accepted(s),
    }
}

/// Why a call of this kind is refused, if it is.
#[verifier::opaque]
pub open spec fn custody_call_refusal(s: LedgerView, call: CustodyCall) -> Option<ContractError> {
    match call {
        CustodyCall::PullTokens { amount, allowance, .. } => {
            pull_tokens_refusal(s, amount, allowance)
        },
        CustodyCall::Withdraw { amount } => withdraw_refusal(s, amount),
        CustodyCall::WithdrawEarly { amount } => withdraw_early_refusal(s, amount),
    }
}

/// The ledger after a call of this kind has been accepted.
#[verifier::opaque]
pub open spec fn custody_call_accepted(s: LedgerView, call: CustodyCall) -> LedgerView {
    match call {
        CustodyCall::PullTokens { from, amount, .. } => pull_tokens_accepted(s, from, amount),
        CustodyCall::Withdraw { amount } => withdraw_accepted(s, amount),
        CustodyCall::WithdrawEarly { amount } => withdraw_early_accepted(s, amount),
    }
}

/// Why a call of this kind is refused, if it is.
#[verifier::opaque]
pub open spec fn guarded_call_refusal(s: LedgerView, call: GuardedCall) -> Option<ContractError> {
    match call {
        GuardedCall::WithdrawBond { identity } => withdraw_bond_refusal(s, identity),
        GuardedCall::SlashBond { admin, amount } => slash_bond_refusal(s, admin, amount),
        GuardedCall::Slash { admin, amount } => slash_refusal(s, admin, amount),
        GuardedCall::CollectFees { admin } => collect_fees_refusal(s, admin),
    }
}

/// The ledger after a call of this kind has been accepted.
#[verifier::opaque]
pub open spec fn guarded_call_accepted(s: LedgerView, call: GuardedCall) -> LedgerView {
    match call {
        GuardedCall::WithdrawBond { .. } => withdraw_bond_accepted(s),
        GuardedCall::SlashBond { amount, .. } => slash_accepted(s, amount),
        GuardedCall::Slash { amount, .. } => {
            slash_accepted(s, capped_slash(s.storage.bond->0, amount))
        },
        GuardedCall::CollectFees { .. } => collect_fees_accepted(s),
    }
}

/// Why a call of this kind is refused, if it is.
#[verifier::opaque]
pub open spec fn pool_call_refusal(s: LedgerView, call: PoolCall) -> Option<ContractError> {
    match call {
        PoolCall::DepositFees { amount } => deposit_fees_refusal(s, amount),
        PoolCall::ReleaseLock => None,
    }
}

/// The ledger after a call of this kind has been accepted.
#[verifier::opaque]
pub open spec fn pool_call_accepted(s: LedgerView, call: PoolCall) -> LedgerView {
    match call {
        PoolCall::DepositFees { amount } => deposit_fees_accepted(s, amount),
        PoolCall::ReleaseLock => with_lock(s, false),
    }
}

/// Why a call is refused, if it is.
pub open spec fn refusal(s: LedgerView, call: Call) -> Option<ContractError> {
    match call {
        Call::Setup(call) => setup_call_refusal(s, call),
        Call::Attester(call) => attester_call_refusal(s, call),
        Call::Attestation(call) => attestation_call_refusal(s, call),
        Call::Bond(call) => bond_call_refusal(s, call),
        Call::Custody(call) => custody_call_refusal(s, call),
        Call::Guarded(call) => guarded_call_refusal(s, call),
        Call::Pool(call) => pool_call_refusal(s, call),
    }
}

/// The ledger after a call has been accepted.
pub open spec fn accepted(s: LedgerView, call: Call) -> LedgerView {
    match call {
        Call::Setup(call) => setup_call_accepted(s, call),
        Call::Attester(call) => attester_call_accepted(s, call),
        Call::Attestation(call) => attestation_call_accepted(s, call),
        Call::Bond(call) => bond_call_accepted(s, call),
        Call::Custody(call) => custody_call_accepted(s, call),
        Call::Guarded(call) => guarded_call_accepted(s, call),
        Call::Pool(call) => pool_call_accepted(s, call),
    }
}

/// The ledger after a call, accepted or refused.
pub open spec fn after(s: LedgerView, call: Call) -> LedgerView {
    if refusal(s, call) is None {
        accepted(s, call)
    } else {
        s
    }
}

/// A call together with the time at which it comes and the addresses that have authorized it.
pub struct Turn {
    pub timestamp: u64,
    pub auths: Seq<Address>,
    pub call: Call,
}

/// The ledger as the call of a turn finds it.
pub open spec fn at_turn(s: LedgerView, turn: Turn) -> LedgerView {
    LedgerView { timestamp: turn.timestamp, auths: turn.auths, ..s }
}

/// Whether the call of a turn is accepted.
pub open spec fn turn_accepted(s: LedgerView, turn: Turn) -> bool {
    refusal(at_turn(s, turn), turn.call) is None
}

/// The ledger after a turn.
pub open spec fn after_turn(s: LedgerView, turn: Turn) -> LedgerView {
    after(at_turn(s, turn), turn.call)
}

/// The ledger after some turns, one after the other.
pub open spec fn after_turns(s: LedgerView, turns: Seq<Turn>) -> LedgerView
    decreases turns.len(),
{
    if turns.len() == 0 {
        s
    } else {
        after_turn(after_turns(s, turns.drop_last()), turns.last())
    }
}

} // verus!

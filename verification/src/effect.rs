//! What an accepted call asks of the ledger around the contract.

use crate::address::Address;
use crate::bond::BondTier;
use vstd::prelude::*;

verus! {

/// A notice that the contract publishes. `Data` is an attestation's payload: bytes where the
/// contract runs, a sequence of bytes where its behaviour is described.
#[derive(Debug)]
pub enum Event<Data> {
    Paused { admin: Address },
    Unpaused { admin: Address },
    AttesterRegistered { attester: Address },
    AttesterUnregistered { attester: Address },
    AttestationAdded { subject: Address, id: u64, attester: Address, data: Data, weight: u32 },
    AttestationRevoked { subject: Address, id: u64, attester: Address },
    WithdrawalRequested { identity: Address, requested_at: u64 },
    BondRenewed { identity: Address, bond_start: u64, bond_duration: u64 },
    BondSlashed { identity: Address, slash_amount: i128, total_slashed: i128 },
    EarlyExitPenalty { identity: Address, amount: i128, penalty: i128, treasury: Address },
    TierChanged { identity: Address, old_tier: BondTier, new_tier: BondTier },
}

/// The function of the callback contract that is to be told of a guarded call.
#[derive(Clone, Copy, Debug, PartialEq, Eq, Structural)]
pub enum Hook {
    OnWithdraw,
    OnSlash,
    OnCollect,
}

/// One thing that an accepted call asks of the ledger, to be done in the order of asking once
/// the new storage has been written.
#[derive(Debug)]
pub enum Effect<Data> {
    /// Publish a notice.
    Publish(Event<Data>),
    /// Ask the custody token how much of `from`'s balance this contract may pull, and hand the
    /// answer to `CredenceBond::pull_tokens`.
    PullTokens { from: Address, amount: i128 },
    /// Let `spender` move `amount` of the token from `from` to `to`.
    TransferFrom { token: Address, spender: Address, from: Address, to: Address, amount: i128 },
    /// Move `amount` of the token from `from` to `to`.
    Transfer { token: Address, from: Address, to: Address, amount: i128 },
    /// Tell the callback contract of an amount.
    InvokeCallback { callback: Address, hook: Hook, amount: i128 },
    /// Call `CredenceBond::release_lock`: the external calls of a guarded call are over.
    ReleaseLock,
}

impl View for Event<Vec<u8>> {
    type V = Event<Seq<u8>>;

    open spec fn view(&self) -> Event<Seq<u8>> {
        match *self {
            Event::Paused { admin } => Event::Paused { admin },
            Event::Unpaused { admin } => Event::Unpaused { admin },
            Event::AttesterRegistered { attester } => Event::AttesterRegistered { attester },
            Event::AttesterUnregistered { attester } => Event::AttesterUnregistered { attester },
            Event::AttestationAdded { subject, id, attester, data, weight } =>
                Event::AttestationAdded { subject, id, attester, data: data@, weight },
            Event::AttestationRevoked { subject, id, attester } =>
                Event::AttestationRevoked { subject, id, attester },
            Event::WithdrawalRequested { identity, requested_at } =>
                Event::WithdrawalRequested { identity, requested_at },
            Event::BondRenewed { identity, bond_start, bond_duration } =>
                Event::BondRenewed { identity, bond_start, bond_duration },
            Event::BondSlashed { identity, slash_amount, total_slashed } =>
                Event::BondSlashed { identity, slash_amount, total_slashed },
            Event::EarlyExitPenalty { identity, amount, penalty, treasury } =>
                Event::EarlyExitPenalty { identity, amount, penalty, treasury },
            Event::TierChanged { identity, old_tier, new_tier } =>
                Event::TierChanged { identity, old_tier, new_tier },
        }
    }
}

impl View for Effect<Vec<u8>> {
    type V = Effect<Seq<u8>>;

    open spec fn view(&self) -> Effect<Seq<u8>> {
        match *self {
            Effect::Publish(event) => Effect::Publish(event@),
            Effect::PullTokens { from, amount } => Effect::PullTokens { from, amount },
            Effect::TransferFrom { token, spender, from, to, amount } =>
                Effect::TransferFrom { token, spender, from, to, amount },
            Effect::Transfer { token, from, to, amount } =>
                Effect::Transfer { token, from, to, amount },
            Effect::InvokeCallback { callback, hook, amount } =>
                Effect::InvokeCallback { callback, hook, amount },
            Effect::ReleaseLock => Effect::ReleaseLock,
        }
    }
}

impl<Data> Event<Data> {
    /// The symbol that leads the event's topics.
    pub open spec fn spec_topic(self) -> Seq<char> {
        match self {
            Event::Paused { .. } => "paused"@,
            Event::Unpaused { .. } => "unpaused"@,
            Event::AttesterRegistered { .. } => "attester_registered"@,
            Event::AttesterUnregistered { .. } => "attester_unregistered"@,
            Event::AttestationAdded { .. } => "attestation_added"@,
            Event::AttestationRevoked { .. } => "attestation_revoked"@,
            Event::WithdrawalRequested { .. } => "withdrawal_requested"@,
            Event::BondRenewed { .. } => "bond_renewed"@,
            Event::BondSlashed { .. } => "bond_slashed"@,
            Event::EarlyExitPenalty { .. } => "early_exit_penalty"@,
            Event::TierChanged { .. } => "tier_changed"@,
        }
    }

    /// The symbol that leads the event's topics.
    pub fn topic(&self) -> (symbol: &'static str)
        ensures
            symbol@ == self.spec_topic(),
    {
        match self {
            Event::Paused { .. } => "paused",
            Event::Unpaused { .. } => "unpaused",
            Event::AttesterRegistered { .. } => "attester_registered",
            Event::AttesterUnregistered { .. } => "attester_unregistered",
            Event::AttestationAdded { .. } => "attestation_added",
            Event::AttestationRevoked { .. } => "attestation_revoked",
            Event::WithdrawalRequested { .. } => "withdrawal_requested",
            Event::BondRenewed { .. } => "bond_renewed",
            Event::BondSlashed { .. } => "bond_slashed",
            Event::EarlyExitPenalty { .. } => "early_exit_penalty",
            Event::TierChanged { .. } => "tier_changed",
        }
    }
}

impl Hook {
    /// The name of the function that the callback contract exports for the hook.
    pub open spec fn spec_function_name(self) -> Seq<char> {
        match self {
            Hook::OnWithdraw => "on_withdraw"@,
            Hook::OnSlash => "on_slash"@,
            Hook::OnCollect => "on_collect"@,
        }
    }

    /// The name of the function that the callback contract exports for the hook.
    pub fn function_name(&self) -> (name: &'static str)
        ensures
            name@ == self.spec_function_name(),
    {
        match self {
            Hook::OnWithdraw => "on_withdraw",
            Hook::OnSlash => "on_slash",
            Hook::OnCollect => "on_collect",
        }
    }
}

} // verus!

//! The calls that only read.

use crate::address::Address;
use crate::bond::{BondTier, IdentityBond};
use crate::contract::CredenceBond;
use crate::effect::{Event, Hook};
use crate::error::ContractError;
use crate::laws::entry_laws::shapes::refused;
use crate::ledger::Ledger;
use crate::subject_index::SubjectIndex;
use crate::types::Attestation;
use vstd::prelude::*;

verus! {

/// Whether the contract is paused, and whether a guarded call is in progress, is what is stored.
pub proof fn law_flags_are_read(e: &Ledger, paused: bool, locked: bool)
    requires
        call_ensures(CredenceBond::is_paused, (e,), paused),
        call_ensures(CredenceBond::is_locked, (e,), locked),
    ensures
        paused <==> e@.storage.paused,
        locked <==> e@.storage.locked,
{
}

/// The bond is read as it is stored. Its tier is the highest whose threshold the bonded amount
/// reaches, slashed or not, and the lowest if it reaches none.
pub proof fn law_bond_is_read(
    e: &Ledger,
    bond: Result<IdentityBond, ContractError>,
    tier: Result<BondTier, ContractError>,
)
    requires
        call_ensures(CredenceBond::get_identity_state, (e,), bond),
        call_ensures(CredenceBond::get_tier, (e,), tier),
    ensures
        e@.storage.bond is None ==> refused(bond, ContractError::BondNotFound) && refused(
            tier,
            ContractError::BondNotFound,
        ),
        e@.storage.bond matches Some(stored) ==> {
            let tiers = e@.rules.tiers;
            let amount = stored.bonded_amount;
            &&& bond == Ok::<IdentityBond, ContractError>(stored)
            &&& tier is Ok
            &&& tier->Ok_0 == BondTier::Platinum <==> tiers.platinum <= amount
            &&& tier->Ok_0 == BondTier::Gold <==> tiers.gold <= amount < tiers.platinum
            &&& tier->Ok_0 == BondTier::Silver <==> tiers.silver <= amount && amount < tiers.gold
                && amount < tiers.platinum
        },
{
}

/// The token is read as it is stored.
pub proof fn law_token_is_read(e: &Ledger, token: Result<Address, ContractError>)
    requires
        call_ensures(CredenceBond::get_token, (e,), token),
    ensures
        e@.storage.token is None <==> refused(token, ContractError::TokenNotConfigured),
        e@.storage.token matches Some(stored) ==> token == Ok::<Address, ContractError>(stored),
{
}

/// An attestation is read as it is stored, revoked or not.
pub proof fn law_attestation_is_read(
    e: &Ledger,
    id: u64,
    attestation: Result<Attestation, ContractError>,
)
    requires
        call_ensures(CredenceBond::get_attestation, (e, id), attestation),
    ensures
        attestation is Ok <==> e@.storage.attestations.contains_key(id),
        attestation is Err ==> refused(attestation, ContractError::AttestationNotFound),
        attestation matches Ok(read) ==> read@ == e@.storage.attestations[id],
{
}

/// A subject's list and count are read as they are stored, and as empty where nothing is.
pub proof fn law_subject_is_read(e: &Ledger, subject: Address, ids: SubjectIndex, count: u32)
    requires
        call_ensures(CredenceBond::get_subject_attestations, (e, subject), ids),
        call_ensures(CredenceBond::get_subject_attestation_count, (e, subject), count),
    ensures
        e@.storage.subject_attestations.contains_key(subject) ==> ids@
            == e@.storage.subject_attestations[subject],
        !e@.storage.subject_attestations.contains_key(subject) ==> ids@.len() == 0,
        e@.storage.subject_attestation_counts.contains_key(subject) ==> count
            == e@.storage.subject_attestation_counts[subject],
        !e@.storage.subject_attestation_counts.contains_key(subject) ==> count == 0,
{
}

/// Whether an address is an attester, and its nonce, are read as they are stored; an address of
/// which nothing is stored is none and has used no nonce.
pub proof fn law_attester_is_read(e: &Ledger, who: Address, registered: bool, nonce: u64)
    requires
        call_ensures(CredenceBond::is_attester, (e, who), registered),
        call_ensures(CredenceBond::get_nonce, (e, who), nonce),
    ensures
        registered <==> e@.storage.attesters.contains_key(who) && e@.storage.attesters[who],
        e@.storage.nonces.contains_key(who) ==> nonce == e@.storage.nonces[who],
        !e@.storage.nonces.contains_key(who) ==> nonce == 0,
{
}

/// The weight configuration is the one that the admin has set and, until then, the one of the
/// deployment.
pub proof fn law_weight_config_is_read(e: &Ledger, config: (u32, u32))
    requires
        call_ensures(CredenceBond::get_weight_config, (e,), config),
    ensures
        e@.storage.weight_config matches Some(set) ==> config == (
            set.multiplier_bps,
            set.max_weight,
        ),
        e@.storage.weight_config is None ==> config == (
            e@.rules.default_weight_config.multiplier_bps,
            e@.rules.default_weight_config.max_weight,
        ),
{
}

/// An amount passes exactly if it is positive, and fails for the reason given.
pub proof fn law_positive_amounts_pass(
    amount: i128,
    reason: ContractError,
    checked: Result<(), ContractError>,
)
    requires
        call_ensures(CredenceBond::require_positive_amount, (amount, reason), checked),
    ensures
        checked is Ok <==> 0 < amount,
        checked is Err ==> refused(checked, reason),
{
}

/// Every notice is published under its own symbol, and every hook has its own function.
pub proof fn law_names_of_notices_and_hooks(
    event: &Event<Vec<u8>>,
    topic: &'static str,
    hook: &Hook,
    name: &'static str,
)
    requires
        call_ensures(Event::<Vec<u8>>::topic, (event,), topic),
        call_ensures(Hook::function_name, (hook,), name),
    ensures
        event is Paused ==> topic@ == "paused"@,
        event is Unpaused ==> topic@ == "unpaused"@,
        event is AttesterRegistered ==> topic@ == "attester_registered"@,
        event is AttesterUnregistered ==> topic@ == "attester_unregistered"@,
        event is AttestationAdded ==> topic@ == "attestation_added"@,
        event is AttestationRevoked ==> topic@ == "attestation_revoked"@,
        event is WithdrawalRequested ==> topic@ == "withdrawal_requested"@,
        event is BondRenewed ==> topic@ == "bond_renewed"@,
        event is BondSlashed ==> topic@ == "bond_slashed"@,
        hook is OnWithdraw ==> name@ == "on_withdraw"@,
        hook is OnSlash ==> name@ == "on_slash"@,
        hook is OnCollect ==> name@ == "on_collect"@,
{
}

} // verus!

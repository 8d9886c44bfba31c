//! That the contract is seen as it is: the views through which the laws speak hide nothing and
//! alter nothing.

use crate::address::Address;
use crate::effect::{Effect, Event};
use crate::error::ContractError;
use crate::ledger::{Ledger, Rules, Storage, StorageView};
use crate::subject_index::SubjectIndex;
use crate::types::{Attestation, AttestationDedupKey};
use vstd::prelude::*;

verus! {

/// The ledger is seen with its own address, clock, authorizations and rules, and with everything
/// that has been asked of it, in the order of asking.
pub proof fn law_ledger_is_seen_as_it_is(e: Ledger, i: int)
    ensures
        e@.contract == e.contract,
        e@.timestamp == e.timestamp,
        e@.auths == e.auths@,
        e@.rules == e.rules,
        e@.storage == e.storage@,
        e@.effects.len() == e.effects@.len(),
        0 <= i < e.effects@.len() ==> e@.effects[i] == e.effects@[i]@,
{
}

/// The storage is seen with what its slots hold.
pub proof fn law_storage_is_seen_as_it_is(storage: Storage)
    ensures
        storage@.admin == storage.admin,
        storage@.paused == storage.paused,
        storage@.token == storage.token,
        storage@.bond == storage.bond,
        storage@.attesters == storage.attesters@,
        storage@.attestations == storage.attestations@,
        storage@.attestation_counter == storage.attestation_counter,
        storage@.subject_attestations == storage.subject_attestations@,
        storage@.subject_attestation_counts == storage.subject_attestation_counts@,
        storage@.dedup == storage.dedup@,
        storage@.nonces == storage.nonces@,
        storage@.attester_stakes == storage.attester_stakes@,
        storage@.weight_config == storage.weight_config,
        storage@.early_exit == storage.early_exit,
        storage@.fees == storage.fees,
        storage@.callback == storage.callback,
        storage@.locked == storage.locked,
{
}

/// Attestations and deduplication keys are seen with all that they say.
pub proof fn law_attestations_are_seen_as_they_are(
    attestation: Attestation,
    key: AttestationDedupKey,
)
    ensures
        attestation@.id == attestation.id,
        attestation@.verifier == attestation.verifier,
        attestation@.identity == attestation.identity,
        attestation@.timestamp == attestation.timestamp,
        attestation@.weight == attestation.weight,
        attestation@.attestation_data == attestation.attestation_data@,
        attestation@.revoked == attestation.revoked,
        key@.verifier == key.verifier,
        key@.identity == key.identity,
        key@.attestation_data == key.attestation_data@,
{
}

/// A notice is seen as the one that it is, with the figures that it carries.
pub proof fn law_notices_are_seen_as_they_are(event: Event<Vec<u8>>)
    ensures
        event matches Event::Paused { admin } ==> event@ == (Event::<Seq<u8>>::Paused { admin }),
        event matches Event::Unpaused { admin } ==> event@ == (Event::<Seq<u8>>::Unpaused {
            admin,
        }),
        event matches Event::AttesterRegistered { attester } ==> event@ == (Event::<
            Seq<u8>,
        >::AttesterRegistered { attester }),
        event matches Event::AttesterUnregistered { attester } ==> event@ == (Event::<
            Seq<u8>,
        >::AttesterUnregistered { attester }),
        event matches Event::AttestationAdded { subject, id, attester, data, weight } ==> event@
            == (Event::<Seq<u8>>::AttestationAdded { subject, id, attester, data: data@, weight }),
        event matches Event::AttestationRevoked { subject, id, attester } ==> event@ == (Event::<
            Seq<u8>,
        >::AttestationRevoked { subject, id, attester }),
        event matches Event::WithdrawalRequested { identity, requested_at } ==> event@ == (Event::<
            Seq<u8>,
        >::WithdrawalRequested { identity, requested_at }),
        event matches Event::BondRenewed { identity, bond_start, bond_duration } ==> event@
            == (Event::<Seq<u8>>::BondRenewed { identity, bond_start, bond_duration }),
        event matches Event::BondSlashed { identity, slash_amount, total_slashed } ==> event@
            == (Event::<Seq<u8>>::BondSlashed { identity, slash_amount, total_slashed }),
        event matches Event::EarlyExitPenalty { identity, amount, penalty, treasury } ==> event@
            == (Event::<Seq<u8>>::EarlyExitPenalty { identity, amount, penalty, treasury }),
        event matches Event::TierChanged { identity, old_tier, new_tier } ==> event@ == (Event::<
            Seq<u8>,
        >::TierChanged { identity, old_tier, new_tier }),
{
}

/// Whatever is asked of the ledger is seen as what it is, with the figures that it carries.
pub proof fn law_effects_are_seen_as_they_are(effect: Effect<Vec<u8>>)
    ensures
        effect matches Effect::Publish(event) ==> effect@ == Effect::<Seq<u8>>::Publish(event@),
        effect matches Effect::PullTokens { from, amount } ==> effect@ == (Effect::<
            Seq<u8>,
        >::PullTokens { from, amount }),
        effect matches Effect::TransferFrom { token, spender, from, to, amount } ==> effect@
            == (Effect::<Seq<u8>>::TransferFrom { token, spender, from, to, amount }),
        effect matches Effect::Transfer { token, from, to, amount } ==> effect@ == (Effect::<
            Seq<u8>,
        >::Transfer { token, from, to, amount }),
        effect matches Effect::InvokeCallback { callback, hook, amount } ==> effect@ == (Effect::<
            Seq<u8>,
        >::InvokeCallback { callback, hook, amount }),
        effect is ReleaseLock ==> effect@ == Effect::<Seq<u8>>::ReleaseLock,
{
}

/// A new ledger is that of a freshly deployed contract: it has nothing stored, nothing asked for
/// and nobody's authorization, and its clock is at zero.
pub proof fn law_new_ledger_is_empty(
    host: soroban_sdk::Env,
    contract: Address,
    rules: Rules,
    e: Ledger,
)
    requires
        call_ensures(Ledger::new, (host, contract, rules), e),
    ensures
        e@.contract == contract,
        e@.rules == rules,
        e@.timestamp == 0,
        e@.auths.len() == 0,
        e@.effects.len() == 0,
        e@.storage == (StorageView {
            admin: None,
            paused: false,
            token: None,
            bond: None,
            attesters: Map::empty(),
            attestations: Map::empty(),
            attestation_counter: 0,
            subject_attestations: Map::empty(),
            subject_attestation_counts: Map::empty(),
            dedup: Map::empty(),
            nonces: Map::empty(),
            attester_stakes: Map::empty(),
            weight_config: None,
            early_exit: None,
            fees: 0,
            callback: None,
            locked: false,
        }),
        e@.storage == StorageView::initial(),
{
}

/// A list of attestation numbers holds the numbers that it was made from, and gives them back in
/// the same order.
pub proof fn law_lists_give_back_what_they_hold(
    host: &soroban_sdk::Env,
    given: &Vec<u64>,
    index: SubjectIndex,
    n: u32,
    ids: Vec<u64>,
)
    requires
        given@.len() <= u32::MAX,
        call_ensures(SubjectIndex::from_ids, (host, given), index),
        call_ensures(SubjectIndex::len, (&index,), n),
        call_ensures(SubjectIndex::to_vec, (&index,), ids),
    ensures
        n == given@.len(),
        ids@ == given@,
{
}

/// Refusals are reported in these words.
pub proof fn law_refusals_are_reported_in_these_words(reason: &ContractError, text: &'static str)
    requires
        call_ensures(ContractError::message, (reason,), text),
    ensures
        reason is NotInitialized ==> text@ == "not initialized"@,
        reason is NoAdmin ==> text@ == "no admin"@,
        reason is NotAdmin ==> text@ == "not admin"@,
        reason is ContractPaused ==> text@ == "contract paused"@,
        reason is TokenNotConfigured ==> text@ == "token not configured"@,
        reason is InsufficientAllowance ==> text@ == "insufficient token allowance"@,
        reason is BondAmountNotPositive ==> text@ == "bond amount must be positive"@,
        reason is WithdrawAmountNotPositive ==> text@ == "withdraw amount must be positive"@,
        reason is TopUpAmountNotPositive ==> text@ == "top-up amount must be positive"@,
        reason is SlashAmountNotPositive ==> text@ == "slash amount must be positive"@,
        reason is BondNotFound ==> text@ == "no bond"@,
        reason is BondEndOverflow ==> text@ == "bond end timestamp would overflow"@,
        reason is DurationOverflow ==> text@ == "duration extension caused overflow"@,
        reason is InsufficientBalance ==> text@ == "insufficient balance for withdrawal"@,
        reason is SlashedExceedsBonded ==> text@ == "slashed amount exceeds bonded amount"@,
        reason is TopUpOverflow ==> text@ == "top-up caused overflow"@,
        reason is LockupEnded ==> text@ == "use withdraw for post lock-up"@,
        reason is PenaltyExceedsWithdrawal ==> text@ == "penalty exceeds withdrawal amount"@,
        reason is NotRollingBond ==> text@ == "not a rolling bond"@,
        reason is WithdrawalAlreadyRequested ==> text@ == "withdrawal already requested"@,
        reason is BondNotActive ==> text@ == "bond not active"@,
        reason is NotBondOwner ==> text@ == "not bond owner"@,
        reason is SlashOverflow ==> text@ == "slashing caused overflow"@,
        reason is SlashExceedsBond ==> text@ == "slash exceeds bond"@,
        reason is ReentrancyDetected ==> text@ == "reentrancy detected"@,
        reason is UnauthorizedAttester ==> text@ == "unauthorized attester"@,
        reason is DuplicateAttestation ==> text@ == "duplicate attestation"@,
        reason is AttestationCounterOverflow ==> text@ == "attestation counter overflow"@,
        reason is SubjectCountOverflow ==> text@ == "subject attestation count overflow"@,
        reason is SubjectCountUnderflow ==> text@ == "subject attestation count underflow"@,
        reason is SubjectIndexDrift ==> text@ == "subject attestation index drift"@,
        reason is SubjectIndexMissing ==> text@ == "attestation index missing"@,
        reason is AttestationNotFound ==> text@ == "attestation not found"@,
        reason is NotOriginalAttester ==> text@ == "only original attester can revoke"@,
        reason is AttestationAlreadyRevoked ==> text@ == "attestation already revoked"@,
{
}

} // verus!

//! Attesters and their attestations.

use crate::address::Address;
use crate::contract::checks::{check_result, unpaused_admin_refusal};
use crate::contract::CredenceBond;
use crate::effect::Event;
use crate::error::ContractError;
use crate::ledger::{Ledger, LedgerView, StorageView, WeightConfig};
use crate::nonce::{self, nonce_consumed, nonce_refusal};
use crate::subject_index::SubjectIndex;
use crate::types::{copy_bytes, Attestation, AttestationView, DedupKeyView};
use crate::weighted_attestation::{self, weight_of};
use vstd::prelude::*;

verus! {

/// The attestation that a call of `add_attestation` would make.
pub open spec fn new_attestation(
    s: LedgerView,
    attester: Address,
    subject: Address,
    data: Seq<u8>,
) -> AttestationView {
    AttestationView {
        id: s.storage.attestation_counter,
        verifier: attester,
        identity: subject,
        timestamp: s.timestamp,
        weight: weight_of(s, attester) as u32,
        attestation_data: data,
        revoked: false,
    }
}

/// Why `add_attestation` is refused, if it is.
pub open spec fn add_attestation_refusal(
    s: LedgerView,
    attester: Address,
    subject: Address,
    data: Seq<u8>,
    nonce: u64,
) -> Option<ContractError> {
    let key = DedupKeyView { verifier: attester, identity: subject, attestation_data: data };
    if s.storage.paused {
        Some(ContractError::ContractPaused)
    } else if s.auth_refusal(attester) is Some {
        s.auth_refusal(attester)
    } else if !s.storage.is_attester(attester) {
        Some(ContractError::UnauthorizedAttester)
    } else if nonce_refusal(s, attester, nonce) is Some {
        nonce_refusal(s, attester, nonce)
    } else if s.storage.dedup.contains_key(key) {
        Some(ContractError::DuplicateAttestation)
    } else if s.storage.attestation_counter == u64::MAX {
        Some(ContractError::AttestationCounterOverflow)
    } else if weight_of(s, attester) > s.rules.max_attestation_weight {
        Some(ContractError::InvalidWeight)
    } else if s.storage.count_of(subject) == u32::MAX {
        Some(ContractError::SubjectCountOverflow)
    } else if s.storage.count_of(subject) != s.storage.ids_of(subject).len() {
        Some(ContractError::SubjectIndexDrift)
    } else {
        None
    }
}

/// The ledger after `add_attestation` has been accepted.
pub open spec fn add_attestation_accepted(
    s: LedgerView,
    attester: Address,
    subject: Address,
    data: Seq<u8>,
) -> LedgerView {
    let made = new_attestation(s, attester, subject, data);
    let storage = nonce_consumed(s.storage, attester);
    s.with_storage(
        StorageView {
            attestations: storage.attestations.insert(made.id, made),
            attestation_counter: (made.id + 1) as u64,
            subject_attestations: storage.subject_attestations.insert(
                subject,
                storage.ids_of(subject).push(made.id),
            ),
            subject_attestation_counts: storage.subject_attestation_counts.insert(
                subject,
                (storage.count_of(subject) + 1) as u32,
            ),
            dedup: storage.dedup.insert(made.dedup_key(), made.id),
            ..storage
        },
    ).with_event(
        Event::AttestationAdded { subject, id: made.id, attester, data, weight: made.weight },
    )
}

/// Why `revoke_attestation` is refused, if it is.
pub open spec fn revoke_attestation_refusal(
    s: LedgerView,
    attester: Address,
    attestation_id: u64,
    nonce: u64,
) -> Option<ContractError> {
    let attestation = s.storage.attestations[attestation_id];
    let subject = attestation.identity;
    if s.storage.paused {
        Some(ContractError::ContractPaused)
    } else if s.auth_refusal(attester) is Some {
        s.auth_refusal(attester)
    } else if nonce_refusal(s, attester, nonce) is Some {
        nonce_refusal(s, attester, nonce)
    } else if !s.storage.attestations.contains_key(attestation_id) {
        Some(ContractError::AttestationNotFound)
    } else if attestation.verifier != attester {
        Some(ContractError::NotOriginalAttester)
    } else if attestation.revoked {
        Some(ContractError::AttestationAlreadyRevoked)
    } else if !s.storage.ids_of(subject).contains(attestation_id) {
        Some(ContractError::SubjectIndexMissing)
    } else if s.storage.count_of(subject) == 0 {
        Some(ContractError::SubjectCountUnderflow)
    } else if s.storage.count_of(subject) != s.storage.ids_of(subject).len() {
        Some(ContractError::SubjectIndexDrift)
    } else {
        None
    }
}

/// The ledger after `revoke_attestation` has been accepted.
pub open spec fn revoke_attestation_accepted(
    s: LedgerView,
    attester: Address,
    attestation_id: u64,
) -> LedgerView {
    let attestation = s.storage.attestations[attestation_id];
    let subject = attestation.identity;
    let storage = nonce_consumed(s.storage, attester);
    s.with_storage(
        StorageView {
            attestations: storage.attestations.insert(attestation_id, attestation.revoke()),
            subject_attestations: storage.subject_attestations.insert(
                subject,
                storage.ids_of(subject).remove_value(attestation_id),
            ),
            subject_attestation_counts: storage.subject_attestation_counts.insert(
                subject,
                (storage.count_of(subject) - 1) as u32,
            ),
            dedup: storage.dedup.remove(attestation.dedup_key()),
            ..storage
        },
    ).with_event(Event::AttestationRevoked { subject, id: attestation_id, attester })
}

/// Why a change to the register of attesters is refused, if it is.
pub open spec fn attester_register_refusal(s: LedgerView) -> Option<ContractError> {
    if s.storage.paused {
        Some(ContractError::ContractPaused)
    } else {
        match s.storage.admin {
            None => Some(ContractError::NotInitialized),
            Some(admin) => s.auth_refusal(admin),
        }
    }
}

/// The ledger after `register_attester` has been accepted.
pub open spec fn register_attester_accepted(s: LedgerView, attester: Address) -> LedgerView {
    s.with_storage(
        StorageView { attesters: s.storage.attesters.insert(attester, true), ..s.storage },
    ).with_event(Event::AttesterRegistered { attester })
}

/// The ledger after `unregister_attester` has been accepted.
pub open spec fn unregister_attester_accepted(s: LedgerView, attester: Address) -> LedgerView {
    s.with_storage(
        StorageView { attesters: s.storage.attesters.remove(attester), ..s.storage },
    ).with_event(Event::AttesterUnregistered { attester })
}

/// The ledger after `set_attester_stake` has been accepted.
pub open spec fn set_attester_stake_accepted(
    s: LedgerView,
    attester: Address,
    amount: i128,
) -> LedgerView {
    s.with_storage(
        StorageView {
            attester_stakes: s.storage.attester_stakes.insert(attester, amount),
            ..s.storage
        },
    )
}

/// The ledger after `set_weight_config` has been accepted.
pub open spec fn set_weight_config_accepted(
    s: LedgerView,
    multiplier_bps: u32,
    max_weight: u32,
) -> LedgerView {
    s.with_storage(
        StorageView {
            weight_config: Some(WeightConfig { multiplier_bps, max_weight }),
            ..s.storage
        },
    )
}

/// Attesters and their attestations.
impl CredenceBond {
    /// Add an attestation for a subject (only authorized attesters can call). Blocked while paused.
    /// Requires correct nonce for replay prevention; rejects duplicate (verifier, identity, data).
    /// Weight is computed from attester stake (weighted attestation system).
    pub fn add_attestation(
        e: &mut Ledger,
        attester: Address,
        subject: Address,
        attestation_data: Vec<u8>,
        nonce: u64,
    ) -> (answer: Result<Attestation, ContractError>)
        ensures
            match add_attestation_refusal(old(e)@, attester, subject, attestation_data@, nonce) {
                Some(refusal) => answer == Err::<Attestation, ContractError>(refusal) && final(e)@
                    == old(e)@,
                None => answer is Ok && answer->Ok_0@ == new_attestation(
                    old(e)@,
                    attester,
                    subject,
                    attestation_data@,
                ) && final(e)@ == add_attestation_accepted(
                    old(e)@,
                    attester,
                    subject,
                    attestation_data@,
                ),
            },
    {
        Self::require_not_paused(e)?;
        e.require_auth(attester)?;
        if !Self::is_attester(e, attester) {
            return Err(ContractError::UnauthorizedAttester);
        }
        nonce::check_nonce(e, &attester, nonce)?;

        let weight: u32 = weighted_attestation::compute_weight(e, &attester);
        let id: u64 = e.storage.attestation_counter;
        let attestation = Attestation {
            id,
            verifier: attester,
            identity: subject,
            timestamp: e.timestamp,
            weight,
            attestation_data,
            revoked: false,
        };
        let dedup_key = attestation.dedup_key();
        if e.storage.dedup.has(&dedup_key) {
            return Err(ContractError::DuplicateAttestation);
        }
        let next_id: u64 = match id.checked_add(1) {
            Some(next_id) => next_id,
            None => return Err(ContractError::AttestationCounterOverflow),
        };
        Attestation::validate_weight(weight, e.rules.max_attestation_weight)?;

        let mut attestations = Self::get_subject_attestations(e, subject);
        let count: u32 = Self::get_subject_attestation_count(e, subject);
        let next_count: u32 = match count.checked_add(1) {
            Some(next_count) => next_count,
            None => return Err(ContractError::SubjectCountOverflow),
        };
        if count != attestations.len() {
            return Err(ContractError::SubjectIndexDrift);
        }
        attestations.push(id);

        nonce::consume_nonce(e, &attester, nonce)?;
        e.storage.attestation_counter = next_id;
        e.storage.attestations.set(id, attestation.clone());
        e.storage.dedup.set(dedup_key, id);
        e.storage.subject_attestations.set(subject, attestations);
        e.storage.subject_attestation_counts.set(subject, next_count);
        e.publish(
            Event::AttestationAdded {
                subject,
                id,
                attester,
                data: copy_bytes(&attestation.attestation_data),
                weight,
            },
        );
        Ok(attestation)
    }

    /// Revoke an attestation (only the original attester can revoke). Blocked while paused.
    /// Requires correct nonce.
    pub fn revoke_attestation(
        e: &mut Ledger,
        attester: Address,
        attestation_id: u64,
        nonce: u64,
    ) -> (answer: Result<(), ContractError>)
        ensures
            match revoke_attestation_refusal(old(e)@, attester, attestation_id, nonce) {
                Some(refusal) => answer == Err::<(), ContractError>(refusal) && final(e)@ == old(
                    e,
                )@,
                None => answer == Ok::<(), ContractError>(()) && final(e)@
                    == revoke_attestation_accepted(old(e)@, attester, attestation_id),
            },
    {
        Self::require_not_paused(e)?;
        e.require_auth(attester)?;
        nonce::check_nonce(e, &attester, nonce)?;

        let mut attestation = Self::get_attestation(e, attestation_id)?;
        if attestation.verifier != attester {
            return Err(ContractError::NotOriginalAttester);
        }
        if attestation.revoked {
            return Err(ContractError::AttestationAlreadyRevoked);
        }
        attestation.revoked = true;

        let subject = attestation.identity;
        let dedup_key = attestation.dedup_key();
        let mut attestations = Self::get_subject_attestations(e, subject);
        let listed: u32 = attestations.len();
        if !attestations.remove_id(attestation_id) {
            return Err(ContractError::SubjectIndexMissing);
        }
        let count: u32 = Self::get_subject_attestation_count(e, subject);
        let next_count: u32 = match count.checked_sub(1) {
            Some(next_count) => next_count,
            None => return Err(ContractError::SubjectCountUnderflow),
        };
        proof {
            e@.storage.ids_of(subject).index_of_first_ensures(attestation_id);
            assert(attestations@.len() == listed - 1);
        }
        if next_count != attestations.len() {
            return Err(ContractError::SubjectIndexDrift);
        }

        nonce::consume_nonce(e, &attester, nonce)?;
        e.storage.attestations.set(attestation_id, attestation);
        e.storage.dedup.remove(&dedup_key);
        e.storage.subject_attestations.set(subject, attestations);
        e.storage.subject_attestation_counts.set(subject, next_count);
        e.publish(Event::AttestationRevoked { subject, id: attestation_id, attester });
        Ok(())
    }

    /// Get an attestation by ID.
    pub fn get_attestation(e: &Ledger, attestation_id: u64) -> (answer: Result<
        Attestation,
        ContractError,
    >)
        ensures
            if e@.storage.attestations.contains_key(attestation_id) {
                answer is Ok && answer->Ok_0@ == e@.storage.attestations[attestation_id]
            } else {
                answer == Err::<Attestation, ContractError>(ContractError::AttestationNotFound)
            },
    {
        match e.storage.attestations.get(&attestation_id) {
            Some(attestation) => Ok(attestation.clone()),
            None => Err(ContractError::AttestationNotFound),
        }
    }

    /// Get live, non-revoked attestation IDs for a subject.
    pub fn get_subject_attestations(e: &Ledger, subject: Address) -> (ids: SubjectIndex)
        ensures
            ids@ == e@.storage.ids_of(subject),
    {
        match e.storage.subject_attestations.get(&subject) {
            Some(ids) => ids.clone(),
            None => SubjectIndex::new(&e.host),
        }
    }

    /// Get the O(1) count of live, non-revoked attestations for a subject.
    pub fn get_subject_attestation_count(e: &Ledger, subject: Address) -> (count: u32)
        ensures
            count == e@.storage.count_of(subject),
    {
        match e.storage.subject_attestation_counts.get(&subject) {
            Some(count) => *count,
            None => 0,
        }
    }

    /// Refuses a change to the register of attesters that the admin has not authorized.
    fn require_attester_registrar(e: &Ledger) -> (checked: Result<(), ContractError>)
        ensures
            checked == check_result(attester_register_refusal(e@)),
    {
        Self::require_not_paused(e)?;
        match e.storage.admin {
            None => Err(ContractError::NotInitialized),
            Some(admin) => e.require_auth(admin),
        }
    }

    /// Register an authorized attester (only admin can call). Blocked while paused.
    pub fn register_attester(e: &mut Ledger, attester: Address) -> (answer: Result<
        (),
        ContractError,
    >)
        ensures
            match attester_register_refusal(old(e)@) {
                Some(refusal) => answer == Err::<(), ContractError>(refusal) && final(e)@ == old(
                    e,
                )@,
                None => answer == Ok::<(), ContractError>(()) && final(e)@
                    == register_attester_accepted(old(e)@, attester),
            },
    {
        Self::require_attester_registrar(e)?;
        e.storage.attesters.set(attester, true);
        e.publish(Event::AttesterRegistered { attester });
        Ok(())
    }

    /// Remove an attester's authorization (only admin can call). Blocked while paused.
    pub fn unregister_attester(e: &mut Ledger, attester: Address) -> (answer: Result<
        (),
        ContractError,
    >)
        ensures
            match attester_register_refusal(old(e)@) {
                Some(refusal) => answer == Err::<(), ContractError>(refusal) && final(e)@ == old(
                    e,
                )@,
                None => answer == Ok::<(), ContractError>(()) && final(e)@
                    == unregister_attester_accepted(old(e)@, attester),
            },
    {
        Self::require_attester_registrar(e)?;
        e.storage.attesters.remove(&attester);
        e.publish(Event::AttesterUnregistered { attester });
        Ok(())
    }

    /// Check if an address is an authorized attester.
    pub fn is_attester(e: &Ledger, attester: Address) -> (registered: bool)
        ensures
            registered == e@.storage.is_attester(attester),
    {
        match e.storage.attesters.get(&attester) {
            Some(registered) => *registered,
            None => false,
        }
    }

    /// Get current nonce for an identity (for replay prevention). Use this value in the next
    /// state-changing call.
    pub fn get_nonce(e: &Ledger, identity: Address) -> (nonce: u64)
        ensures
            nonce == e@.storage.nonce_of(identity),
    {
        nonce::get_nonce(e, &identity)
    }

    /// Set attester stake (admin only). Blocked while paused.
    /// Used for weighted attestation; weight is derived from this.
    pub fn set_attester_stake(
        e: &mut Ledger,
        admin: Address,
        attester: Address,
        amount: i128,
    ) -> (answer: Result<(), ContractError>)
        ensures
            match unpaused_admin_refusal(old(e)@, admin) {
                Some(refusal) => answer == Err::<(), ContractError>(refusal) && final(e)@ == old(
                    e,
                )@,
                None => answer == Ok::<(), ContractError>(()) && final(e)@
                    == set_attester_stake_accepted(old(e)@, attester, amount),
            },
    {
        Self::require_not_paused(e)?;
        Self::require_admin(e, admin)?;
        weighted_attestation::set_attester_stake(e, &attester, amount);
        Ok(())
    }

    /// Set weight config: multiplier_bps (e.g. 100 = 1%), max_attestation_weight. Admin only.
    /// Blocked while paused.
    pub fn set_weight_config(
        e: &mut Ledger,
        admin: Address,
        multiplier_bps: u32,
        max_weight: u32,
    ) -> (answer: Result<(), ContractError>)
        ensures
            match unpaused_admin_refusal(old(e)@, admin) {
                Some(refusal) => answer == Err::<(), ContractError>(refusal) && final(e)@ == old(
                    e,
                )@,
                None => answer == Ok::<(), ContractError>(()) && final(e)@
                    == set_weight_config_accepted(old(e)@, multiplier_bps, max_weight),
            },
    {
        Self::require_not_paused(e)?;
        Self::require_admin(e, admin)?;
        weighted_attestation::set_weight_config(e, multiplier_bps, max_weight);
        Ok(())
    }

    /// Get weight config (multiplier_bps, max_weight).
    pub fn get_weight_config(e: &Ledger) -> (config: (u32, u32))
        ensures
            config == (e@.weight_config().multiplier_bps, e@.weight_config().max_weight),
    {
        weighted_attestation::get_weight_config(e)
    }
}

} // verus!

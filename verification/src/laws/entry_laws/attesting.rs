//! Making attestations and taking them back.

use crate::address::Address;
use crate::contract::CredenceBond;
use crate::effect::{Effect, Event};
use crate::error::ContractError;
use crate::laws::entry_laws::shapes::{leaves, refused};
use crate::laws::measure_laws::law_attesters_weigh_their_own_stake;
use crate::laws::soundness::{is_live, sound};
use crate::ledger::{Ledger, StorageView};
use crate::types::{Attestation, AttestationView, DedupKeyView};
use crate::weighted_attestation::weight_of;
use vstd::prelude::*;

verus! {

/// An attestation can be made by any registered attester who authorizes it and presents its current
/// nonce, unless it has a live one of the same subject with the same data, its weight is above the
/// absolute limit, or a counter is at its end or disagrees with the list.
///
/// It then says what it was asked to say, now, under the next number. Its weight is the largest
/// whole number, up to the configured maximum, that is no more than the configured share of its
/// maker's stake. It is stored, listed last, counted, keyed and announced, and its maker's nonce is
/// used up.
pub proof fn law_add_attestation(
    e: &mut Ledger,
    attester: Address,
    subject: Address,
    data: Vec<u8>,
    nonce: u64,
    answer: Result<Attestation, ContractError>,
)
    requires
        call_ensures(
            CredenceBond::add_attestation,
            (e, attester, subject, data, nonce),
            answer,
        ),
    ensures
        ({
            let s = old(e)@;
            let key = DedupKeyView {
                verifier: attester,
                identity: subject,
                attestation_data: data@,
            };
            let open = !s.storage.paused;
            let authorized = open && s.auths.contains(attester);
            let registered = authorized && s.storage.attesters.contains_key(attester)
                && s.storage.attesters[attester];
            let current = registered && nonce == s.storage.nonce_of(attester);
            let usable = current && nonce < u64::MAX;
            let new = usable && !s.storage.dedup.contains_key(key);
            let numbered = new && s.storage.attestation_counter < u64::MAX;
            let light = numbered && weight_of(s, attester) <= s.rules.max_attestation_weight;
            let counted = light && s.storage.count_of(subject) < u32::MAX;
            let agreed = counted && s.storage.count_of(subject) == s.storage.ids_of(subject).len();
            &&& refused(answer, ContractError::ContractPaused) <==> !open
            &&& refused(answer, ContractError::NotAuthorized(attester)) <==> open && !authorized
            &&& refused(answer, ContractError::UnauthorizedAttester) <==> authorized && !registered
            &&& refused(answer, ContractError::InvalidNonce) <==> registered && !current
            &&& refused(answer, ContractError::NonceOverflow) <==> current && !usable
            &&& refused(answer, ContractError::DuplicateAttestation) <==> usable && !new
            &&& refused(answer, ContractError::AttestationCounterOverflow) <==> new && !numbered
            &&& refused(answer, ContractError::InvalidWeight) <==> numbered && !light
            &&& refused(answer, ContractError::SubjectCountOverflow) <==> light && !counted
            &&& refused(answer, ContractError::SubjectIndexDrift) <==> counted && !agreed
            &&& answer is Ok <==> agreed
        }),
        answer is Err ==> final(e)@ == old(e)@,
        answer matches Ok(made) ==> {
            let s = old(e)@;
            let config = match s.storage.weight_config {
                Some(set) => set,
                None => s.rules.default_weight_config,
            };
            let stake = s.storage.stake_of(attester);
            let w = made@.weight;
            let id = s.storage.attestation_counter;
            let key = DedupKeyView {
                verifier: attester,
                identity: subject,
                attestation_data: data@,
            };
            &&& made@ == (AttestationView {
                id,
                verifier: attester,
                identity: subject,
                timestamp: s.timestamp,
                weight: w,
                attestation_data: data@,
                revoked: false,
            })
            &&& stake < 0 ==> w == 0
            &&& stake >= 0 ==> {
                &&& w <= config.max_weight
                &&& w * 10_000 <= stake * config.multiplier_bps
                &&& w == config.max_weight || stake * config.multiplier_bps < (w + 1) * 10_000
            }
            &&& leaves(
                s,
                final(e)@,
                StorageView {
                    attestations: s.storage.attestations.insert(id, made@),
                    attestation_counter: (id + 1) as u64,
                    subject_attestations: s.storage.subject_attestations.insert(
                        subject,
                        s.storage.ids_of(subject).push(id),
                    ),
                    subject_attestation_counts: s.storage.subject_attestation_counts.insert(
                        subject,
                        (s.storage.count_of(subject) + 1) as u32,
                    ),
                    dedup: s.storage.dedup.insert(key, id),
                    nonces: s.storage.nonces.insert(attester, (nonce + 1) as u64),
                    ..s.storage
                },
                seq![
                    Effect::Publish(
                        Event::AttestationAdded { subject, id, attester, data: data@, weight: w },
                    ),
                ],
            )
        },
{
    law_attesters_weigh_their_own_stake(old(e)@, attester);
}

/// An attestation can be revoked by its verifier, who has to authorize it and present its current
/// nonce, unless it has been revoked before or the subject's list and count are out of order.
///
/// It is then marked and otherwise stays as it was. It leaves its subject's list where it stands
/// first, the count falls by one, its key is free again, its maker's nonce is used up, and the
/// revocation is announced.
pub proof fn law_revoke_attestation(
    e: &mut Ledger,
    attester: Address,
    attestation_id: u64,
    nonce: u64,
    answer: Result<(), ContractError>,
)
    requires
        call_ensures(
            CredenceBond::revoke_attestation,
            (e, attester, attestation_id, nonce),
            answer,
        ),
    ensures
        ({
            let s = old(e)@;
            let attestation = s.storage.attestations[attestation_id];
            let ids = s.storage.ids_of(attestation.identity);
            let count = s.storage.count_of(attestation.identity);
            let open = !s.storage.paused;
            let authorized = open && s.auths.contains(attester);
            let current = authorized && nonce == s.storage.nonce_of(attester);
            let usable = current && nonce < u64::MAX;
            let found = usable && s.storage.attestations.contains_key(attestation_id);
            let own = found && attestation.verifier == attester;
            let live = own && !attestation.revoked;
            let listed = live && ids.contains(attestation_id);
            let counted = listed && count > 0;
            let agreed = counted && count == ids.len();
            &&& refused(answer, ContractError::ContractPaused) <==> !open
            &&& refused(answer, ContractError::NotAuthorized(attester)) <==> open && !authorized
            &&& refused(answer, ContractError::InvalidNonce) <==> authorized && !current
            &&& refused(answer, ContractError::NonceOverflow) <==> current && !usable
            &&& refused(answer, ContractError::AttestationNotFound) <==> usable && !found
            &&& refused(answer, ContractError::NotOriginalAttester) <==> found && !own
            &&& refused(answer, ContractError::AttestationAlreadyRevoked) <==> own && !live
            &&& refused(answer, ContractError::SubjectIndexMissing) <==> live && !listed
            &&& refused(answer, ContractError::SubjectCountUnderflow) <==> listed && !counted
            &&& refused(answer, ContractError::SubjectIndexDrift) <==> counted && !agreed
            &&& answer is Ok <==> agreed
        }),
        answer is Err ==> final(e)@ == old(e)@,
        answer is Ok ==> ({
            let s = old(e)@;
            let before = s.storage.attestations[attestation_id];
            let subject = before.identity;
            let key = DedupKeyView {
                verifier: attester,
                identity: subject,
                attestation_data: before.attestation_data,
            };
            leaves(
                s,
                final(e)@,
                StorageView {
                    attestations: s.storage.attestations.insert(
                        attestation_id,
                        AttestationView { revoked: true, ..before },
                    ),
                    subject_attestations: s.storage.subject_attestations.insert(
                        subject,
                        s.storage.ids_of(subject).remove_value(attestation_id),
                    ),
                    subject_attestation_counts: s.storage.subject_attestation_counts.insert(
                        subject,
                        (s.storage.count_of(subject) - 1) as u32,
                    ),
                    dedup: s.storage.dedup.remove(key),
                    nonces: s.storage.nonces.insert(attester, (nonce + 1) as u64),
                    ..s.storage
                },
                seq![
                    Effect::Publish(
                        Event::AttestationRevoked { subject, id: attestation_id, attester },
                    ),
                ],
            )
        }),
{
}

/// In sound storage, every live attestation can be revoked by its verifier at any time: all it
/// takes is that the contract is not paused and that the verifier authorizes the call and presents
/// its current nonce.
pub proof fn law_maker_can_always_revoke(
    e: &mut Ledger,
    id: u64,
    nonce: u64,
    answer: Result<(), ContractError>,
)
    requires
        sound(old(e)@.storage),
        is_live(old(e)@.storage, id),
        !old(e)@.storage.paused,
        old(e)@.auths.contains(old(e)@.storage.attestations[id].verifier),
        nonce == old(e)@.storage.nonce_of(old(e)@.storage.attestations[id].verifier),
        nonce < u64::MAX,
        call_ensures(
            CredenceBond::revoke_attestation,
            (e, old(e)@.storage.attestations[id].verifier, id, nonce),
            answer,
        ),
    ensures
        answer is Ok,
        !is_live(final(e)@.storage, id),
{
    let storage = old(e)@.storage;
    let subject = storage.attestations[id].identity;
    assert(storage.ids_of(subject).contains(id));
    assert(storage.count_of(subject) == storage.ids_of(subject).len());
}

/// In sound storage, a registered attester can say of any subject, at any time, whatever it has not
/// said already: all it takes is that the contract is not paused, that the attester authorizes the
/// call and presents its current nonce, that its weight is within the limit and that no counter is
/// full.
pub proof fn law_attester_can_always_say_something_new(
    e: &mut Ledger,
    attester: Address,
    subject: Address,
    data: Vec<u8>,
    nonce: u64,
    answer: Result<Attestation, ContractError>,
)
    requires
        sound(old(e)@.storage),
        !old(e)@.storage.paused,
        old(e)@.auths.contains(attester),
        old(e)@.storage.attesters.contains_key(attester) && old(e)@.storage.attesters[attester],
        nonce == old(e)@.storage.nonce_of(attester),
        nonce < u64::MAX,
        forall|id: u64| #[trigger]
            is_live(old(e)@.storage, id) ==> !(old(e)@.storage.attestations[id].verifier == attester
                && old(e)@.storage.attestations[id].identity == subject
                && old(e)@.storage.attestations[id].attestation_data == data@),
        weight_of(old(e)@, attester) <= old(e)@.rules.max_attestation_weight,
        old(e)@.storage.attestation_counter < u64::MAX,
        old(e)@.storage.count_of(subject) < u32::MAX,
        call_ensures(
            CredenceBond::add_attestation,
            (e, attester, subject, data, nonce),
            answer,
        ),
    ensures
        answer is Ok,
        is_live(final(e)@.storage, old(e)@.storage.attestation_counter),
{
    let storage = old(e)@.storage;
    let key = DedupKeyView { verifier: attester, identity: subject, attestation_data: data@ };
    if storage.dedup.contains_key(key) {
        assert(is_live(storage, storage.dedup[key]));
    }
    assert(storage.count_of(subject) == storage.ids_of(subject).len());
}

} // verus!

//! What holds of attestations and of the nonces that protect them.

use crate::address::Address;
use crate::contract::attestations::{
    add_attestation_accepted, add_attestation_refusal, new_attestation, register_attester_accepted,
    revoke_attestation_accepted, revoke_attestation_refusal, unregister_attester_accepted,
};
use crate::error::ContractError;
use crate::laws::calls::{
    after, after_turn, after_turns, attestation_call_accepted, attestation_call_refusal,
    attester_call_accepted, attester_call_refusal, bond_call_accepted, bond_call_refusal,
    custody_call_accepted, custody_call_refusal, guarded_call_accepted, guarded_call_refusal,
    pool_call_accepted, pool_call_refusal, refusal, setup_call_accepted, setup_call_refusal,
    AttestationCall, Call, Turn,
};
use crate::laws::soundness::{is_live, law_calls_keep_storage_sound, sound};
use crate::ledger::LedgerView;
use crate::weighted_attestation::{law_weight_is_bounded, weight_of};
use vstd::prelude::*;

verus! {

/// The nonce that a call presents for an address, if it presents one.
pub open spec fn presented_nonce(call: Call, who: Address) -> Option<u64> {
    match call {
        Call::Attestation(AttestationCall::AddAttestation { attester, nonce, .. }) if attester
            == who => Some(nonce),
        Call::Attestation(AttestationCall::RevokeAttestation { attester, nonce, .. }) if attester
            == who => Some(nonce),
        _ => None,
    }
}

/// A nonce is accepted only if it is the address's current one, and acceptance moves that address,
/// and no other, on by one.
pub proof fn law_nonces_move_by_one(s: LedgerView, call: Call, who: Address)
    ensures
        match presented_nonce(call, who) {
            Some(nonce) if refusal(s, call) is None => {
                &&& nonce == s.storage.nonce_of(who)
                &&& after(s, call).storage.nonce_of(who) == nonce + 1
            },
            _ => after(s, call).storage.nonce_of(who) == s.storage.nonce_of(who),
        },
{
    match call {
        Call::Setup(_) => {
            reveal(setup_call_refusal);
            reveal(setup_call_accepted);
        },
        Call::Attester(_) => {
            reveal(attester_call_refusal);
            reveal(attester_call_accepted);
        },
        Call::Attestation(_) => {
            reveal(attestation_call_refusal);
            reveal(attestation_call_accepted);
        },
        Call::Bond(_) => {
            reveal(bond_call_refusal);
            reveal(bond_call_accepted);
        },
        Call::Custody(_) => {
            reveal(custody_call_refusal);
            reveal(custody_call_accepted);
        },
        Call::Guarded(_) => {
            reveal(guarded_call_refusal);
            reveal(guarded_call_accepted);
        },
        Call::Pool(_) => {
            reveal(pool_call_refusal);
            reveal(pool_call_accepted);
        },
    }
}

/// No turns take a nonce back.
pub proof fn law_nonces_never_go_back(s: LedgerView, turns: Seq<Turn>, who: Address)
    ensures
        after_turns(s, turns).storage.nonce_of(who) >= s.storage.nonce_of(who),
    decreases turns.len(),
{
    if turns.len() > 0 {
        law_nonces_never_go_back(s, turns.drop_last(), who);
        let before = after_turns(s, turns.drop_last());
        let turn = turns.last();
        law_nonces_move_by_one(
            LedgerView { timestamp: turn.timestamp, auths: turn.auths, ..before },
            turn.call,
            who,
        );
    }
}

/// A call that has been accepted can never be replayed: after it, and after whatever turns follow,
/// any call that presents the same nonce for the same address is refused, at any time and with any
/// authorizations.
pub proof fn law_accepted_nonce_cannot_be_replayed(
    s: LedgerView,
    first: Call,
    turns: Seq<Turn>,
    replay: Turn,
    who: Address,
)
    requires
        refusal(s, first) is None,
        presented_nonce(first, who) is Some,
        presented_nonce(replay.call, who) == presented_nonce(first, who),
    ensures
        after_turn(after_turns(after(s, first), turns), replay) == (LedgerView {
            timestamp: replay.timestamp,
            auths: replay.auths,
            ..after_turns(after(s, first), turns)
        }),
        refusal(
            LedgerView {
                timestamp: replay.timestamp,
                auths: replay.auths,
                ..after_turns(after(s, first), turns)
            },
            replay.call,
        ) is Some,
{
    law_nonces_move_by_one(s, first, who);
    law_nonces_never_go_back(after(s, first), turns, who);
    let later = LedgerView {
        timestamp: replay.timestamp,
        auths: replay.auths,
        ..after_turns(after(s, first), turns)
    };
    law_nonces_move_by_one(later, replay.call, who);
}

/// An attestation that has just been made is found under its number, closes its subject's list, and
/// raises its subject's count by one.
pub proof fn law_made_attestation_is_found(
    s: LedgerView,
    attester: Address,
    subject: Address,
    data: Seq<u8>,
    nonce: u64,
)
    requires
        add_attestation_refusal(s, attester, subject, data, nonce) is None,
    ensures
        ({
            let made = new_attestation(s, attester, subject, data);
            let storage = add_attestation_accepted(s, attester, subject, data).storage;
            &&& storage.attestations.contains_key(made.id)
            &&& storage.attestations[made.id] == made
            &&& storage.ids_of(subject) == s.storage.ids_of(subject).push(made.id)
            &&& storage.count_of(subject) == s.storage.count_of(subject) + 1
            &&& is_live(storage, made.id)
        }),
{
}

/// The weight of an accepted attestation is what its maker's stake is worth, and is above neither
/// the configured nor the absolute limit.
pub proof fn law_attestation_weight_is_bounded(
    s: LedgerView,
    attester: Address,
    subject: Address,
    data: Seq<u8>,
    nonce: u64,
)
    requires
        add_attestation_refusal(s, attester, subject, data, nonce) is None,
    ensures
        new_attestation(s, attester, subject, data).weight == weight_of(s, attester),
        new_attestation(s, attester, subject, data).weight <= s.weight_config().max_weight,
        new_attestation(s, attester, subject, data).weight <= s.rules.max_attestation_weight,
{
    law_weight_is_bounded(s.storage.stake_of(attester) as int, s.weight_config());
}

/// As long as an attestation is live, its maker cannot make another of the same subject with the
/// same data; where nothing else stands in the way, the reason given is the duplication.
pub proof fn law_live_attestation_cannot_be_duplicated(s: LedgerView, id: u64, nonce: u64)
    requires
        sound(s.storage),
        is_live(s.storage, id),
    ensures
        ({
            let a = s.storage.attestations[id];
            let refused = add_attestation_refusal(
                s,
                a.verifier,
                a.identity,
                a.attestation_data,
                nonce,
            );
            &&& refused is Some
            &&& (!s.storage.paused && s.auths.contains(a.verifier) && s.storage.is_attester(
                a.verifier,
            ) && nonce == s.storage.nonce_of(a.verifier) && nonce < u64::MAX) ==> refused == Some(
                ContractError::DuplicateAttestation,
            )
        }),
{
    let a = s.storage.attestations[id];
    assert(s.storage.dedup.contains_key(a.dedup_key()));
}

/// Once an attestation has been taken back, the same statement is no longer a duplicate.
pub proof fn law_revoked_attestation_can_be_made_again(
    s: LedgerView,
    attester: Address,
    attestation_id: u64,
    nonce: u64,
)
    requires
        revoke_attestation_refusal(s, attester, attestation_id, nonce) is None,
    ensures
        ({
            let a = s.storage.attestations[attestation_id];
            let later = revoke_attestation_accepted(s, attester, attestation_id);
            forall|next: u64|
                #![auto]
                add_attestation_refusal(later, a.verifier, a.identity, a.attestation_data, next)
                    != Some(ContractError::DuplicateAttestation)
        }),
{
    let a = s.storage.attestations[attestation_id];
    let later = revoke_attestation_accepted(s, attester, attestation_id);
    assert(!later.storage.dedup.contains_key(a.dedup_key()));
}

/// A revoked attestation stays on record, marked as revoked and otherwise as it was, and leaves its
/// subject's list; it cannot be revoked again.
pub proof fn law_revoked_attestation_stays_on_record(
    s: LedgerView,
    attester: Address,
    attestation_id: u64,
    nonce: u64,
)
    requires
        sound(s.storage),
        revoke_attestation_refusal(s, attester, attestation_id, nonce) is None,
    ensures
        ({
            let before = s.storage.attestations[attestation_id];
            let later = revoke_attestation_accepted(s, attester, attestation_id);
            &&& later.storage.attestations.contains_key(attestation_id)
            &&& later.storage.attestations[attestation_id] == before.revoke()
            &&& !later.storage.ids_of(before.identity).contains(attestation_id)
            &&& later.storage.count_of(before.identity) == s.storage.count_of(before.identity) - 1
            &&& forall|who: Address, next: u64|
                #[trigger] revoke_attestation_refusal(later, who, attestation_id, next) is Some
        }),
{
    let before = s.storage.attestations[attestation_id];
    let later = revoke_attestation_accepted(s, attester, attestation_id);
    reveal(attestation_call_refusal);
    reveal(attestation_call_accepted);
    law_calls_keep_storage_sound(
        s,
        Call::Attestation(
            AttestationCall::RevokeAttestation { attester, attestation_id, nonce },
        ),
    );
    let ids = later.storage.ids_of(before.identity);
    if ids.contains(attestation_id) {
        let i = choose|i: int| 0 <= i < ids.len() && ids[i] == attestation_id;
        assert(is_live(later.storage, later.storage.ids_of(before.identity)[i]));
    }
}

/// Only its maker can revoke an attestation.
pub proof fn law_only_maker_can_revoke(
    s: LedgerView,
    attester: Address,
    attestation_id: u64,
    nonce: u64,
)
    requires
        revoke_attestation_refusal(s, attester, attestation_id, nonce) is None,
    ensures
        s.storage.attestations[attestation_id].verifier == attester,
        s.auths.contains(attester),
{
}

/// To revoke an attestation right after making it restores its subject's list and count, and every
/// deduplication key.
pub proof fn law_revoking_undoes_making(
    s: LedgerView,
    attester: Address,
    subject: Address,
    data: Seq<u8>,
    nonce: u64,
)
    requires
        sound(s.storage),
        add_attestation_refusal(s, attester, subject, data, nonce) is None,
        nonce + 1 < u64::MAX,
    ensures
        ({
            let id = s.storage.attestation_counter;
            let made = add_attestation_accepted(s, attester, subject, data);
            let undone = revoke_attestation_accepted(made, attester, id);
            &&& revoke_attestation_refusal(made, attester, id, (nonce + 1) as u64) is None
            &&& undone.storage.ids_of(subject) == s.storage.ids_of(subject)
            &&& undone.storage.count_of(subject) == s.storage.count_of(subject)
            &&& undone.storage.dedup == s.storage.dedup
        }),
{
    let id = s.storage.attestation_counter;
    let made = add_attestation_accepted(s, attester, subject, data);
    let undone = revoke_attestation_accepted(made, attester, id);
    let ids = s.storage.ids_of(subject);
    let listed = made.storage.ids_of(subject);
    assert(listed == ids.push(id));
    assert(listed[ids.len() as int] == id);
    assert forall|i: int| 0 <= i < ids.len() implies ids[i] != id by {
        assert(is_live(s.storage, s.storage.ids_of(subject)[i]));
    }
    listed.index_of_first_ensures(id);
    assert(listed.index_of_first(id) == Some(ids.len() as int));
    assert(listed.remove(ids.len() as int) =~= ids);
    assert(undone.storage.dedup =~= s.storage.dedup);
}

/// In sound storage the subject's list and count never disagree, so no call is refused for that.
pub proof fn law_index_never_drifts(s: LedgerView, call: Call)
    requires
        sound(s.storage),
    ensures
        refusal(s, call) != Some(ContractError::SubjectIndexDrift),
        refusal(s, call) != Some(ContractError::SubjectIndexMissing),
        refusal(s, call) != Some(ContractError::SubjectCountUnderflow),
{
    match call {
        Call::Setup(_) => {
            reveal(setup_call_refusal);
        },
        Call::Attester(_) => {
            reveal(attester_call_refusal);
        },
        Call::Bond(_) => {
            reveal(bond_call_refusal);
        },
        Call::Custody(_) => {
            reveal(custody_call_refusal);
        },
        Call::Guarded(_) => {
            reveal(guarded_call_refusal);
        },
        Call::Pool(_) => {
            reveal(pool_call_refusal);
        },
        Call::Attestation(AttestationCall::AddAttestation { subject, .. }) => {
            reveal(attestation_call_refusal);
            assert(s.storage.count_of(subject) == s.storage.ids_of(subject).len());
        },
        Call::Attestation(AttestationCall::RevokeAttestation { attestation_id, .. }) => {
            reveal(attestation_call_refusal);
            let subject = s.storage.attestations[attestation_id].identity;
            assert(s.storage.count_of(subject) == s.storage.ids_of(subject).len());
            if is_live(s.storage, attestation_id) {
                assert(s.storage.ids_of(subject).contains(attestation_id));
            }
        },
    }
}

/// Once made, an attestation is never lost, changed or renumbered; all that can happen to it is
/// that it is revoked, and then it stays so.
pub proof fn law_attestations_are_permanent(s: LedgerView, turns: Seq<Turn>, id: u64)
    requires
        sound(s.storage),
        s.storage.attestations.contains_key(id),
    ensures
        after_turns(s, turns).storage.attestations.contains_key(id),
        ({
            let before = s.storage.attestations[id];
            let later = after_turns(s, turns).storage.attestations[id];
            later == before || later == before.revoke()
        }),
        sound(after_turns(s, turns).storage),
    decreases turns.len(),
{
    if turns.len() > 0 {
        law_attestations_are_permanent(s, turns.drop_last(), id);
        let before = after_turns(s, turns.drop_last());
        let turn = turns.last();
        let now = LedgerView { timestamp: turn.timestamp, auths: turn.auths, ..before };
        law_calls_keep_storage_sound(now, turn.call);
        lemma_call_keeps_attestation(now, turn.call, id);
    }
}

/// One call leaves an attestation as it was or revokes it.
proof fn lemma_call_keeps_attestation(s: LedgerView, call: Call, id: u64)
    requires
        sound(s.storage),
        s.storage.attestations.contains_key(id),
    ensures
        after(s, call).storage.attestations.contains_key(id),
        ({
            let before = s.storage.attestations[id];
            let later = after(s, call).storage.attestations[id];
            later == before || later == before.revoke()
        }),
{
    match call {
        Call::Setup(_) => {
            reveal(setup_call_refusal);
            reveal(setup_call_accepted);
        },
        Call::Attester(_) => {
            reveal(attester_call_refusal);
            reveal(attester_call_accepted);
        },
        Call::Attestation(_) => {
            reveal(attestation_call_refusal);
            reveal(attestation_call_accepted);
        },
        Call::Bond(_) => {
            reveal(bond_call_refusal);
            reveal(bond_call_accepted);
        },
        Call::Custody(_) => {
            reveal(custody_call_refusal);
            reveal(custody_call_accepted);
        },
        Call::Guarded(_) => {
            reveal(guarded_call_refusal);
            reveal(guarded_call_accepted);
        },
        Call::Pool(_) => {
            reveal(pool_call_refusal);
            reveal(pool_call_accepted);
        },
    }
}

/// Whether a call makes an attestation.
pub open spec fn is_add(call: Call) -> bool {
    call matches Call::Attestation(attestation_call) && attestation_call is AddAttestation
}

/// Attestation numbers are given out in order and never twice: making an attestation uses up the
/// next unused number, and no other call touches the counter.
pub proof fn law_numbers_are_never_reused(s: LedgerView, call: Call)
    requires
        sound(s.storage),
    ensures
        is_add(call) && refusal(s, call) is None ==> {
            &&& !s.storage.attestations.contains_key(s.storage.attestation_counter)
            &&& after(s, call).storage.attestation_counter == s.storage.attestation_counter + 1
        },
        !(is_add(call) && refusal(s, call) is None) ==> after(
            s,
            call,
        ).storage.attestation_counter == s.storage.attestation_counter,
{
    match call {
        Call::Setup(_) => {
            reveal(setup_call_refusal);
            reveal(setup_call_accepted);
        },
        Call::Attester(_) => {
            reveal(attester_call_refusal);
            reveal(attester_call_accepted);
        },
        Call::Attestation(_) => {
            reveal(attestation_call_refusal);
            reveal(attestation_call_accepted);
        },
        Call::Bond(_) => {
            reveal(bond_call_refusal);
            reveal(bond_call_accepted);
        },
        Call::Custody(_) => {
            reveal(custody_call_refusal);
            reveal(custody_call_accepted);
        },
        Call::Guarded(_) => {
            reveal(guarded_call_refusal);
            reveal(guarded_call_accepted);
        },
        Call::Pool(_) => {
            reveal(pool_call_refusal);
            reveal(pool_call_accepted);
        },
    }
}

/// Registering an attester makes it one and unregistering it makes it none, whatever it was before;
/// no other address is affected, and an address that is not registered cannot attest.
pub proof fn law_register_decides_who_may_attest(s: LedgerView, attester: Address, other: Address)
    ensures
        register_attester_accepted(s, attester).storage.is_attester(attester),
        !unregister_attester_accepted(s, attester).storage.is_attester(attester),
        other != attester ==> {
            &&& register_attester_accepted(s, attester).storage.is_attester(other)
                == s.storage.is_attester(other)
            &&& unregister_attester_accepted(s, attester).storage.is_attester(other)
                == s.storage.is_attester(other)
        },
        forall|subject: Address, data: Seq<u8>, nonce: u64|
            !s.storage.is_attester(attester) ==> #[trigger] add_attestation_refusal(
                s,
                attester,
                subject,
                data,
                nonce,
            ) is Some,
{
}

} // verus!

//! What a call reads and what it changes.

use crate::laws::calls::{
    after, attestation_call_accepted, attestation_call_refusal, attester_call_accepted,
    attester_call_refusal, bond_call_accepted, bond_call_refusal, custody_call_accepted,
    custody_call_refusal, guarded_call_accepted, guarded_call_refusal, pool_call_accepted,
    pool_call_refusal, refusal, setup_call_accepted, setup_call_refusal, AttestationCall,
    AttesterCall, Call, CustodyCall, GuardedCall, SetupCall,
};
use crate::ledger::{DataKey, LedgerView, StorageView};
use crate::types::DedupKeyView;
use vstd::prelude::*;

verus! {

/// Whether a call may change what a slot holds.
pub open spec fn may_change(storage: StorageView, call: Call, key: DataKey) -> bool {
    match call {
        Call::Setup(SetupCall::Initialize { .. }) => {
            key == DataKey::Admin || key == DataKey::Token || key == DataKey::Paused
        },
        Call::Setup(SetupCall::Pause { .. }) => key == DataKey::Paused,
        Call::Setup(SetupCall::Unpause { .. }) => key == DataKey::Paused,
        Call::Setup(_) => false,
        Call::Attester(AttesterCall::RegisterAttester { attester }) => key == DataKey::Attester(
            attester,
        ),
        Call::Attester(AttesterCall::UnregisterAttester { attester }) => key == DataKey::Attester(
            attester,
        ),
        Call::Attester(AttesterCall::SetAttesterStake { attester, .. }) => key
            == DataKey::AttesterStake(attester),
        Call::Attester(AttesterCall::SetWeightConfig { .. }) => false,
        Call::Attestation(AttestationCall::AddAttestation { attester, subject, .. }) => {
            ||| key == DataKey::Nonce(attester)
            ||| key == DataKey::AttestationCounter
            ||| key == DataKey::Attestation(storage.attestation_counter)
            ||| key == DataKey::SubjectAttestations(subject)
            ||| key == DataKey::SubjectAttestationCount(subject)
        },
        Call::Attestation(AttestationCall::RevokeAttestation { attester, attestation_id, .. }) => {
            let subject = storage.attestations[attestation_id].identity;
            ||| key == DataKey::Nonce(attester)
            ||| key == DataKey::Attestation(attestation_id)
            ||| key == DataKey::SubjectAttestations(subject)
            ||| key == DataKey::SubjectAttestationCount(subject)
        },
        Call::Bond(_) => key == DataKey::Bond,
        Call::Custody(CustodyCall::PullTokens { .. }) => false,
        Call::Custody(_) => key == DataKey::Bond,
        Call::Guarded(GuardedCall::CollectFees { .. }) => false,
        Call::Guarded(_) => key == DataKey::Bond,
        Call::Pool(_) => false,
    }
}

/// A call leaves every slot alone that it has no business with: those of other attesters, other
/// subjects and other attestations among them.
pub proof fn law_calls_leave_other_slots_alone(s: LedgerView, call: Call, key: DataKey)
    requires
        !may_change(s.storage, call, key),
    ensures
        s.storage.agrees(after(s, call).storage, key),
{
    match call {
        Call::Setup(_) => {
            reveal(setup_call_accepted);
        },
        Call::Attester(_) => {
            reveal(attester_call_accepted);
        },
        Call::Attestation(_) => {
            reveal(attestation_call_accepted);
        },
        Call::Bond(_) => {
            reveal(bond_call_accepted);
        },
        Call::Custody(_) => {
            reveal(custody_call_accepted);
        },
        Call::Guarded(_) => {
            reveal(guarded_call_accepted);
        },
        Call::Pool(_) => {
            reveal(pool_call_accepted);
        },
    }
}

/// Whether a call may look at what a slot holds: the slots that there is only one of, those of the
/// addresses that the call names, and, where it names an attestation, that one's and its subject's.
pub open spec fn may_read(storage: StorageView, call: Call, key: DataKey) -> bool {
    ||| key == DataKey::Admin || key == DataKey::Paused || key == DataKey::Token || key
        == DataKey::Bond || key == DataKey::AttestationCounter
    ||| match call {
        Call::Attestation(AttestationCall::AddAttestation { attester, subject, .. }) => {
            ||| key == DataKey::Attester(attester)
            ||| key == DataKey::Nonce(attester)
            ||| key == DataKey::AttesterStake(attester)
            ||| key == DataKey::SubjectAttestations(subject)
            ||| key == DataKey::SubjectAttestationCount(subject)
        },
        Call::Attestation(AttestationCall::RevokeAttestation { attester, attestation_id, .. }) => {
            let subject = storage.attestations[attestation_id].identity;
            ||| key == DataKey::Nonce(attester)
            ||| key == DataKey::Attestation(attestation_id)
            ||| storage.attestations.contains_key(attestation_id) && (key
                == DataKey::SubjectAttestations(subject) || key == DataKey::SubjectAttestationCount(
                subject,
            ))
        },
        _ => false,
    }
}

/// The deduplication key that a call looks up, if it looks one up.
pub open spec fn looked_up(call: Call) -> Option<DedupKeyView> {
    match call {
        Call::Attestation(AttestationCall::AddAttestation { attester, subject, data, .. }) => Some(
            DedupKeyView { verifier: attester, identity: subject, attestation_data: data },
        ),
        _ => None,
    }
}

/// Whether two ledgers differ at most in slots that a call does not look at.
pub open spec fn look_alike(s: LedgerView, t: LedgerView, call: Call) -> bool {
    &&& s.contract == t.contract
    &&& s.timestamp == t.timestamp
    &&& s.auths == t.auths
    &&& s.rules == t.rules
    &&& s.effects == t.effects
    &&& s.storage.weight_config == t.storage.weight_config
    &&& s.storage.early_exit == t.storage.early_exit
    &&& s.storage.fees == t.storage.fees
    &&& s.storage.callback == t.storage.callback
    &&& s.storage.locked == t.storage.locked
    &&& forall|key: DataKey| #[trigger]
        may_read(s.storage, call, key) ==> s.storage.agrees(t.storage, key)
    &&& looked_up(call) matches Some(key) ==> s.storage.dedup.contains_key(key)
        == t.storage.dedup.contains_key(key)
}

/// A call is answered by what the slots hold that it may look at, and asks the same of the ledger
/// wherever those are the same; whatever else is stored makes no difference.
pub proof fn law_answers_depend_on_few_slots(s: LedgerView, t: LedgerView, call: Call)
    requires
        look_alike(s, t, call),
    ensures
        refusal(s, call) == refusal(t, call),
        after(s, call).effects == after(t, call).effects,
{
    assert(may_read(s.storage, call, DataKey::Admin));
    assert(may_read(s.storage, call, DataKey::Paused));
    assert(may_read(s.storage, call, DataKey::Token));
    assert(may_read(s.storage, call, DataKey::Bond));
    assert(may_read(s.storage, call, DataKey::AttestationCounter));
    match call {
        Call::Setup(_) => {
            reveal(setup_call_refusal);
            reveal(setup_call_accepted);
        },
        Call::Attester(_) => {
            reveal(attester_call_refusal);
            reveal(attester_call_accepted);
        },
        Call::Attestation(AttestationCall::AddAttestation { attester, subject, .. }) => {
            reveal(attestation_call_refusal);
            reveal(attestation_call_accepted);
            assert(may_read(s.storage, call, DataKey::Attester(attester)));
            assert(may_read(s.storage, call, DataKey::Nonce(attester)));
            assert(may_read(s.storage, call, DataKey::AttesterStake(attester)));
            assert(may_read(s.storage, call, DataKey::SubjectAttestations(subject)));
            assert(may_read(s.storage, call, DataKey::SubjectAttestationCount(subject)));
        },
        Call::Attestation(AttestationCall::RevokeAttestation { attester, attestation_id, .. }) => {
            reveal(attestation_call_refusal);
            reveal(attestation_call_accepted);
            let subject = s.storage.attestations[attestation_id].identity;
            assert(may_read(s.storage, call, DataKey::Nonce(attester)));
            assert(may_read(s.storage, call, DataKey::Attestation(attestation_id)));
            if s.storage.attestations.contains_key(attestation_id) {
                assert(may_read(s.storage, call, DataKey::SubjectAttestations(subject)));
                assert(may_read(s.storage, call, DataKey::SubjectAttestationCount(subject)));
            }
        },
        Call::Bond(_) => {
            reveal(bond_call_refusal);
            reveal(bond_call_accepted);
        },
        Call::Custody(_) => {
            reveal(custody_call_refusal);
            reveal(custody_call_accepted);
        },
        Call::Guarded(_) => {
            reveal(guarded_call_refusal);
            reveal(guarded_call_accepted);
        },
        Call::Pool(_) => {
            reveal(pool_call_refusal);
            reveal(pool_call_accepted);
        },
    }
}

} // verus!

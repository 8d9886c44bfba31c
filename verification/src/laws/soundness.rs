//! What holds of the storage between calls.

use crate::address::Address;
use crate::contract::attestations::{
    add_attestation_accepted, add_attestation_refusal, new_attestation, revoke_attestation_accepted,
    revoke_attestation_refusal,
};
use crate::laws::calls::{
    accepted, after, after_turns, attestation_call_accepted, attestation_call_refusal,
    attester_call_accepted, attester_call_refusal, bond_call_accepted, bond_call_refusal,
    custody_call_accepted, custody_call_refusal, guarded_call_accepted, guarded_call_refusal,
    pool_call_accepted, pool_call_refusal, refusal, setup_call_accepted, setup_call_refusal,
    AttestationCall, Call, Turn,
};
use crate::ledger::{LedgerView, StorageView};
use crate::types::DedupKeyView;
use vstd::prelude::*;

verus! {

/// Whether an attestation of this number stands and has not been revoked.
pub open spec fn is_live(storage: StorageView, id: u64) -> bool {
    storage.attestations.contains_key(id) && !storage.attestations[id].revoked
}

/// Every attestation is kept under its own number, and numbers not given out yet are unused.
pub open spec fn numbering_sound(storage: StorageView) -> bool {
    forall|id: u64| #[trigger]
        storage.attestations.contains_key(id) ==> {
            &&& storage.attestations[id].id == id
            &&& id < storage.attestation_counter
        }
}

/// Whether numbers come in rising order, the oldest attestation first.
pub open spec fn rising(ids: Seq<u64>) -> bool {
    forall|i: int, j: int| 0 <= i < j < ids.len() ==> ids[i] < ids[j]
}

/// A subject's list holds the numbers of its live attestations, each once and the oldest first, and
/// its count is the length of the list.
pub open spec fn index_sound(storage: StorageView) -> bool {
    &&& forall|id: u64| #[trigger]
        is_live(storage, id) ==> storage.ids_of(storage.attestations[id].identity).contains(id)
    &&& forall|subject: Address, i: int|
        0 <= i < storage.ids_of(subject).len() ==> {
            &&& is_live(storage, #[trigger] storage.ids_of(subject)[i])
            &&& storage.attestations[storage.ids_of(subject)[i]].identity == subject
        }
    &&& forall|subject: Address| (#[trigger] storage.ids_of(subject)).no_duplicates()
    &&& forall|subject: Address| rising(#[trigger] storage.ids_of(subject))
    &&& forall|subject: Address| #[trigger]
        storage.count_of(subject) == storage.ids_of(subject).len()
}

/// The deduplication keys are those of the live attestations, each leading to its attestation.
pub open spec fn dedup_sound(storage: StorageView) -> bool {
    &&& forall|id: u64| #[trigger]
        is_live(storage, id) ==> {
            &&& storage.dedup.contains_key(storage.attestations[id].dedup_key())
            &&& storage.dedup[storage.attestations[id].dedup_key()] == id
        }
    &&& forall|key: DedupKeyView| #[trigger]
        storage.dedup.contains_key(key) ==> {
            &&& is_live(storage, storage.dedup[key])
            &&& storage.attestations[storage.dedup[key]].dedup_key() == key
        }
}

/// The bond, if there is one, holds amounts that make sense.
pub open spec fn bond_sound(storage: StorageView) -> bool {
    storage.bond matches Some(bond) ==> bond.sound()
}

/// What holds of the storage between calls.
pub open spec fn sound(storage: StorageView) -> bool {
    &&& numbering_sound(storage)
    &&& index_sound(storage)
    &&& dedup_sound(storage)
    &&& bond_sound(storage)
}

/// Making an attestation keeps the storage sound.
proof fn lemma_add_attestation_is_sound(
    s: LedgerView,
    attester: Address,
    subject: Address,
    data: Seq<u8>,
    nonce: u64,
)
    requires
        sound(s.storage),
        add_attestation_refusal(s, attester, subject, data, nonce) is None,
    ensures
        sound(add_attestation_accepted(s, attester, subject, data).storage),
{
    let before = s.storage;
    let after = add_attestation_accepted(s, attester, subject, data).storage;
    let made = new_attestation(s, attester, subject, data);
    let id = made.id;
    assert(!before.attestations.contains_key(id));
    assert(after.ids_of(subject) == before.ids_of(subject).push(id));
    assert forall|other: Address| other != subject implies #[trigger] after.ids_of(other)
        == before.ids_of(other) by {}
    assert forall|n: u64| n != id implies #[trigger] is_live(after, n) == is_live(before, n) by {}
    assert(is_live(after, id));
    assert forall|n: u64| #[trigger] is_live(after, n) implies after.ids_of(
        after.attestations[n].identity,
    ).contains(n) by {
        if n == id {
            assert(after.ids_of(subject)[before.ids_of(subject).len() as int] == id);
        } else {
            assert(is_live(before, n));
            let owner = before.attestations[n].identity;
            let ids = before.ids_of(owner);
            let i = choose|i: int| 0 <= i < ids.len() && ids[i] == n;
            assert(after.ids_of(owner)[i] == n);
        }
    }
    assert forall|owner: Address, i: int| 0 <= i < after.ids_of(owner).len() implies {
        &&& is_live(after, #[trigger] after.ids_of(owner)[i])
        &&& after.attestations[after.ids_of(owner)[i]].identity == owner
    } by {
        if owner == subject && i == before.ids_of(subject).len() {
            assert(after.ids_of(owner)[i] == id);
        } else {
            assert(after.ids_of(owner)[i] == before.ids_of(owner)[i]);
            assert(is_live(before, before.ids_of(owner)[i]));
        }
    }
    assert forall|owner: Address| (#[trigger] after.ids_of(owner)).no_duplicates() by {
        assert(before.ids_of(owner).no_duplicates());
        if owner == subject {
            assert forall|i: int| 0 <= i < before.ids_of(subject).len() implies before.ids_of(
                subject,
            )[i] != id by {
                assert(is_live(before, before.ids_of(subject)[i]));
            }
        }
    }
    assert forall|owner: Address| rising(#[trigger] after.ids_of(owner)) by {
        assert(rising(before.ids_of(owner)));
        if owner == subject {
            assert forall|i: int| 0 <= i < before.ids_of(subject).len() implies before.ids_of(
                subject,
            )[i] < id by {
                assert(is_live(before, before.ids_of(subject)[i]));
            }
        }
    }
    assert forall|owner: Address| #[trigger] after.count_of(owner) == after.ids_of(owner).len() by {
        assert(before.count_of(owner) == before.ids_of(owner).len());
    }
    assert forall|n: u64| #[trigger] is_live(after, n) implies {
        &&& after.dedup.contains_key(after.attestations[n].dedup_key())
        &&& after.dedup[after.attestations[n].dedup_key()] == n
    } by {
        if n != id {
            assert(is_live(before, n));
        }
    }
    assert forall|key: DedupKeyView| #[trigger] after.dedup.contains_key(key) implies {
        &&& is_live(after, after.dedup[key])
        &&& after.attestations[after.dedup[key]].dedup_key() == key
    } by {
        if key != made.dedup_key() {
            assert(before.dedup.contains_key(key));
        }
    }
}

/// Taking an attestation back keeps the storage sound.
proof fn lemma_revoke_attestation_is_sound(
    s: LedgerView,
    attester: Address,
    attestation_id: u64,
    nonce: u64,
)
    requires
        sound(s.storage),
        revoke_attestation_refusal(s, attester, attestation_id, nonce) is None,
    ensures
        sound(revoke_attestation_accepted(s, attester, attestation_id).storage),
{
    let before = s.storage;
    let after = revoke_attestation_accepted(s, attester, attestation_id).storage;
    let id = attestation_id;
    let revoked = before.attestations[id];
    let subject = revoked.identity;
    let ids = before.ids_of(subject);
    ids.index_of_first_ensures(id);
    let at = ids.index_of_first(id)->0;
    assert(is_live(before, id));
    assert(after.ids_of(subject) == ids.remove(at));
    assert(ids.no_duplicates());
    assert forall|other: Address| other != subject implies #[trigger] after.ids_of(other)
        == before.ids_of(other) by {}
    assert forall|n: u64| n != id implies #[trigger] is_live(after, n) == is_live(before, n) by {}
    assert(!is_live(after, id));
    assert forall|n: u64| #[trigger] is_live(after, n) implies after.ids_of(
        after.attestations[n].identity,
    ).contains(n) by {
        assert(is_live(before, n));
        let owner = before.attestations[n].identity;
        let i = choose|i: int| 0 <= i < before.ids_of(owner).len() && before.ids_of(owner)[i] == n;
        if owner == subject {
            if i < at {
                assert(after.ids_of(owner)[i] == n);
            } else {
                assert(after.ids_of(owner)[i - 1] == n);
            }
        } else {
            assert(after.ids_of(owner)[i] == n);
        }
    }
    assert forall|owner: Address, i: int| 0 <= i < after.ids_of(owner).len() implies {
        &&& is_live(after, #[trigger] after.ids_of(owner)[i])
        &&& after.attestations[after.ids_of(owner)[i]].identity == owner
    } by {
        if owner == subject {
            let j = if i < at {
                i
            } else {
                i + 1
            };
            assert(after.ids_of(owner)[i] == ids[j]);
            assert(ids[j] != id);
            assert(is_live(before, before.ids_of(owner)[j]));
        } else {
            assert(after.ids_of(owner)[i] == before.ids_of(owner)[i]);
            assert(is_live(before, before.ids_of(owner)[i]));
            assert(before.ids_of(owner)[i] != id);
        }
    }
    assert forall|owner: Address| (#[trigger] after.ids_of(owner)).no_duplicates() by {
        assert(before.ids_of(owner).no_duplicates());
    }
    assert forall|owner: Address| rising(#[trigger] after.ids_of(owner)) by {
        assert(rising(before.ids_of(owner)));
    }
    assert forall|owner: Address| #[trigger] after.count_of(owner) == after.ids_of(owner).len() by {
        assert(before.count_of(owner) == before.ids_of(owner).len());
    }
    assert forall|n: u64| #[trigger] is_live(after, n) implies {
        &&& after.dedup.contains_key(after.attestations[n].dedup_key())
        &&& after.dedup[after.attestations[n].dedup_key()] == n
    } by {
        assert(is_live(before, n));
    }
    assert forall|key: DedupKeyView| #[trigger] after.dedup.contains_key(key) implies {
        &&& is_live(after, after.dedup[key])
        &&& after.attestations[after.dedup[key]].dedup_key() == key
    } by {
        assert(before.dedup.contains_key(key));
    }
}

/// What the soundness of attestations is about has not changed.
spec fn same_attestations(a: StorageView, b: StorageView) -> bool {
    &&& a.attestations == b.attestations
    &&& a.attestation_counter == b.attestation_counter
    &&& a.subject_attestations == b.subject_attestations
    &&& a.subject_attestation_counts == b.subject_attestation_counts
    &&& a.dedup == b.dedup
}

/// Storage with the same attestations is as sound in them.
proof fn lemma_same_attestations(a: StorageView, b: StorageView)
    requires
        sound(a),
        same_attestations(a, b),
        bond_sound(b),
    ensures
        sound(b),
{
    assert forall|subject: Address| #[trigger] b.ids_of(subject) == a.ids_of(subject) by {}
    assert forall|subject: Address| #[trigger] b.count_of(subject) == a.count_of(subject) by {}
    assert forall|id: u64| #[trigger] is_live(b, id) == is_live(a, id) by {}
    assert forall|subject: Address| #[trigger]
        b.count_of(subject) == b.ids_of(subject).len() by {
        assert(a.count_of(subject) == a.ids_of(subject).len());
    }
    assert forall|subject: Address| (#[trigger] b.ids_of(subject)).no_duplicates() by {
        assert(a.ids_of(subject).no_duplicates());
    }
    assert forall|subject: Address| rising(#[trigger] b.ids_of(subject)) by {
        assert(rising(a.ids_of(subject)));
    }
}

/// Calls that do not make or take back an attestation leave the attestations alone.
proof fn lemma_other_calls_leave_attestations(s: LedgerView, call: Call)
    requires
        !(call is Attestation),
    ensures
        same_attestations(s.storage, accepted(s, call).storage),
{
    match call {
        Call::Setup(_) => {
            reveal(setup_call_accepted);
        },
        Call::Attester(_) => {
            reveal(attester_call_accepted);
        },
        Call::Attestation(_) => {
            reveal(attestation_call_accepted);
        },
        Call::Bond(_) => {
            reveal(bond_call_accepted);
        },
        Call::Custody(_) => {
            reveal(custody_call_accepted);
        },
        Call::Guarded(_) => {
            reveal(guarded_call_accepted);
        },
        Call::Pool(_) => {
            reveal(pool_call_accepted);
        },
    }
}

/// Accepted calls leave a bond whose amounts make sense.
pub proof fn lemma_calls_keep_bond_sound(s: LedgerView, call: Call)
    requires
        bond_sound(s.storage),
        refusal(s, call) is None,
    ensures
        bond_sound(accepted(s, call).storage),
{
    match call {
        Call::Setup(_) => {
            reveal(setup_call_refusal);
            reveal(setup_call_accepted);
        },
        Call::Attester(_) => {
            reveal(attester_call_refusal);
            reveal(attester_call_accepted);
        },
        Call::Attestation(_) => {
            reveal(attestation_call_refusal);
            reveal(attestation_call_accepted);
        },
        Call::Bond(_) => {
            reveal(bond_call_refusal);
            reveal(bond_call_accepted);
        },
        Call::Custody(_) => {
            reveal(custody_call_refusal);
            reveal(custody_call_accepted);
        },
        Call::Guarded(_) => {
            reveal(guarded_call_refusal);
            reveal(guarded_call_accepted);
        },
        Call::Pool(_) => {
            reveal(pool_call_refusal);
            reveal(pool_call_accepted);
        },
    }
}

/// Every call, accepted or refused, keeps the storage sound.
pub proof fn law_calls_keep_storage_sound(s: LedgerView, call: Call)
    requires
        sound(s.storage),
    ensures
        sound(after(s, call).storage),
{
    if refusal(s, call) is None {
        match call {
            Call::Attestation(attestation_call) => {
                reveal(attestation_call_refusal);
                reveal(attestation_call_accepted);
                match attestation_call {
                    AttestationCall::AddAttestation { attester, subject, data, nonce } => {
                        lemma_add_attestation_is_sound(s, attester, subject, data, nonce);
                    },
                    AttestationCall::RevokeAttestation { attester, attestation_id, nonce } => {
                        lemma_revoke_attestation_is_sound(s, attester, attestation_id, nonce);
                    },
                }
            },
            _ => {
                lemma_other_calls_leave_attestations(s, call);
                lemma_calls_keep_bond_sound(s, call);
                lemma_same_attestations(s.storage, accepted(s, call).storage);
            },
        }
    }
}

/// Whatever calls a freshly deployed contract has served, at whatever times and with whatever
/// authorizations, its storage is sound.
pub proof fn law_every_reachable_storage_is_sound(s: LedgerView, turns: Seq<Turn>)
    requires
        s.storage == StorageView::initial(),
    ensures
        sound(after_turns(s, turns).storage),
    decreases turns.len(),
{
    if turns.len() == 0 {
        assert forall|subject: Address| #[trigger] s.storage.ids_of(subject) == Seq::<
            u64,
        >::empty() by {}
    } else {
        law_every_reachable_storage_is_sound(s, turns.drop_last());
        let before = after_turns(s, turns.drop_last());
        let turn = turns.last();
        law_calls_keep_storage_sound(
            LedgerView { timestamp: turn.timestamp, auths: turn.auths, ..before },
            turn.call,
        );
    }
}

} // verus!

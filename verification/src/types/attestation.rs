//! What an attester says about an identity.

use crate::address::Address;
use crate::error::ContractError;
use crate::keyed_map::StorageKey;
use vstd::prelude::*;

verus! {

/// A statement that a registered attester has made about an identity.
#[derive(Debug)]
pub struct Attestation {
    /// The number under which the attestation is kept.
    pub id: u64,
    /// The attester who made the statement.
    pub verifier: Address,
    /// The identity that the statement is about.
    pub identity: Address,
    /// The ledger time at which it was made.
    pub timestamp: u64,
    /// What it counts for, from the attester's stake at that time.
    pub weight: u32,
    /// The opaque payload.
    pub attestation_data: Vec<u8>,
    /// Whether its maker has taken it back.
    pub revoked: bool,
}

/// What an attestation says.
pub struct AttestationView {
    pub id: u64,
    pub verifier: Address,
    pub identity: Address,
    pub timestamp: u64,
    pub weight: u32,
    pub attestation_data: Seq<u8>,
    pub revoked: bool,
}

impl View for Attestation {
    type V = AttestationView;

    open spec fn view(&self) -> AttestationView {
        AttestationView {
            id: self.id,
            verifier: self.verifier,
            identity: self.identity,
            timestamp: self.timestamp,
            weight: self.weight,
            attestation_data: self.attestation_data@,
            revoked: self.revoked,
        }
    }
}

impl AttestationView {
    /// The key that no second live attestation may share.
    pub open spec fn dedup_key(self) -> DedupKeyView {
        DedupKeyView {
            verifier: self.verifier,
            identity: self.identity,
            attestation_data: self.attestation_data,
        }
    }

    /// The same attestation, taken back.
    pub open spec fn revoke(self) -> AttestationView {
        AttestationView { revoked: true, ..self }
    }
}

impl Attestation {
    /// Refuses a weight above what any attestation may carry.
    pub fn validate_weight(weight: u32, max_weight: u32) -> (checked: Result<(), ContractError>)
        ensures
            checked == (if weight > max_weight {
                Err::<(), ContractError>(ContractError::InvalidWeight)
            } else {
                Ok(())
            }),
    {
        if weight > max_weight {
            Err(ContractError::InvalidWeight)
        } else {
            Ok(())
        }
    }

    /// The key that no second live attestation may share.
    pub fn dedup_key(&self) -> (key: AttestationDedupKey)
        ensures
            key@ == self@.dedup_key(),
    {
        AttestationDedupKey {
            verifier: self.verifier,
            identity: self.identity,
            attestation_data: copy_bytes(&self.attestation_data),
        }
    }
}

impl Clone for Attestation {
    fn clone(&self) -> (copy: Self)
        ensures
            copy@ == self@,
    {
        Attestation {
            id: self.id,
            verifier: self.verifier,
            identity: self.identity,
            timestamp: self.timestamp,
            weight: self.weight,
            attestation_data: copy_bytes(&self.attestation_data),
            revoked: self.revoked,
        }
    }
}

/// Who says what about whom: at most one live attestation has it.
#[derive(Debug)]
pub struct AttestationDedupKey {
    pub verifier: Address,
    pub identity: Address,
    pub attestation_data: Vec<u8>,
}

/// What a deduplication key says.
pub struct DedupKeyView {
    pub verifier: Address,
    pub identity: Address,
    pub attestation_data: Seq<u8>,
}

impl View for AttestationDedupKey {
    type V = DedupKeyView;

    open spec fn view(&self) -> DedupKeyView {
        DedupKeyView {
            verifier: self.verifier,
            identity: self.identity,
            attestation_data: self.attestation_data@,
        }
    }
}

impl StorageKey for AttestationDedupKey {
    fn same(&self, other: &Self) -> (same: bool) {
        let same_data = self.attestation_data == other.attestation_data;
        assert(same_data == (self.attestation_data@ =~= other.attestation_data@));
        self.verifier == other.verifier && self.identity == other.identity && same_data
    }
}

/// A copy of some bytes.
pub(crate) fn copy_bytes(bytes: &Vec<u8>) -> (copy: Vec<u8>)
    ensures
        copy@ == bytes@,
{
    let copy = bytes.clone();
    assert(copy@ =~= bytes@);
    copy
}

} // verus!

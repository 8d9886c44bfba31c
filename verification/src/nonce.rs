//! Nonces, which keep a signed call from being served twice.

use crate::address::Address;
use crate::error::ContractError;
use crate::ledger::{Ledger, LedgerView, StorageView};
use vstd::prelude::*;

verus! {

/// Why a nonce is refused, if it is.
pub open spec fn nonce_refusal(s: LedgerView, identity: Address, nonce: u64) -> Option<
    ContractError,
> {
    if nonce != s.storage.nonce_of(identity) {
        Some(ContractError::InvalidNonce)
    } else if nonce == u64::MAX {
        Some(ContractError::NonceOverflow)
    } else {
        None
    }
}

/// The storage after an address has used up its current nonce.
pub open spec fn nonce_consumed(storage: StorageView, identity: Address) -> StorageView {
    StorageView {
        nonces: storage.nonces.insert(identity, (storage.nonce_of(identity) + 1) as u64),
        ..storage
    }
}

/// The nonce that an address has to present next.
pub fn get_nonce(e: &Ledger, identity: &Address) -> (nonce: u64)
    ensures
        nonce == e@.storage.nonce_of(*identity),
{
    match e.storage.nonces.get(identity) {
        Some(nonce) => *nonce,
        None => 0,
    }
}

/// Refuses a nonce that is not the current one of an address.
pub fn check_nonce(e: &Ledger, identity: &Address, nonce: u64) -> (checked: Result<
    (),
    ContractError,
>)
    ensures
        checked == (match nonce_refusal(e@, *identity, nonce) {
            Some(refusal) => Err::<(), ContractError>(refusal),
            None => Ok(()),
        }),
{
    if nonce != get_nonce(e, identity) {
        return Err(ContractError::InvalidNonce);
    }
    if nonce == u64::MAX {
        return Err(ContractError::NonceOverflow);
    }
    Ok(())
}

/// Uses up the current nonce of an address.
pub fn consume_nonce(e: &mut Ledger, identity: &Address, nonce: u64) -> (consumed: Result<
    (),
    ContractError,
>)
    ensures
        match nonce_refusal(old(e)@, *identity, nonce) {
            Some(refusal) => consumed == Err::<(), ContractError>(refusal) && final(e)@ == old(e)@,
            None => consumed == Ok::<(), ContractError>(()) && final(e)@ == old(e)@.with_storage(
                nonce_consumed(old(e)@.storage, *identity),
            ),
        },
{
    check_nonce(e, identity, nonce)?;
    e.storage.nonces.set(*identity, nonce + 1);
    Ok(())
}

} // verus!

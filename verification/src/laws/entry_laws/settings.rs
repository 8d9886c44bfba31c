//! Setting the contract up, and deciding who may attest.

use crate::address::Address;
use crate::contract::CredenceBond;
use crate::effect::{Effect, Event};
use crate::error::ContractError;
use crate::laws::entry_laws::shapes::{leaves, refused};
use crate::ledger::{EarlyExitConfig, Ledger, LedgerView, StorageView, WeightConfig};
use vstd::prelude::*;

verus! {

/// Whether a call that only the stored admin may make is answered as it should be: accepted exactly
/// if it is open, there is an admin, the call names it, and it has authorized the call.
pub open spec fn admin_only(
    s: LedgerView,
    open: bool,
    admin: Address,
    answer: Result<(), ContractError>,
) -> bool {
    let set_up = open && s.storage.admin is Some;
    let named = set_up && s.storage.admin == Some(admin);
    let authorized = named && s.auths.contains(admin);
    &&& refused(answer, ContractError::ContractPaused) <==> !open
    &&& refused(answer, ContractError::NotInitialized) <==> open && !set_up
    &&& refused(answer, ContractError::NotAdmin) <==> set_up && !named
    &&& refused(answer, ContractError::NotAuthorized(admin)) <==> named && !authorized
    &&& answer is Ok <==> authorized
}

/// Whoever authorizes it can initialize the contract with itself as the admin; a pause is lifted.
pub proof fn law_initialize(
    e: &mut Ledger,
    admin: Address,
    token: Address,
    answer: Result<(), ContractError>,
)
    requires
        call_ensures(CredenceBond::initialize, (e, admin, token), answer),
    ensures
        answer is Ok <==> old(e)@.auths.contains(admin),
        answer is Err ==> refused(answer, ContractError::NotAuthorized(admin)) && final(e)@ == old(
            e,
        )@,
        answer is Ok ==> leaves(
            old(e)@,
            final(e)@,
            (StorageView {
                admin: Some(admin),
                token: Some(token),
                paused: false,
                ..old(e)@.storage
            }),
            seq![],
        ),
{
}

/// The admin can pause the contract at any time; it is announced.
pub proof fn law_pause(e: &mut Ledger, admin: Address, answer: Result<(), ContractError>)
    requires
        call_ensures(CredenceBond::pause, (e, admin), answer),
    ensures
        admin_only(old(e)@, true, admin, answer),
        answer is Err ==> final(e)@ == old(e)@,
        answer is Ok ==> leaves(
            old(e)@,
            final(e)@,
            (StorageView { paused: true, ..old(e)@.storage }),
            seq![Effect::Publish(Event::Paused { admin })],
        ),
{
}

/// The admin can unpause the contract at any time; it is announced.
pub proof fn law_unpause(e: &mut Ledger, admin: Address, answer: Result<(), ContractError>)
    requires
        call_ensures(CredenceBond::unpause, (e, admin), answer),
    ensures
        admin_only(old(e)@, true, admin, answer),
        answer is Err ==> final(e)@ == old(e)@,
        answer is Ok ==> leaves(
            old(e)@,
            final(e)@,
            (StorageView { paused: false, ..old(e)@.storage }),
            seq![Effect::Publish(Event::Unpaused { admin })],
        ),
{
}

/// Unless the contract is paused, the admin can say where early exit penalties go and how high they
/// are.
pub proof fn law_set_early_exit_config(
    e: &mut Ledger,
    admin: Address,
    treasury: Address,
    penalty_bps: u32,
    answer: Result<(), ContractError>,
)
    requires
        call_ensures(
            CredenceBond::set_early_exit_config,
            (e, admin, treasury, penalty_bps),
            answer,
        ),
    ensures
        admin_only(old(e)@, !old(e)@.storage.paused, admin, answer),
        answer is Err ==> final(e)@ == old(e)@,
        answer is Ok ==> leaves(
            old(e)@,
            final(e)@,
            (StorageView {
                early_exit: Some(EarlyExitConfig { treasury, penalty_bps }),
                ..old(e)@.storage
            }),
            seq![],
        ),
{
}

/// Unless the contract is paused, anyone can register a callback in place of any other.
pub proof fn law_set_callback(e: &mut Ledger, addr: Address, answer: Result<(), ContractError>)
    requires
        call_ensures(CredenceBond::set_callback, (e, addr), answer),
    ensures
        answer is Ok <==> !old(e)@.storage.paused,
        answer is Err ==> refused(answer, ContractError::ContractPaused) && final(e)@ == old(e)@,
        answer is Ok ==> leaves(
            old(e)@,
            final(e)@,
            (StorageView { callback: Some(addr), ..old(e)@.storage }),
            seq![],
        ),
{
}

/// Whether a change to the register is answered as it should be: accepted exactly if the contract
/// is not paused and the stored admin has authorized the call.
pub open spec fn registrar_only(s: LedgerView, answer: Result<(), ContractError>) -> bool {
    let open = !s.storage.paused;
    let set_up = open && s.storage.admin is Some;
    let authorized = set_up && s.auths.contains(s.storage.admin->0);
    &&& refused(answer, ContractError::ContractPaused) <==> !open
    &&& refused(answer, ContractError::NotInitialized) <==> open && !set_up
    &&& set_up && !authorized ==> refused(
        answer,
        ContractError::NotAuthorized(s.storage.admin->0),
    )
    &&& answer is Ok <==> authorized
}

/// With the admin's authorization any address becomes an attester; it is announced.
pub proof fn law_register_attester(
    e: &mut Ledger,
    attester: Address,
    answer: Result<(), ContractError>,
)
    requires
        call_ensures(CredenceBond::register_attester, (e, attester), answer),
    ensures
        registrar_only(old(e)@, answer),
        answer is Err ==> final(e)@ == old(e)@,
        answer is Ok ==> leaves(
            old(e)@,
            final(e)@,
            (StorageView {
                attesters: old(e)@.storage.attesters.insert(attester, true),
                ..old(e)@.storage
            }),
            seq![Effect::Publish(Event::AttesterRegistered { attester })],
        ),
{
}

/// With the admin's authorization any address ceases to be an attester; it is announced.
pub proof fn law_unregister_attester(
    e: &mut Ledger,
    attester: Address,
    answer: Result<(), ContractError>,
)
    requires
        call_ensures(CredenceBond::unregister_attester, (e, attester), answer),
    ensures
        registrar_only(old(e)@, answer),
        answer is Err ==> final(e)@ == old(e)@,
        answer is Ok ==> leaves(
            old(e)@,
            final(e)@,
            (StorageView {
                attesters: old(e)@.storage.attesters.remove(attester),
                ..old(e)@.storage
            }),
            seq![Effect::Publish(Event::AttesterUnregistered { attester })],
        ),
{
}

/// Unless the contract is paused, the admin can set the stake of any attester to any amount.
pub proof fn law_set_attester_stake(
    e: &mut Ledger,
    admin: Address,
    attester: Address,
    amount: i128,
    answer: Result<(), ContractError>,
)
    requires
        call_ensures(CredenceBond::set_attester_stake, (e, admin, attester, amount), answer),
    ensures
        admin_only(old(e)@, !old(e)@.storage.paused, admin, answer),
        answer is Err ==> final(e)@ == old(e)@,
        answer is Ok ==> leaves(
            old(e)@,
            final(e)@,
            (StorageView {
                attester_stakes: old(e)@.storage.attester_stakes.insert(attester, amount),
                ..old(e)@.storage
            }),
            seq![],
        ),
{
}

/// Unless the contract is paused, the admin can say how stakes turn into weights.
pub proof fn law_set_weight_config(
    e: &mut Ledger,
    admin: Address,
    multiplier_bps: u32,
    max_weight: u32,
    answer: Result<(), ContractError>,
)
    requires
        call_ensures(
            CredenceBond::set_weight_config,
            (e, admin, multiplier_bps, max_weight),
            answer,
        ),
    ensures
        admin_only(old(e)@, !old(e)@.storage.paused, admin, answer),
        answer is Err ==> final(e)@ == old(e)@,
        answer is Ok ==> leaves(
            old(e)@,
            final(e)@,
            (StorageView {
                weight_config: Some(WeightConfig { multiplier_bps, max_weight }),
                ..old(e)@.storage
            }),
            seq![],
        ),
{
}

} // verus!

//! The calls that the reentrancy guard protects, and the fee pool.

use crate::address::Address;
use crate::bond::IdentityBond;
use crate::contract::CredenceBond;
use crate::effect::{Effect, Event, Hook};
use crate::error::ContractError;
use crate::laws::entry_laws::shapes::{guarded_end, leaves, payment, refused};
use crate::ledger::{Ledger, LedgerView, StorageView};
use vstd::prelude::*;

verus! {

/// An active bond can be withdrawn as a whole by its owner, unless a guarded call is in progress,
/// if there is a token to pay it in or nothing left to pay.
///
/// Nothing is then bonded, the bond is inactive, and nothing else of it changes. Its owner is paid
/// what was bonded and not slashed, which is returned, then the callback is told, and the lock is
/// held until both are over.
pub proof fn law_withdraw_bond(
    e: &mut Ledger,
    identity: Address,
    answer: Result<i128, ContractError>,
)
    requires
        call_ensures(CredenceBond::withdraw_bond, (e, identity), answer),
    ensures
        ({
            let s = old(e)@;
            let before = s.storage.bond->0;
            let available = before.bonded_amount - before.slashed_amount;
            let open = !s.storage.paused;
            let authorized = open && s.auths.contains(identity);
            let free = authorized && !s.storage.locked;
            let bonded = free && s.storage.bond is Some;
            let own = bonded && before.identity == identity;
            let active = own && before.active;
            let fitting = active && i128::MIN <= available <= i128::MAX;
            let payable = fitting && (available == 0 || s.storage.token is Some);
            &&& refused(answer, ContractError::ContractPaused) <==> !open
            &&& refused(answer, ContractError::NotAuthorized(identity)) <==> open && !authorized
            &&& refused(answer, ContractError::ReentrancyDetected) <==> authorized && !free
            &&& refused(answer, ContractError::BondNotFound) <==> free && !bonded
            &&& refused(answer, ContractError::NotBondOwner) <==> bonded && !own
            &&& refused(answer, ContractError::BondNotActive) <==> own && !active
            &&& refused(answer, ContractError::ArithmeticOverflow) <==> active && !fitting
            &&& refused(answer, ContractError::TokenNotConfigured) <==> fitting && !payable
            &&& answer is Ok <==> payable
            &&& answer is Err ==> final(e)@ == s
            &&& answer matches Ok(amount) ==> {
                &&& amount == available
                &&& leaves(
                    s,
                    final(e)@,
                    StorageView {
                        bond: Some(IdentityBond { bonded_amount: 0, active: false, ..before }),
                        locked: amount != 0 || s.storage.callback is Some,
                        ..s.storage
                    },
                    payment(s, identity, amount as int) + guarded_end(
                        s,
                        Hook::OnWithdraw,
                        amount,
                        amount != 0,
                    ),
                )
            }
        }),
{
}

/// What a slash of the given size leaves: the slashed amount is higher by it and nothing else of
/// the bond changes; it is announced with the new total, and the callback is told of it under the
/// lock.
pub open spec fn slash_leaves(
    s: LedgerView,
    later: LedgerView,
    taken: i128,
    total: i128,
) -> bool {
    let before = s.storage.bond->0;
    &&& total - before.slashed_amount == taken
    &&& leaves(
        s,
        later,
        StorageView {
            bond: Some(IdentityBond { slashed_amount: total, ..before }),
            locked: s.storage.callback is Some,
            ..s.storage
        },
        seq![
            Effect::Publish(
                Event::BondSlashed {
                    identity: before.identity,
                    slash_amount: taken,
                    total_slashed: total,
                },
            ),
        ] + guarded_end(s, Hook::OnSlash, taken, false),
    )
}

/// A bond can be slashed by the stored admin as long as it is active, whatever its times, its
/// rolling flag and its withdrawal request are, by any positive amount that leaves the slashed part
/// within the bonded amount. The slash takes exactly that, and the new total is returned.
pub proof fn law_slash_bond(
    e: &mut Ledger,
    admin: Address,
    amount: i128,
    answer: Result<i128, ContractError>,
)
    requires
        call_ensures(CredenceBond::slash_bond, (e, admin, amount), answer),
    ensures
        ({
            let s = old(e)@;
            let before = s.storage.bond->0;
            let open = !s.storage.paused;
            let set_up = open && s.storage.admin is Some;
            let named = set_up && s.storage.admin == Some(admin);
            let authorized = named && s.auths.contains(admin);
            let positive = authorized && 0 < amount;
            let bonded = positive && s.storage.bond is Some;
            let active = bonded && before.active;
            let fitting = active && before.slashed_amount + amount <= i128::MAX;
            let within = fitting && before.slashed_amount + amount <= before.bonded_amount;
            let free = within && !s.storage.locked;
            &&& refused(answer, ContractError::ContractPaused) <==> !open
            &&& refused(answer, ContractError::NotInitialized) <==> open && !set_up
            &&& refused(answer, ContractError::NotAdmin) <==> set_up && !named
            &&& refused(answer, ContractError::NotAuthorized(admin)) <==> named && !authorized
            &&& refused(answer, ContractError::SlashAmountNotPositive) <==> authorized && !positive
            &&& refused(answer, ContractError::BondNotFound) <==> positive && !bonded
            &&& refused(answer, ContractError::BondNotActive) <==> bonded && !active
            &&& refused(answer, ContractError::SlashOverflow) <==> active && !fitting
            &&& refused(answer, ContractError::SlashExceedsBond) <==> fitting && !within
            &&& refused(answer, ContractError::ReentrancyDetected) <==> within && !free
            &&& answer is Ok <==> free
            &&& answer is Err ==> final(e)@ == s
            &&& answer matches Ok(total) ==> slash_leaves(s, final(e)@, amount, total)
        }),
{
}

/// With a cap, a bond can be slashed by the stored admin as long as it is active, by any positive
/// amount. The slash takes that amount or, where it is more than what is left, all that is left; of
/// a bond that is slashed in full it takes nothing. The bond stored is the bond returned.
pub proof fn law_slash(
    e: &mut Ledger,
    admin: Address,
    amount: i128,
    answer: Result<IdentityBond, ContractError>,
)
    requires
        call_ensures(CredenceBond::slash, (e, admin, amount), answer),
    ensures
        ({
            let s = old(e)@;
            let before = s.storage.bond->0;
            let left = before.bonded_amount - before.slashed_amount;
            let open = !s.storage.paused;
            let set_up = open && s.storage.admin is Some;
            let named = set_up && s.storage.admin == Some(admin);
            let authorized = named && s.auths.contains(admin);
            let positive = authorized && 0 < amount;
            let bonded = positive && s.storage.bond is Some;
            let active = bonded && before.active;
            let free = active && !s.storage.locked;
            &&& refused(answer, ContractError::ContractPaused) <==> !open
            &&& refused(answer, ContractError::NotInitialized) <==> open && !set_up
            &&& refused(answer, ContractError::NotAdmin) <==> set_up && !named
            &&& refused(answer, ContractError::NotAuthorized(admin)) <==> named && !authorized
            &&& refused(answer, ContractError::SlashAmountNotPositive) <==> authorized && !positive
            &&& refused(answer, ContractError::BondNotFound) <==> positive && !bonded
            &&& refused(answer, ContractError::BondNotActive) <==> bonded && !active
            &&& refused(answer, ContractError::ReentrancyDetected) <==> active && !free
            &&& answer is Ok <==> free
            &&& answer is Err ==> final(e)@ == s
            &&& answer matches Ok(bond) ==> {
                let taken = bond.slashed_amount - before.slashed_amount;
                &&& left <= 0 ==> taken == 0
                &&& 0 < left && amount <= left ==> taken == amount
                &&& 0 < left < amount ==> taken == left
                &&& final(e)@.storage.bond == Some(bond)
                &&& slash_leaves(s, final(e)@, taken as i128, bond.slashed_amount)
            }
        }),
{
}

/// The admin can always slash an active bond that is sound: by any amount up to what is left of it
/// and, with a cap, by any amount at all. All it takes is that the contract is neither paused nor
/// locked and that the stored admin authorizes the call.
pub proof fn law_admin_can_always_slash(
    e: &mut Ledger,
    admin: Address,
    amount: i128,
    strict: Result<i128, ContractError>,
    capped: Result<IdentityBond, ContractError>,
)
    requires
        !old(e)@.storage.paused,
        !old(e)@.storage.locked,
        old(e)@.storage.admin == Some(admin),
        old(e)@.auths.contains(admin),
        old(e)@.storage.bond matches Some(bond) && bond.active && 0 <= bond.slashed_amount
            <= bond.bonded_amount,
        0 < amount,
    ensures
        call_ensures(CredenceBond::slash, (e, admin, amount), capped) ==> capped is Ok,
        call_ensures(CredenceBond::slash_bond, (e, admin, amount), strict) && amount
            <= old(e)@.storage.bond->0.bonded_amount - old(e)@.storage.bond->0.slashed_amount
            ==> strict is Ok,
{
}

/// Anyone can deposit fees as long as the pool fits, unless the contract is paused: the pool grows
/// by them.
pub proof fn law_deposit_fees(e: &mut Ledger, amount: i128, answer: Result<(), ContractError>)
    requires
        call_ensures(CredenceBond::deposit_fees, (e, amount), answer),
    ensures
        ({
            let s = old(e)@;
            let fees = final(e)@.storage.fees;
            let open = !s.storage.paused;
            let fitting = open && i128::MIN <= s.storage.fees + amount <= i128::MAX;
            &&& refused(answer, ContractError::ContractPaused) <==> !open
            &&& refused(answer, ContractError::ArithmeticOverflow) <==> open && !fitting
            &&& answer is Ok <==> fitting
            &&& answer is Err ==> final(e)@ == s
            &&& answer is Ok ==> {
                &&& fees - s.storage.fees == amount
                &&& leaves(s, final(e)@, StorageView { fees, ..s.storage }, seq![])
            }
        }),
{
}

/// The stored admin can collect all fees, unless a guarded call is in progress: they are returned,
/// the pool is empty, and the callback is told of them under the lock.
pub proof fn law_collect_fees(
    e: &mut Ledger,
    admin: Address,
    answer: Result<i128, ContractError>,
)
    requires
        call_ensures(CredenceBond::collect_fees, (e, admin), answer),
    ensures
        ({
            let s = old(e)@;
            let open = !s.storage.paused;
            let authorized = open && s.auths.contains(admin);
            let free = authorized && !s.storage.locked;
            let set_up = free && s.storage.admin is Some;
            let named = set_up && s.storage.admin == Some(admin);
            &&& refused(answer, ContractError::ContractPaused) <==> !open
            &&& refused(answer, ContractError::NotAuthorized(admin)) <==> open && !authorized
            &&& refused(answer, ContractError::ReentrancyDetected) <==> authorized && !free
            &&& refused(answer, ContractError::NoAdmin) <==> free && !set_up
            &&& refused(answer, ContractError::NotAdmin) <==> set_up && !named
            &&& answer is Ok <==> named
            &&& answer is Err ==> final(e)@ == s
            &&& answer matches Ok(fees) ==> {
                &&& fees == s.storage.fees
                &&& leaves(
                    s,
                    final(e)@,
                    StorageView { fees: 0, locked: s.storage.callback is Some, ..s.storage },
                    guarded_end(s, Hook::OnCollect, fees, false),
                )
            }
        }),
{
}

/// Freeing the lock does nothing else.
pub proof fn law_release_lock(e: &mut Ledger)
    requires
        call_ensures(CredenceBond::release_lock, (e,), ()),
    ensures
        leaves(
            old(e)@,
            final(e)@,
            (StorageView { locked: false, ..old(e)@.storage }),
            seq![],
        ),
{
}

} // verus!
